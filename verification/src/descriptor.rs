//! The descriptors of resources: plain data that says what a resource should
//! be like, and the rules that a descriptor has to keep by itself.

use vstd::prelude::*;

use crate::command::BufferBinding;
use crate::command::CopyExtent;
use crate::command::TextureBinding;
use crate::flags::BindGroupLayoutFlags;
use crate::flags::MemoryFlags;
use crate::flags::PipelineLayoutFlags;
use crate::flags::ShaderStages;
use crate::resource::AccelerationStructure;
use crate::resource::BindGroupLayout;
use crate::resource::PipelineLayout;
use crate::resource::Sampler;
use crate::resource::ShaderModule;
use crate::types::AddressMode;
use crate::types::BufferAddress;
use crate::types::CompareFunction;
use crate::types::Extent3d;
use crate::types::FilterMode;
use crate::types::ImageSubresourceRange;
use crate::types::Label;
use crate::types::QueryType;
use crate::types::SamplerBorderColor;
use crate::types::ShaderStage;
use crate::types::TextureDimension;
use crate::types::TextureFormat;
use crate::types::TextureViewDimension;
use crate::types::VertexFormat;
use crate::types::VertexStepMode;
use crate::types::MAX_ANISOTROPY;
use crate::usage::BufferUses;
use crate::usage::TextureUses;

verus! {

/// What a buffer should be like.
#[derive(Clone, Debug)]
pub struct BufferDescriptor<'a> {
    pub label: Label<'a>,
    pub size: BufferAddress,
    pub usage: BufferUses,
    pub memory_flags: MemoryFlags,
}

/// A mapped range of a buffer: where it starts, how long it is, and whether
/// the CPU and the GPU see each other's writes without flushing.
#[derive(Clone, Copy, Debug, PartialEq, Eq, Structural)]
pub struct BufferMapping {
    pub offset: BufferAddress,
    pub size: BufferAddress,
    pub is_coherent: bool,
}

/// What a texture should be like.
#[derive(Clone, Debug)]
pub struct TextureDescriptor<'a> {
    pub label: Label<'a>,
    pub size: Extent3d,
    pub mip_level_count: u32,
    pub sample_count: u32,
    pub dimension: TextureDimension,
    pub format: TextureFormat,
    pub usage: TextureUses,
    pub memory_flags: MemoryFlags,
    /// The formats, other than its own, that views of the texture may have.
    pub view_formats: Vec<TextureFormat>,
}

impl CopyExtent {
    /// The extent of a copy that covers a whole texture of the given extent:
    /// its width and height, and its depth where it has three dimensions.
    /// The layers of any other texture are not depth: a copy covers one
    /// layer.
    pub open spec fn of_extent(extent: Extent3d, dimension: TextureDimension) -> CopyExtent {
        CopyExtent {
            width: extent.width,
            height: extent.height,
            depth: match dimension {
                TextureDimension::D3 => extent.depth_or_array_layers,
                _ => 1,
            },
        }
    }

    /// The extent of a copy that covers a whole texture of the given extent.
    pub fn map_extent_to_copy_size(extent: &Extent3d, dimension: TextureDimension) -> (r:
        CopyExtent)
        ensures
            r == Self::of_extent(*extent, dimension),
    {
        CopyExtent {
            width: extent.width,
            height: extent.height,
            depth: match dimension {
                TextureDimension::D1 | TextureDimension::D2 => 1,
                TextureDimension::D3 => extent.depth_or_array_layers,
            },
        }
    }
}

impl TextureDescriptor<'_> {
    /// A texture can be viewed as a cube, or as an array of cubes, when it
    /// has two dimensions, square faces, one sample for each texel, and six
    /// layers for each cube.
    pub open spec fn cube_compatible(&self) -> bool {
        &&& self.dimension == TextureDimension::D2
        &&& self.size.depth_or_array_layers % 6 == 0
        &&& self.sample_count == 1
        &&& self.size.width == self.size.height
    }

    /// The number of array layers: that of a texture of two dimensions is in
    /// its extent; any other texture has one.
    pub open spec fn layer_count(&self) -> u32 {
        match self.dimension {
            TextureDimension::D2 => self.size.depth_or_array_layers,
            _ => 1,
        }
    }

    /// The extent of a copy that covers the whole texture.
    pub fn copy_extent(&self) -> (r: CopyExtent)
        ensures
            r == CopyExtent::of_extent(self.size, self.dimension),
    {
        CopyExtent::map_extent_to_copy_size(&self.size, self.dimension)
    }

    /// Whether the texture can be viewed as a cube or as an array of cubes.
    pub fn is_cube_compatible(&self) -> (r: bool)
        ensures
            r == self.cube_compatible(),
    {
        self.dimension == TextureDimension::D2 && self.size.depth_or_array_layers % 6 == 0
            && self.sample_count == 1 && self.size.width == self.size.height
    }

    /// The number of array layers of the texture.
    pub fn array_layer_count(&self) -> (r: u32)
        ensures
            r == self.layer_count(),
    {
        match self.dimension {
            TextureDimension::D1 | TextureDimension::D3 => 1,
            TextureDimension::D2 => self.size.depth_or_array_layers,
        }
    }
}

/// What a view of a texture should show. The format is that of the texture
/// or one of its view formats, the dimension fits that of the texture, the
/// usage is part of the usage of the texture, and the range lies inside the
/// texture.
#[derive(Clone, Debug)]
pub struct TextureViewDescriptor<'a> {
    pub label: Label<'a>,
    pub format: TextureFormat,
    pub dimension: TextureViewDimension,
    pub usage: TextureUses,
    pub range: ImageSubresourceRange,
}

/// What a sampler should be like. The range of levels of detail that the
/// sampler is held to is a pair of floating-point numbers and travels beside
/// the descriptor.
#[derive(Clone, Debug)]
pub struct SamplerDescriptor<'a> {
    pub label: Label<'a>,
    pub address_modes: [AddressMode; 3],
    pub mag_filter: FilterMode,
    pub min_filter: FilterMode,
    pub mipmap_filter: FilterMode,
    pub compare: Option<CompareFunction>,
    /// From 1 to 16. Anything but 1 needs an adapter that filters
    /// anisotropically.
    pub anisotropy_clamp: u16,
    pub border_color: Option<SamplerBorderColor>,
}

impl SamplerDescriptor<'_> {
    pub open spec fn spec_has_valid_anisotropy(&self) -> bool {
        1 <= self.anisotropy_clamp <= MAX_ANISOTROPY
    }

    /// Whether the anisotropy clamp lies in its range, from 1 to 16.
    #[verifier::when_used_as_spec(spec_has_valid_anisotropy)]
    pub fn has_valid_anisotropy(&self) -> (r: bool)
        ensures
            r == (1 <= self.anisotropy_clamp <= MAX_ANISOTROPY),
    {
        1 <= self.anisotropy_clamp && self.anisotropy_clamp <= 16
    }
}

/// The kind of resource that a binding holds.
#[derive(Clone, Copy, Debug, PartialEq, Eq, Hash, Structural)]
pub enum BindingType {
    Buffer,
    Sampler,
    Texture,
    StorageTexture,
    AccelerationStructure,
}

/// One binding of a bind group layout. A count makes the binding an array of
/// that length.
#[derive(Clone, Copy, Debug, PartialEq, Eq, Hash, Structural)]
pub struct BindGroupLayoutEntry {
    pub binding: u32,
    pub visibility: ShaderStages,
    pub ty: BindingType,
    pub count: Option<u32>,
}

/// What a bind group layout should be like. The entries come in ascending
/// order of their binding numbers.
#[derive(Clone, Debug)]
pub struct BindGroupLayoutDescriptor<'a> {
    pub label: Label<'a>,
    pub flags: BindGroupLayoutFlags,
    pub entries: &'a [BindGroupLayoutEntry],
}

/// The binding numbers grow from each entry to the next.
pub open spec fn layout_entries_ascend(entries: Seq<BindGroupLayoutEntry>) -> bool {
    forall|i: int, j: int|
        0 <= i < j < entries.len() ==> (#[trigger] entries[i]).binding
            < (#[trigger] entries[j]).binding
}

impl BindGroupLayoutDescriptor<'_> {
    /// Whether the entries come in ascending order of their binding numbers.
    pub fn is_sorted(&self) -> (r: bool)
        ensures
            r == layout_entries_ascend(self.entries@),
    {
        if self.entries.len() < 2 {
            return true;
        }
        let mut i: usize = 1;
        while i < self.entries.len()
            invariant
                1 <= i <= self.entries@.len(),
                forall|a: int, b: int|
                    0 <= a < b < i ==> (#[trigger] self.entries@[a]).binding < (
                    #[trigger] self.entries@[b]).binding,
            decreases self.entries@.len() - i,
        {
            if self.entries[i - 1].binding >= self.entries[i].binding {
                assert(!((self.entries@[i - 1]).binding < (self.entries@[i as int]).binding));
                return false;
            }
            proof {
                assert forall|a: int, b: int| 0 <= a < b < i + 1 implies (
                #[trigger] self.entries@[a]).binding < (#[trigger] self.entries@[b]).binding by {
                    if b == i && a < i - 1 {
                        assert(self.entries@[a].binding < self.entries@[i - 1].binding);
                    }
                }
            }
            i += 1;
        }
        true
    }
}

/// A range of the push constants, in bytes, and the stages that see it.
#[derive(Debug, PartialEq, Eq)]
pub struct PushConstantRange {
    pub stages: ShaderStages,
    pub range: core::ops::Range<u32>,
}

/// What a pipeline layout should be like.
#[derive(Debug)]
pub struct PipelineLayoutDescriptor<'a> {
    pub label: Label<'a>,
    pub flags: PipelineLayoutFlags,
    pub bind_group_layouts: &'a [BindGroupLayout],
    pub push_constant_ranges: &'a [PushConstantRange],
}

/// One entry of a bind group: the binding it fills, and where its resources
/// start in the list of resources of its kind, and how many they are.
#[derive(Clone, Copy, Debug, PartialEq, Eq, Hash, Structural)]
pub struct BindGroupEntry {
    pub binding: u32,
    pub resource_index: u32,
    pub count: u32,
}

/// What a bind group should hold. The entries come in ascending order of
/// their binding numbers, which are those of the layout, and each entry
/// points into the list of resources of the kind that the layout names for
/// it.
#[derive(Clone, Debug)]
pub struct BindGroupDescriptor<'a> {
    pub label: Label<'a>,
    pub layout: BindGroupLayout,
    pub buffers: &'a [BufferBinding],
    pub samplers: &'a [Sampler],
    pub textures: &'a [TextureBinding],
    pub entries: &'a [BindGroupEntry],
    pub acceleration_structures: &'a [AccelerationStructure],
}

impl BindGroupDescriptor<'_> {
    /// The number of resources of a kind that the descriptor lists.
    pub open spec fn resource_count(&self, ty: BindingType) -> nat {
        match ty {
            BindingType::Buffer => self.buffers@.len(),
            BindingType::Sampler => self.samplers@.len(),
            BindingType::Texture => self.textures@.len(),
            BindingType::StorageTexture => self.textures@.len(),
            BindingType::AccelerationStructure => self.acceleration_structures@.len(),
        }
    }

    /// Whether the entries fit a layout with the given entries: there are as
    /// many, one for one with the same binding number, and each points at
    /// resources that the descriptor lists.
    pub open spec fn fits(&self, layout: Seq<BindGroupLayoutEntry>) -> bool {
        &&& self.entries@.len() == layout.len()
        &&& forall|i: int|
            0 <= i < layout.len() ==> {
                &&& (#[trigger] self.entries@[i]).binding == layout[i].binding
                &&& self.entries@[i].resource_index + self.entries@[i].count
                    <= self.resource_count(layout[i].ty)
            }
    }

    fn count_resources(&self, ty: BindingType) -> (r: usize)
        ensures
            r == self.resource_count(ty),
    {
        match ty {
            BindingType::Buffer => self.buffers.len(),
            BindingType::Sampler => self.samplers.len(),
            BindingType::Texture => self.textures.len(),
            BindingType::StorageTexture => self.textures.len(),
            BindingType::AccelerationStructure => self.acceleration_structures.len(),
        }
    }

    /// Whether the entries fit a layout with the given entries.
    pub fn fits_layout(&self, layout: &[BindGroupLayoutEntry]) -> (r: bool)
        ensures
            r == self.fits(layout@),
    {
        if self.entries.len() != layout.len() {
            return false;
        }
        let mut i: usize = 0;
        while i < layout.len()
            invariant
                i <= layout@.len(),
                self.entries@.len() == layout@.len(),
                forall|k: int|
                    0 <= k < i ==> {
                        &&& (#[trigger] self.entries@[k]).binding == layout@[k].binding
                        &&& self.entries@[k].resource_index + self.entries@[k].count
                            <= self.resource_count(layout@[k].ty)
                    },
            decreases layout@.len() - i,
        {
            let entry = &self.entries[i];
            let end = entry.resource_index as u64 + entry.count as u64;
            let listed = self.count_resources(layout[i].ty) as u64;
            if entry.binding != layout[i].binding || end > listed {
                assert(!({
                    &&& (self.entries@[i as int]).binding == layout@[i as int].binding
                    &&& self.entries@[i as int].resource_index + self.entries@[i as int].count
                        <= self.resource_count(layout@[i as int].ty)
                }));
                return false;
            }
            i += 1;
        }
        true
    }
}

/// One entry point of a shader module.
#[derive(Clone, Debug, PartialEq, Eq)]
pub struct EntryPoint {
    pub stage: ShaderStage,
    pub name: String,
}

/// The source text of a shader, for debugging.
#[derive(Clone, Debug, PartialEq, Eq)]
pub struct DebugSource {
    pub file_name: String,
    pub source_code: String,
}

/// A shader as a parsed module: what is read of it is the list of its entry
/// points.
#[derive(Clone, Debug, PartialEq, Eq)]
pub struct NagaShader {
    pub entry_points: Vec<EntryPoint>,
    pub debug_source: Option<DebugSource>,
}

/// The first word of every SPIR-V module.
pub const SPIRV_MAGIC_NUMBER: u32 = 0x0723_0203;

/// A shader, in one of the two forms in which it can be handed over.
#[derive(Clone, Debug, PartialEq, Eq)]
pub enum ShaderInput {
    Naga(NagaShader),
    /// The words of a SPIR-V module.
    SpirV(Vec<u32>),
}

/// What a shader module should be like.
#[derive(Clone, Debug)]
pub struct ShaderModuleDescriptor<'a> {
    pub label: Label<'a>,
    pub runtime_checks: bool,
}

/// One stage of a pipeline: a module, and the entry point to run in it.
#[derive(Clone, Debug)]
pub struct ProgrammableStage<'a> {
    pub module: ShaderModule,
    /// The name of a function of the module.
    pub entry_point: &'a str,
    /// Whether memory shared by a work group starts out as zeros.
    pub zero_initialize_workgroup_memory: bool,
}

/// What a compute pipeline should be like.
#[derive(Clone, Debug)]
pub struct ComputePipelineDescriptor<'a> {
    pub label: Label<'a>,
    pub layout: PipelineLayout,
    pub stage: ProgrammableStage<'a>,
}

/// One attribute of a vertex.
#[derive(Clone, Copy, Debug, PartialEq, Eq, Hash, Structural)]
pub struct VertexAttribute {
    pub format: VertexFormat,
    pub offset: BufferAddress,
    pub shader_location: u32,
}

/// How a vertex buffer is read.
#[derive(Clone, Debug)]
pub struct VertexBufferLayout<'a> {
    /// The bytes from one element to the next.
    pub array_stride: BufferAddress,
    pub step_mode: VertexStepMode,
    pub attributes: &'a [VertexAttribute],
}

/// What a render pipeline should be like.
#[derive(Clone, Debug)]
pub struct RenderPipelineDescriptor<'a> {
    pub label: Label<'a>,
    pub layout: PipelineLayout,
    pub vertex_buffers: &'a [VertexBufferLayout<'a>],
    pub vertex_stage: ProgrammableStage<'a>,
    pub fragment_stage: Option<ProgrammableStage<'a>>,
    /// The format of the depth-stencil attachment, if the pipeline has one.
    pub depth_stencil: Option<TextureFormat>,
    /// The number of samples for each texel.
    pub sample_count: u32,
    /// The format of each color target; `None` leaves the slot out.
    pub color_targets: &'a [Option<TextureFormat>],
    /// The number of array layers drawn at once, where it is not one. Never
    /// zero.
    pub multiview: Option<u32>,
}

/// What a query set should be like.
#[derive(Clone, Debug)]
pub struct QuerySetDescriptor<'a> {
    pub label: Label<'a>,
    pub ty: QueryType,
    pub count: u32,
}

} // verus!
