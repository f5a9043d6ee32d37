//! The device: the maker and owner of every resource.
//!
//! Each kind of resource has a table in the device. Making a resource fills a
//! new slot and returns the handle of the slot; destroying it empties the
//! slot for good. Nothing is freed behind the caller's back and nothing is
//! counted by references: a resource lives from its `create_*` to its
//! `destroy_*`.
//!
//! A device holds no memory of its own, so it cannot run out of it by
//! accident. It runs out of it by count: buffers and acceleration structures
//! take their size in bytes from a budget that the adapter sets. Textures
//! take no part in the budget, since their size in bytes depends on a layout
//! that only a native interface knows.

use vstd::prelude::*;
use vstd::slice::slice_to_vec;

use crate::accel::build_sizes;
use crate::accel::sizes_for;
use crate::accel::AccelerationStructureBuildSizes;
use crate::accel::AccelerationStructureDescriptor;
use crate::accel::AccelerationStructureFormat;
use crate::accel::GetAccelerationStructureBuildSizesDescriptor;
use crate::descriptor::BindGroupDescriptor;
use crate::descriptor::BindGroupLayoutDescriptor;
use crate::descriptor::BindGroupLayoutEntry;
use crate::descriptor::BufferDescriptor;
use crate::descriptor::BufferMapping;
use crate::descriptor::ComputePipelineDescriptor;
use crate::descriptor::PipelineLayoutDescriptor;
use crate::descriptor::QuerySetDescriptor;
use crate::descriptor::RenderPipelineDescriptor;
use crate::descriptor::SamplerDescriptor;
use crate::descriptor::ShaderInput;
use crate::descriptor::ShaderModuleDescriptor;
use crate::descriptor::TextureDescriptor;
use crate::descriptor::TextureViewDescriptor;
use crate::descriptor::layout_entries_ascend;
use crate::descriptor::SPIRV_MAGIC_NUMBER;
use crate::encoder::CommandEncoder;
use crate::encoder::EncoderView;
use crate::error::DeviceError;
use crate::error::PipelineError;
use crate::error::ShaderError;
use crate::fence::fence_value_outcome;
use crate::fence::wait_outcome;
use crate::fence::Fence;
use crate::fence::FenceView;
use crate::queue::Queue;
use crate::queue::QueueView;
use crate::flags::BindGroupLayoutFlags;
use crate::flags::MemoryFlags;
use crate::flags::PipelineLayoutFlags;
use crate::limits::Features;
use crate::limits::Limits;
use crate::resource::AccelerationStructure;
use crate::resource::BindGroup;
use crate::resource::BindGroupLayout;
use crate::resource::Buffer;
use crate::resource::ComputePipeline;
use crate::resource::DeviceId;
use crate::resource::PipelineLayout;
use crate::resource::QuerySet;
use crate::resource::RawHandle;
use crate::resource::RenderPipeline;
use crate::resource::Sampler;
use crate::resource::ShaderModule;
use crate::resource::Table;
use crate::resource::Texture;
use crate::resource::TextureView;
use crate::types::AddressMode;
use crate::types::CompareFunction;
use crate::types::Extent3d;
use crate::types::FenceValue;
use crate::types::FilterMode;
use crate::types::ImageSubresourceRange;
use crate::types::Label;
use crate::types::MemoryRange;
use crate::types::QueryType;
use crate::types::SamplerBorderColor;
use crate::types::ShaderStage;
use crate::types::TextureDimension;
use crate::types::TextureFormat;
use crate::types::TextureViewDimension;
use crate::usage::BufferUses;
use crate::usage::TextureUses;

verus! {

/// What a device knows of a buffer.
#[derive(Clone, Copy, Debug, PartialEq, Eq, Structural)]
pub struct BufferState {
    pub size: u64,
    pub usage: BufferUses,
    pub memory_flags: MemoryFlags,
    /// The range that is mapped, if any.
    pub mapping: Option<BufferMapping>,
}

/// What a device knows of a texture.
#[derive(Clone, Copy, Debug, PartialEq, Eq, Structural)]
pub struct TextureInfo {
    pub size: Extent3d,
    pub mip_level_count: u32,
    pub sample_count: u32,
    pub dimension: TextureDimension,
    pub format: TextureFormat,
    pub usage: TextureUses,
    pub memory_flags: MemoryFlags,
}

/// What a device knows of a texture view.
#[derive(Clone, Copy, Debug, PartialEq, Eq, Structural)]
pub struct TextureViewInfo {
    pub texture: Texture,
    pub format: TextureFormat,
    pub dimension: TextureViewDimension,
    pub usage: TextureUses,
    pub range: ImageSubresourceRange,
}

/// What a device knows of a sampler.
#[derive(Clone, Copy, Debug, PartialEq, Eq)]
pub struct SamplerInfo {
    pub address_modes: [AddressMode; 3],
    pub mag_filter: FilterMode,
    pub min_filter: FilterMode,
    pub mipmap_filter: FilterMode,
    pub compare: Option<CompareFunction>,
    pub anisotropy_clamp: u16,
    pub border_color: Option<SamplerBorderColor>,
}

/// What a device knows of a bind group layout.
#[derive(Debug, PartialEq, Eq)]
pub struct BindGroupLayoutInfo {
    pub flags: BindGroupLayoutFlags,
    pub entries: Vec<BindGroupLayoutEntry>,
}

/// What a device knows of a pipeline layout.
#[derive(Debug, PartialEq, Eq)]
pub struct PipelineLayoutInfo {
    pub flags: PipelineLayoutFlags,
    pub bind_group_layouts: Vec<BindGroupLayout>,
}

/// What a device knows of a bind group.
#[derive(Clone, Copy, Debug, PartialEq, Eq, Structural)]
pub struct BindGroupInfo {
    pub layout: BindGroupLayout,
}

/// What a device knows of a shader module.
#[derive(Debug, PartialEq, Eq)]
pub struct ShaderModuleInfo {
    pub input: ShaderInput,
    pub runtime_checks: bool,
}

/// What a device knows of a render pipeline.
#[derive(Clone, Copy, Debug, PartialEq, Eq, Structural)]
pub struct RenderPipelineInfo {
    pub layout: PipelineLayout,
}

/// What a device knows of a compute pipeline.
#[derive(Clone, Copy, Debug, PartialEq, Eq, Structural)]
pub struct ComputePipelineInfo {
    pub layout: PipelineLayout,
}

/// What a device knows of a query set.
#[derive(Clone, Copy, Debug, PartialEq, Eq, Structural)]
pub struct QuerySetInfo {
    pub ty: QueryType,
    pub count: u32,
}

/// What a device knows of an acceleration structure.
#[derive(Clone, Copy, Debug, PartialEq, Eq, Structural)]
pub struct AccelerationStructureInfo {
    pub size: u64,
    pub format: AccelerationStructureFormat,
}

/// What a device knows of a fence or of a command encoder: that it lives.
/// Its state is in the object that the caller holds.
#[derive(Clone, Copy, Debug, PartialEq, Eq, Structural)]
pub struct ObjectSlot {
}

/// What a command encoder should be like: a label, and the queue that its
/// command buffers will be submitted to.
#[derive(Debug)]
pub struct CommandEncoderDescriptor<'a> {
    pub label: Label<'a>,
    pub queue: &'a crate::queue::Queue,
}

/// The text of the error for words that are no SPIR-V module.
pub const NOT_SPIRV: &'static str = "the words do not start with the SPIR-V magic number";

/// Whether a handle names a live slot of a table of the device with the
/// given id.
pub open spec fn slot_live<T>(id: DeviceId, slots: Seq<Option<T>>, raw: RawHandle) -> bool {
    raw.device == id && raw.index < slots.len() && slots[raw.index as int] is Some
}

/// Whether no slot holds a resource.
pub open spec fn all_empty<T>(slots: Seq<Option<T>>) -> bool {
    forall|i: int| 0 <= i < slots.len() ==> slots[i] is None
}

/// The bytes that the resources in the slots take together.
pub open spec fn total_bytes<T>(slots: Seq<Option<T>>, size: spec_fn(T) -> u64) -> nat
    decreases slots.len(),
{
    if slots.len() == 0 {
        0
    } else {
        total_bytes(slots.drop_last(), size) + slot_bytes(slots.last(), size)
    }
}

/// The bytes that the resource in a slot takes; an empty slot takes none.
pub open spec fn slot_bytes<T>(slot: Option<T>, size: spec_fn(T) -> u64) -> nat {
    match slot {
        Some(resource) => size(resource) as nat,
        None => 0,
    }
}

/// Whether the module has an entry point of the given name for the stage.
/// The entry points of a module that was handed over as SPIR-V words are not
/// known, so every name passes.
pub open spec fn has_entry_point(input: ShaderInput, stage: ShaderStage, name: Seq<char>) -> bool {
    match input {
        ShaderInput::Naga(shader) => exists|i: int|
            0 <= i < shader.entry_points@.len() && (#[trigger] shader.entry_points@[i]).stage
                == stage && shader.entry_points@[i].name@ == name,
        ShaderInput::SpirV(_) => true,
    }
}

/// Whether the words can be a SPIR-V module: they start with the magic
/// number.
pub open spec fn is_spirv(words: Seq<u32>) -> bool {
    words.len() > 0 && words[0] == SPIRV_MAGIC_NUMBER
}

/// Whether a shader can be made into a module.
pub open spec fn shader_compiles(input: ShaderInput) -> bool {
    match input {
        ShaderInput::Naga(_) => true,
        ShaderInput::SpirV(words) => is_spirv(words@),
    }
}

/// The state of a device.
pub struct DeviceView {
    pub id: DeviceId,
    /// Whether the device is lost. A lost device stays lost.
    pub lost: bool,
    /// The limits that the device was opened with.
    pub limits: Limits,
    /// The features that the device was opened with.
    pub features: Features,
    /// The bytes that buffers and acceleration structures may take together.
    pub memory_budget: u64,
    /// The bytes that live buffers and acceleration structures take.
    pub memory_used: u64,
    pub buffers: Seq<Option<BufferState>>,
    pub textures: Seq<Option<TextureInfo>>,
    pub texture_views: Seq<Option<TextureViewInfo>>,
    pub samplers: Seq<Option<SamplerInfo>>,
    pub bind_group_layouts: Seq<Option<BindGroupLayoutInfo>>,
    pub pipeline_layouts: Seq<Option<PipelineLayoutInfo>>,
    pub bind_groups: Seq<Option<BindGroupInfo>>,
    pub shader_modules: Seq<Option<ShaderModuleInfo>>,
    pub render_pipelines: Seq<Option<RenderPipelineInfo>>,
    pub compute_pipelines: Seq<Option<ComputePipelineInfo>>,
    pub query_sets: Seq<Option<QuerySetInfo>>,
    pub acceleration_structures: Seq<Option<AccelerationStructureInfo>>,
    pub fences: Seq<Option<ObjectSlot>>,
    pub command_encoders: Seq<Option<ObjectSlot>>,
}

impl DeviceView {
    /// The bytes taken are those of the live buffers and acceleration
    /// structures, they stay within the budget, and no table has more slots
    /// than handles can name.
    pub open spec fn wf(self) -> bool {
        &&& self.memory_used == total_bytes(self.buffers, |b: BufferState| b.size) + total_bytes(
            self.acceleration_structures,
            |a: AccelerationStructureInfo| a.size,
        )
        &&& self.memory_used <= self.memory_budget
        &&& self.tables_fit()
    }

    /// Every slot of every table can be named by a handle.
    pub open spec fn tables_fit(self) -> bool {
        &&& self.buffers.len() <= usize::MAX
        &&& self.textures.len() <= usize::MAX
        &&& self.texture_views.len() <= usize::MAX
        &&& self.samplers.len() <= usize::MAX
        &&& self.bind_group_layouts.len() <= usize::MAX
        &&& self.pipeline_layouts.len() <= usize::MAX
        &&& self.bind_groups.len() <= usize::MAX
        &&& self.shader_modules.len() <= usize::MAX
        &&& self.render_pipelines.len() <= usize::MAX
        &&& self.compute_pipelines.len() <= usize::MAX
        &&& self.query_sets.len() <= usize::MAX
        &&& self.acceleration_structures.len() <= usize::MAX
        &&& self.fences.len() <= usize::MAX
        &&& self.command_encoders.len() <= usize::MAX
    }

    /// The handle of the resource that the next slot of a table will hold.
    pub open spec fn next_handle(self, slots: nat) -> RawHandle {
        RawHandle { device: self.id, index: slots as usize }
    }

    /// Whether the budget has so many bytes left.
    pub open spec fn has_room(self, size: u64) -> bool {
        self.memory_used + size <= self.memory_budget
    }

    /// Whether a range of a buffer can be mapped: the handle names a live
    /// buffer that can be mapped at all and is not mapped now, and the range
    /// lies inside it.
    pub open spec fn can_map(self, buffer: Buffer, start: u64, end: u64) -> bool {
        &&& self.buffer_live(buffer)
        &&& self.buffer_info(buffer).mapping is None
        &&& self.buffer_info(buffer).usage@ & (BufferUses::MAP_READ | BufferUses::MAP_WRITE) != 0
        &&& start <= end <= self.buffer_info(buffer).size
    }

    /// The mapping of a range of a buffer. It is coherent where the buffer
    /// was made with a preference for coherent memory.
    pub open spec fn mapping_of(self, buffer: Buffer, start: u64, end: u64) -> BufferMapping {
        BufferMapping {
            offset: start,
            size: (end - start) as u64,
            is_coherent: self.buffer_info(buffer).memory_flags@ & MemoryFlags::PREFER_COHERENT
                != 0,
        }
    }

    /// Whether the entry point that a stage names is one of its module.
    pub open spec fn stage_resolves(self, module: ShaderModule, stage: ShaderStage, name: Seq<char>)
        -> bool {
        has_entry_point(self.shader_module_info(module).input, stage, name)
    }

    /// What making a render pipeline returns: an error for a lost device,
    /// then for the first stage, vertex before fragment, whose entry point is
    /// not one of its module; the handle of the next slot otherwise.
    pub open spec fn render_pipeline_outcome(self, desc: &RenderPipelineDescriptor) -> Result<
        RenderPipeline,
        PipelineError,
    > {
        if self.lost {
            Err(PipelineError::Device(DeviceError::Lost))
        } else if !self.stage_resolves(
            desc.vertex_stage.module,
            ShaderStage::Vertex,
            desc.vertex_stage.entry_point@,
        ) {
            Err(PipelineError::EntryPoint(ShaderStage::Vertex))
        } else if desc.fragment_stage is Some && !self.stage_resolves(
            desc.fragment_stage.unwrap().module,
            ShaderStage::Fragment,
            desc.fragment_stage.unwrap().entry_point@,
        ) {
            Err(PipelineError::EntryPoint(ShaderStage::Fragment))
        } else {
            Ok(RenderPipeline { raw: self.next_handle(self.render_pipelines.len()) })
        }
    }

    /// Whether the device has nothing left that it made.
    pub open spec fn vacant(self) -> bool {
        &&& all_empty(self.buffers)
        &&& all_empty(self.textures)
        &&& all_empty(self.texture_views)
        &&& all_empty(self.samplers)
        &&& all_empty(self.bind_group_layouts)
        &&& all_empty(self.pipeline_layouts)
        &&& all_empty(self.bind_groups)
        &&& all_empty(self.shader_modules)
        &&& all_empty(self.render_pipelines)
        &&& all_empty(self.compute_pipelines)
        &&& all_empty(self.query_sets)
        &&& all_empty(self.acceleration_structures)
        &&& all_empty(self.fences)
        &&& all_empty(self.command_encoders)
    }

    /// Whether the handle names a buffer that this device made and has not
    /// destroyed.
    pub open spec fn buffer_live(self, buffer: Buffer) -> bool {
        slot_live(self.id, self.buffers, buffer.raw)
    }

    /// What the device knows of a buffer.
    pub open spec fn buffer_info(self, buffer: Buffer) -> BufferState {
        self.buffers[buffer.raw.index as int].unwrap()
    }

    /// Whether the handle names a texture that this device made and has not
    /// destroyed.
    pub open spec fn texture_live(self, texture: Texture) -> bool {
        slot_live(self.id, self.textures, texture.raw)
    }

    /// What the device knows of a texture.
    pub open spec fn texture_info(self, texture: Texture) -> TextureInfo {
        self.textures[texture.raw.index as int].unwrap()
    }

    /// Whether the handle names a texture view that this device made and has
    /// not destroyed.
    pub open spec fn texture_view_live(self, texture_view: TextureView) -> bool {
        slot_live(self.id, self.texture_views, texture_view.raw)
    }

    /// What the device knows of a texture view.
    pub open spec fn texture_view_info(self, texture_view: TextureView) -> TextureViewInfo {
        self.texture_views[texture_view.raw.index as int].unwrap()
    }

    /// Whether the handle names a sampler that this device made and has not
    /// destroyed.
    pub open spec fn sampler_live(self, sampler: Sampler) -> bool {
        slot_live(self.id, self.samplers, sampler.raw)
    }

    /// What the device knows of a sampler.
    pub open spec fn sampler_info(self, sampler: Sampler) -> SamplerInfo {
        self.samplers[sampler.raw.index as int].unwrap()
    }

    /// Whether the handle names a bind group layout that this device made and
    /// has not destroyed.
    pub open spec fn bind_group_layout_live(self, bind_group_layout: BindGroupLayout) -> bool {
        slot_live(self.id, self.bind_group_layouts, bind_group_layout.raw)
    }

    /// What the device knows of a bind group layout.
    pub open spec fn bind_group_layout_info(
        self,
        bind_group_layout: BindGroupLayout,
    ) -> BindGroupLayoutInfo {
        self.bind_group_layouts[bind_group_layout.raw.index as int].unwrap()
    }

    /// Whether the handle names a pipeline layout that this device made and
    /// has not destroyed.
    pub open spec fn pipeline_layout_live(self, pipeline_layout: PipelineLayout) -> bool {
        slot_live(self.id, self.pipeline_layouts, pipeline_layout.raw)
    }

    /// What the device knows of a pipeline layout.
    pub open spec fn pipeline_layout_info(
        self,
        pipeline_layout: PipelineLayout,
    ) -> PipelineLayoutInfo {
        self.pipeline_layouts[pipeline_layout.raw.index as int].unwrap()
    }

    /// Whether the handle names a bind group that this device made and has not
    /// destroyed.
    pub open spec fn bind_group_live(self, bind_group: BindGroup) -> bool {
        slot_live(self.id, self.bind_groups, bind_group.raw)
    }

    /// What the device knows of a bind group.
    pub open spec fn bind_group_info(self, bind_group: BindGroup) -> BindGroupInfo {
        self.bind_groups[bind_group.raw.index as int].unwrap()
    }

    /// Whether the handle names a shader module that this device made and has
    /// not destroyed.
    pub open spec fn shader_module_live(self, shader_module: ShaderModule) -> bool {
        slot_live(self.id, self.shader_modules, shader_module.raw)
    }

    /// What the device knows of a shader module.
    pub open spec fn shader_module_info(self, shader_module: ShaderModule) -> ShaderModuleInfo {
        self.shader_modules[shader_module.raw.index as int].unwrap()
    }

    /// Whether the handle names a render pipeline that this device made and
    /// has not destroyed.
    pub open spec fn render_pipeline_live(self, render_pipeline: RenderPipeline) -> bool {
        slot_live(self.id, self.render_pipelines, render_pipeline.raw)
    }

    /// What the device knows of a render pipeline.
    pub open spec fn render_pipeline_info(
        self,
        render_pipeline: RenderPipeline,
    ) -> RenderPipelineInfo {
        self.render_pipelines[render_pipeline.raw.index as int].unwrap()
    }

    /// Whether the handle names a compute pipeline that this device made and
    /// has not destroyed.
    pub open spec fn compute_pipeline_live(self, compute_pipeline: ComputePipeline) -> bool {
        slot_live(self.id, self.compute_pipelines, compute_pipeline.raw)
    }

    /// What the device knows of a compute pipeline.
    pub open spec fn compute_pipeline_info(
        self,
        compute_pipeline: ComputePipeline,
    ) -> ComputePipelineInfo {
        self.compute_pipelines[compute_pipeline.raw.index as int].unwrap()
    }

    /// Whether the handle names a query set that this device made and has not
    /// destroyed.
    pub open spec fn query_set_live(self, query_set: QuerySet) -> bool {
        slot_live(self.id, self.query_sets, query_set.raw)
    }

    /// What the device knows of a query set.
    pub open spec fn query_set_info(self, query_set: QuerySet) -> QuerySetInfo {
        self.query_sets[query_set.raw.index as int].unwrap()
    }

    /// Whether the handle names an acceleration structure that this device
    /// made and has not destroyed.
    pub open spec fn acceleration_structure_live(
        self,
        acceleration_structure: AccelerationStructure,
    ) -> bool {
        slot_live(self.id, self.acceleration_structures, acceleration_structure.raw)
    }

    /// What the device knows of an acceleration structure.
    pub open spec fn acceleration_structure_info(
        self,
        acceleration_structure: AccelerationStructure,
    ) -> AccelerationStructureInfo {
        self.acceleration_structures[acceleration_structure.raw.index as int].unwrap()
    }

    /// Whether the handle names a fence that this device made and has not
    /// destroyed.
    pub open spec fn fence_live(self, handle: RawHandle) -> bool {
        slot_live(self.id, self.fences, handle)
    }

    /// Whether the handle names a command encoder that this device made and
    /// has not destroyed.
    pub open spec fn command_encoder_live(self, handle: RawHandle) -> bool {
        slot_live(self.id, self.command_encoders, handle)
    }
}

/// An open connection to an adapter: the maker and owner of resources.
pub struct Device {
    id: DeviceId,
    lost: bool,
    limits: Limits,
    features: Features,
    memory_budget: u64,
    memory_used: u64,
    buffers: Table<BufferState>,
    textures: Table<TextureInfo>,
    texture_views: Table<TextureViewInfo>,
    samplers: Table<SamplerInfo>,
    bind_group_layouts: Table<BindGroupLayoutInfo>,
    pipeline_layouts: Table<PipelineLayoutInfo>,
    bind_groups: Table<BindGroupInfo>,
    shader_modules: Table<ShaderModuleInfo>,
    render_pipelines: Table<RenderPipelineInfo>,
    compute_pipelines: Table<ComputePipelineInfo>,
    query_sets: Table<QuerySetInfo>,
    acceleration_structures: Table<AccelerationStructureInfo>,
    fences: Table<ObjectSlot>,
    command_encoders: Table<ObjectSlot>,
}

impl View for Device {
    type V = DeviceView;

    closed spec fn view(&self) -> DeviceView {
        DeviceView {
            id: self.id,
            lost: self.lost,
            limits: self.limits,
            features: self.features,
            memory_budget: self.memory_budget,
            memory_used: self.memory_used,
            buffers: self.buffers@,
            textures: self.textures@,
            texture_views: self.texture_views@,
            samplers: self.samplers@,
            bind_group_layouts: self.bind_group_layouts@,
            pipeline_layouts: self.pipeline_layouts@,
            bind_groups: self.bind_groups@,
            shader_modules: self.shader_modules@,
            render_pipelines: self.render_pipelines@,
            compute_pipelines: self.compute_pipelines@,
            query_sets: self.query_sets@,
            acceleration_structures: self.acceleration_structures@,
            fences: self.fences@,
            command_encoders: self.command_encoders@,
        }
    }
}

impl Device {
    /// The state of a device that has just been opened: not lost, with
    /// nothing made and no byte taken.
    pub open spec fn fresh(
        id: DeviceId,
        limits: Limits,
        features: Features,
        memory_budget: u64,
    ) -> DeviceView {
        DeviceView {
            id,
            lost: false,
            limits,
            features,
            memory_budget,
            memory_used: 0,
            buffers: Seq::empty(),
            textures: Seq::empty(),
            texture_views: Seq::empty(),
            samplers: Seq::empty(),
            bind_group_layouts: Seq::empty(),
            pipeline_layouts: Seq::empty(),
            bind_groups: Seq::empty(),
            shader_modules: Seq::empty(),
            render_pipelines: Seq::empty(),
            compute_pipelines: Seq::empty(),
            query_sets: Seq::empty(),
            acceleration_structures: Seq::empty(),
            fences: Seq::empty(),
            command_encoders: Seq::empty(),
        }
    }

    /// A device that has just been opened.
    pub(crate) fn new(id: DeviceId, limits: Limits, features: Features, memory_budget: u64) -> (r:
        Device)
        ensures
            r@ == Self::fresh(id, limits, features, memory_budget),
            r@.wf(),
            r@.vacant(),
    {
        let r = Device {
            id,
            lost: false,
            limits,
            features,
            memory_budget,
            memory_used: 0,
            buffers: Table::new(),
            textures: Table::new(),
            texture_views: Table::new(),
            samplers: Table::new(),
            bind_group_layouts: Table::new(),
            pipeline_layouts: Table::new(),
            bind_groups: Table::new(),
            shader_modules: Table::new(),
            render_pipelines: Table::new(),
            compute_pipelines: Table::new(),
            query_sets: Table::new(),
            acceleration_structures: Table::new(),
            fences: Table::new(),
            command_encoders: Table::new(),
        };
        assert(r@ == Self::fresh(id, limits, features, memory_budget));
        r
    }

    /// The id of the device.
    pub fn id(&self) -> (r: DeviceId)
        ensures
            r == self@.id,
    {
        self.id
    }

    /// Whether the device is lost.
    pub fn is_lost(&self) -> (r: bool)
        ensures
            r == self@.lost,
    {
        self.lost
    }

    /// The limits that the device was opened with.
    pub fn limits(&self) -> (r: Limits)
        ensures
            r == self@.limits,
    {
        self.limits
    }

    /// The features that the device was opened with.
    pub fn features(&self) -> (r: Features)
        ensures
            r == self@.features,
    {
        self.features
    }

    /// The bytes that buffers and acceleration structures may take together.
    pub fn memory_budget(&self) -> (r: u64)
        ensures
            r == self@.memory_budget,
    {
        self.memory_budget
    }

    /// The bytes that live buffers and acceleration structures take.
    pub fn memory_used(&self) -> (r: u64)
        ensures
            r == self@.memory_used,
    {
        self.memory_used
    }

    /// The device and its queue are lost. Nothing brings them back: every
    /// later operation that can fail does fail. What has been made stays in
    /// the tables until it is destroyed.
    pub fn lose(&mut self, queue: &mut Queue)
        requires
            old(queue)@.device == old(self)@.id,
        ensures
            final(self)@ == (DeviceView { lost: true, ..old(self)@ }),
            final(queue)@ == (QueueView { lost: true, ..old(queue)@ }),
    {
        self.lost = true;
        queue.mark_lost();
    }

    /// Whether the device has nothing left that it made.
    pub fn is_vacant(&self) -> (r: bool)
        ensures
            r == self@.vacant(),
    {
        self.buffers.is_vacant() && self.textures.is_vacant() && self.texture_views.is_vacant()
            && self.samplers.is_vacant() && self.bind_group_layouts.is_vacant()
            && self.pipeline_layouts.is_vacant() && self.bind_groups.is_vacant()
            && self.shader_modules.is_vacant() && self.render_pipelines.is_vacant()
            && self.compute_pipelines.is_vacant() && self.query_sets.is_vacant()
            && self.acceleration_structures.is_vacant() && self.fences.is_vacant()
            && self.command_encoders.is_vacant()
    }

    /// Closes the device together with its queue. Everything that the device
    /// made has been destroyed before, and no work is left on the queue.
    pub fn exit(self, queue: Queue)
        requires
            self@.vacant(),
            queue@.device == self@.id,
            queue@.idle(),
    {
    }

    /// Whether the handle names a buffer that this device made and has not
    /// destroyed.
    pub fn is_buffer_live(&self, buffer: &Buffer) -> (r: bool)
        ensures
            r == self@.buffer_live(*buffer),
    {
        buffer.raw.device == self.id && self.buffers.is_live(buffer.raw.index)
    }

    /// Whether the handle names a texture that this device made and has not
    /// destroyed.
    pub fn is_texture_live(&self, texture: &Texture) -> (r: bool)
        ensures
            r == self@.texture_live(*texture),
    {
        texture.raw.device == self.id && self.textures.is_live(texture.raw.index)
    }

    /// Whether the handle names a texture view that this device made and has
    /// not destroyed.
    pub fn is_texture_view_live(&self, texture_view: &TextureView) -> (r: bool)
        ensures
            r == self@.texture_view_live(*texture_view),
    {
        texture_view.raw.device == self.id && self.texture_views.is_live(texture_view.raw.index)
    }

    /// Whether the handle names a sampler that this device made and has not
    /// destroyed.
    pub fn is_sampler_live(&self, sampler: &Sampler) -> (r: bool)
        ensures
            r == self@.sampler_live(*sampler),
    {
        sampler.raw.device == self.id && self.samplers.is_live(sampler.raw.index)
    }

    /// Whether the handle names a bind group layout that this device made and
    /// has not destroyed.
    pub fn is_bind_group_layout_live(&self, bind_group_layout: &BindGroupLayout) -> (r: bool)
        ensures
            r == self@.bind_group_layout_live(*bind_group_layout),
    {
        bind_group_layout.raw.device == self.id
            && self.bind_group_layouts.is_live(bind_group_layout.raw.index)
    }

    /// Whether the handle names a pipeline layout that this device made and
    /// has not destroyed.
    pub fn is_pipeline_layout_live(&self, pipeline_layout: &PipelineLayout) -> (r: bool)
        ensures
            r == self@.pipeline_layout_live(*pipeline_layout),
    {
        pipeline_layout.raw.device == self.id
            && self.pipeline_layouts.is_live(pipeline_layout.raw.index)
    }

    /// Whether the handle names a bind group that this device made and has not
    /// destroyed.
    pub fn is_bind_group_live(&self, bind_group: &BindGroup) -> (r: bool)
        ensures
            r == self@.bind_group_live(*bind_group),
    {
        bind_group.raw.device == self.id && self.bind_groups.is_live(bind_group.raw.index)
    }

    /// Whether the handle names a shader module that this device made and has
    /// not destroyed.
    pub fn is_shader_module_live(&self, shader_module: &ShaderModule) -> (r: bool)
        ensures
            r == self@.shader_module_live(*shader_module),
    {
        shader_module.raw.device == self.id && self.shader_modules.is_live(shader_module.raw.index)
    }

    /// Whether the handle names a render pipeline that this device made and
    /// has not destroyed.
    pub fn is_render_pipeline_live(&self, render_pipeline: &RenderPipeline) -> (r: bool)
        ensures
            r == self@.render_pipeline_live(*render_pipeline),
    {
        render_pipeline.raw.device == self.id
            && self.render_pipelines.is_live(render_pipeline.raw.index)
    }

    /// Whether the handle names a compute pipeline that this device made and
    /// has not destroyed.
    pub fn is_compute_pipeline_live(&self, compute_pipeline: &ComputePipeline) -> (r: bool)
        ensures
            r == self@.compute_pipeline_live(*compute_pipeline),
    {
        compute_pipeline.raw.device == self.id
            && self.compute_pipelines.is_live(compute_pipeline.raw.index)
    }

    /// Whether the handle names a query set that this device made and has not
    /// destroyed.
    pub fn is_query_set_live(&self, query_set: &QuerySet) -> (r: bool)
        ensures
            r == self@.query_set_live(*query_set),
    {
        query_set.raw.device == self.id && self.query_sets.is_live(query_set.raw.index)
    }

    /// Whether the handle names an acceleration structure that this device
    /// made and has not destroyed.
    pub fn is_acceleration_structure_live(
        &self,
        acceleration_structure: &AccelerationStructure,
    ) -> (r: bool)
        ensures
            r == self@.acceleration_structure_live(*acceleration_structure),
    {
        acceleration_structure.raw.device == self.id
            && self.acceleration_structures.is_live(acceleration_structure.raw.index)
    }

    /// Destroys a texture. Its slot stays empty, so the handle names nothing
    /// from now on.
    pub fn destroy_texture(&mut self, texture: Texture)
        requires
            old(self)@.wf(),
            old(self)@.texture_live(texture),
        ensures
            final(self)@ == (DeviceView {
                textures: old(self)@.textures.update(texture.raw.index as int, None),
                ..old(self)@
            }),
            final(self)@.wf(),
    {
        let _ = self.textures.remove(texture.raw.index);
    }

    /// Destroys a texture view. Its slot stays empty, so the handle names
    /// nothing from now on.
    pub fn destroy_texture_view(&mut self, texture_view: TextureView)
        requires
            old(self)@.wf(),
            old(self)@.texture_view_live(texture_view),
        ensures
            final(self)@ == (DeviceView {
                texture_views: old(self)@.texture_views.update(texture_view.raw.index as int, None),
                ..old(self)@
            }),
            final(self)@.wf(),
    {
        let _ = self.texture_views.remove(texture_view.raw.index);
    }

    /// Destroys a sampler. Its slot stays empty, so the handle names nothing
    /// from now on.
    pub fn destroy_sampler(&mut self, sampler: Sampler)
        requires
            old(self)@.wf(),
            old(self)@.sampler_live(sampler),
        ensures
            final(self)@ == (DeviceView {
                samplers: old(self)@.samplers.update(sampler.raw.index as int, None),
                ..old(self)@
            }),
            final(self)@.wf(),
    {
        let _ = self.samplers.remove(sampler.raw.index);
    }

    /// Destroys a bind group layout. Its slot stays empty, so the handle names
    /// nothing from now on.
    pub fn destroy_bind_group_layout(&mut self, bind_group_layout: BindGroupLayout)
        requires
            old(self)@.wf(),
            old(self)@.bind_group_layout_live(bind_group_layout),
        ensures
            final(self)@ == (DeviceView {
                bind_group_layouts: old(self)@.bind_group_layouts.update(
                    bind_group_layout.raw.index as int,
                    None,
                ),
                ..old(self)@
            }),
            final(self)@.wf(),
    {
        let _ = self.bind_group_layouts.remove(bind_group_layout.raw.index);
    }

    /// Destroys a pipeline layout. Its slot stays empty, so the handle names
    /// nothing from now on.
    pub fn destroy_pipeline_layout(&mut self, pipeline_layout: PipelineLayout)
        requires
            old(self)@.wf(),
            old(self)@.pipeline_layout_live(pipeline_layout),
        ensures
            final(self)@ == (DeviceView {
                pipeline_layouts: old(self)@.pipeline_layouts.update(
                    pipeline_layout.raw.index as int,
                    None,
                ),
                ..old(self)@
            }),
            final(self)@.wf(),
    {
        let _ = self.pipeline_layouts.remove(pipeline_layout.raw.index);
    }

    /// Destroys a bind group. Its slot stays empty, so the handle names nothing
    /// from now on.
    pub fn destroy_bind_group(&mut self, bind_group: BindGroup)
        requires
            old(self)@.wf(),
            old(self)@.bind_group_live(bind_group),
        ensures
            final(self)@ == (DeviceView {
                bind_groups: old(self)@.bind_groups.update(bind_group.raw.index as int, None),
                ..old(self)@
            }),
            final(self)@.wf(),
    {
        let _ = self.bind_groups.remove(bind_group.raw.index);
    }

    /// Destroys a shader module. Its slot stays empty, so the handle names
    /// nothing from now on.
    pub fn destroy_shader_module(&mut self, shader_module: ShaderModule)
        requires
            old(self)@.wf(),
            old(self)@.shader_module_live(shader_module),
        ensures
            final(self)@ == (DeviceView {
                shader_modules: old(self)@.shader_modules.update(
                    shader_module.raw.index as int,
                    None,
                ),
                ..old(self)@
            }),
            final(self)@.wf(),
    {
        let _ = self.shader_modules.remove(shader_module.raw.index);
    }

    /// Destroys a render pipeline. Its slot stays empty, so the handle names
    /// nothing from now on.
    pub fn destroy_render_pipeline(&mut self, render_pipeline: RenderPipeline)
        requires
            old(self)@.wf(),
            old(self)@.render_pipeline_live(render_pipeline),
        ensures
            final(self)@ == (DeviceView {
                render_pipelines: old(self)@.render_pipelines.update(
                    render_pipeline.raw.index as int,
                    None,
                ),
                ..old(self)@
            }),
            final(self)@.wf(),
    {
        let _ = self.render_pipelines.remove(render_pipeline.raw.index);
    }

    /// Destroys a compute pipeline. Its slot stays empty, so the handle names
    /// nothing from now on.
    pub fn destroy_compute_pipeline(&mut self, compute_pipeline: ComputePipeline)
        requires
            old(self)@.wf(),
            old(self)@.compute_pipeline_live(compute_pipeline),
        ensures
            final(self)@ == (DeviceView {
                compute_pipelines: old(self)@.compute_pipelines.update(
                    compute_pipeline.raw.index as int,
                    None,
                ),
                ..old(self)@
            }),
            final(self)@.wf(),
    {
        let _ = self.compute_pipelines.remove(compute_pipeline.raw.index);
    }

    /// Destroys a query set. Its slot stays empty, so the handle names nothing
    /// from now on.
    pub fn destroy_query_set(&mut self, query_set: QuerySet)
        requires
            old(self)@.wf(),
            old(self)@.query_set_live(query_set),
        ensures
            final(self)@ == (DeviceView {
                query_sets: old(self)@.query_sets.update(query_set.raw.index as int, None),
                ..old(self)@
            }),
            final(self)@.wf(),
    {
        let _ = self.query_sets.remove(query_set.raw.index);
    }

    /// Makes a buffer, in the usage `BufferUses::empty()`. Its size is taken
    /// from the memory budget: where the budget has fewer bytes left, the
    /// buffer is not made.
    pub fn create_buffer(&mut self, desc: &BufferDescriptor) -> (r: Result<Buffer, DeviceError>)
        requires
            old(self)@.wf(),
        ensures
            final(self)@.wf(),
            old(self)@.lost ==> r == Err::<Buffer, DeviceError>(DeviceError::Lost)
                && final(self)@ == old(self)@,
            !old(self)@.lost && !old(self)@.has_room(desc.size) ==> r == Err::<Buffer, DeviceError>(
                DeviceError::OutOfMemory,
            ) && final(self)@ == old(self)@,
            !old(self)@.lost && old(self)@.has_room(desc.size) ==> r == Ok::<Buffer, DeviceError>(
                Buffer { raw: old(self)@.next_handle(old(self)@.buffers.len()) },
            ) && final(self)@ == (DeviceView {
                buffers: old(self)@.buffers.push(
                    Some(
                        BufferState {
                            size: desc.size,
                            usage: desc.usage,
                            memory_flags: desc.memory_flags,
                            mapping: None,
                        },
                    ),
                ),
                memory_used: (old(self)@.memory_used + desc.size) as u64,
                ..old(self)@
            }),
    {
        if self.lost {
            return Err(DeviceError::Lost);
        }
        if desc.size > self.memory_budget - self.memory_used {
            return Err(DeviceError::OutOfMemory);
        }
        let state = BufferState {
            size: desc.size,
            usage: desc.usage,
            memory_flags: desc.memory_flags,
            mapping: None,
        };
        proof {
            lemma_total_bytes_push(self.buffers@, Some(state), |b: BufferState| b.size);
        }
        let index = self.buffers.insert(state);
        self.memory_used = self.memory_used + desc.size;
        Ok(Buffer { raw: RawHandle { device: self.id, index } })
    }

    /// Destroys a buffer and gives its bytes back to the budget. Its slot
    /// stays empty, so the handle names nothing from now on.
    pub fn destroy_buffer(&mut self, buffer: Buffer)
        requires
            old(self)@.wf(),
            old(self)@.buffer_live(buffer),
        ensures
            final(self)@ == (DeviceView {
                buffers: old(self)@.buffers.update(buffer.raw.index as int, None),
                memory_used: (old(self)@.memory_used - old(self)@.buffer_info(buffer).size) as u64,
                ..old(self)@
            }),
            final(self)@.wf(),
            old(self)@.buffer_info(buffer).size <= old(self)@.memory_used,
    {
        proof {
            lemma_total_bytes_update(
                self.buffers@,
                buffer.raw.index as int,
                None,
                |b: BufferState| b.size,
            );
        }
        let state = self.buffers.remove(buffer.raw.index);
        self.memory_used = self.memory_used - state.size;
    }

    /// What the device knows of a buffer, if the handle names a live one.
    pub fn buffer_state(&self, buffer: &Buffer) -> (r: Option<BufferState>)
        ensures
            self@.buffer_live(*buffer) ==> r == Some(self@.buffer_info(*buffer)),
            !self@.buffer_live(*buffer) ==> r is None,
    {
        if buffer.raw.device == self.id && self.buffers.is_live(buffer.raw.index) {
            Some(*self.buffers.get(buffer.raw.index))
        } else {
            None
        }
    }

    /// Whether the handle names a live buffer that is mapped.
    pub fn is_buffer_mapped(&self, buffer: &Buffer) -> (r: bool)
        ensures
            r == (self@.buffer_live(*buffer) && self@.buffer_info(*buffer).mapping is Some),
    {
        match self.buffer_state(buffer) {
            Some(state) => state.mapping.is_some(),
            None => false,
        }
    }

    /// Whether the range can be mapped: the handle names a live buffer that
    /// can be mapped at all and is not mapped now, and the range lies inside
    /// it.
    pub fn can_map_buffer(&self, buffer: &Buffer, range: &MemoryRange) -> (r: bool)
        ensures
            r == self@.can_map(*buffer, range.start, range.end),
    {
        match self.buffer_state(buffer) {
            Some(state) => state.mapping.is_none() && state.usage.bits & (BufferUses::MAP_READ
                | BufferUses::MAP_WRITE) != 0 && range.start <= range.end && range.end
                <= state.size,
            None => false,
        }
    }

    /// Maps a range of a buffer. The buffer stays mapped, also while the GPU
    /// uses it, until it is unmapped. That the content is worth reading is
    /// the caller's matter: the device raises no error over it.
    pub fn map_buffer(&mut self, buffer: &Buffer, range: MemoryRange) -> (r: Result<
        BufferMapping,
        DeviceError,
    >)
        requires
            old(self)@.wf(),
            old(self)@.can_map(*buffer, range.start, range.end),
        ensures
            final(self)@.wf(),
            old(self)@.lost ==> r == Err::<BufferMapping, DeviceError>(DeviceError::Lost)
                && final(self)@ == old(self)@,
            !old(self)@.lost ==> r == Ok::<BufferMapping, DeviceError>(
                old(self)@.mapping_of(*buffer, range.start, range.end),
            ) && final(self)@ == (DeviceView {
                buffers: old(self)@.buffers.update(
                    buffer.raw.index as int,
                    Some(
                        BufferState {
                            mapping: Some(old(self)@.mapping_of(*buffer, range.start, range.end)),
                            ..old(self)@.buffer_info(*buffer)
                        },
                    ),
                ),
                ..old(self)@
            }),
    {
        if self.lost {
            return Err(DeviceError::Lost);
        }
        let state = *self.buffers.get(buffer.raw.index);
        let mapping = BufferMapping {
            offset: range.start,
            size: range.end - range.start,
            is_coherent: state.memory_flags.bits & MemoryFlags::PREFER_COHERENT != 0,
        };
        let mapped = BufferState { mapping: Some(mapping), ..state };
        proof {
            lemma_total_bytes_update(
                self.buffers@,
                buffer.raw.index as int,
                Some(mapped),
                |b: BufferState| b.size,
            );
        }
        self.buffers.replace(buffer.raw.index, mapped);
        Ok(mapping)
    }

    /// Unmaps a buffer that is mapped. Unmapping a buffer that is not mapped
    /// is no error that could be returned: it is ruled out beforehand.
    pub fn unmap_buffer(&mut self, buffer: &Buffer) -> (r: Result<(), DeviceError>)
        requires
            old(self)@.wf(),
            old(self)@.buffer_live(*buffer),
            old(self)@.buffer_info(*buffer).mapping is Some,
        ensures
            final(self)@.wf(),
            old(self)@.lost ==> r == Err::<(), DeviceError>(DeviceError::Lost) && final(self)@
                == old(self)@,
            !old(self)@.lost ==> r == Ok::<(), DeviceError>(()) && final(self)@ == (DeviceView {
                buffers: old(self)@.buffers.update(
                    buffer.raw.index as int,
                    Some(BufferState { mapping: None, ..old(self)@.buffer_info(*buffer) }),
                ),
                ..old(self)@
            }),
    {
        if self.lost {
            return Err(DeviceError::Lost);
        }
        let state = *self.buffers.get(buffer.raw.index);
        let unmapped = BufferState { mapping: None, ..state };
        proof {
            lemma_total_bytes_update(
                self.buffers@,
                buffer.raw.index as int,
                Some(unmapped),
                |b: BufferState| b.size,
            );
        }
        self.buffers.replace(buffer.raw.index, unmapped);
        Ok(())
    }

    /// Makes a texture. Every part of it starts out in the usage
    /// `TextureUses::UNINITIALIZED`.
    pub fn create_texture(&mut self, desc: &TextureDescriptor) -> (r: Result<Texture, DeviceError>)
        requires
            old(self)@.wf(),
        ensures
            final(self)@.wf(),
            old(self)@.lost ==> r == Err::<Texture, DeviceError>(DeviceError::Lost)
                && final(self)@ == old(self)@,
            !old(self)@.lost ==> r == Ok::<Texture, DeviceError>(
                Texture { raw: old(self)@.next_handle(old(self)@.textures.len()), surface: None },
            ) && final(self)@ == (DeviceView {
                textures: old(self)@.textures.push(Some(TextureInfo {
                    size: desc.size,
                    mip_level_count: desc.mip_level_count,
                    sample_count: desc.sample_count,
                    dimension: desc.dimension,
                    format: desc.format,
                    usage: desc.usage,
                    memory_flags: desc.memory_flags,
                })),
                ..old(self)@
            }),
    {
        if self.lost {
            return Err(DeviceError::Lost);
        }
        let index = self.textures.insert(TextureInfo {
                    size: desc.size,
                    mip_level_count: desc.mip_level_count,
                    sample_count: desc.sample_count,
                    dimension: desc.dimension,
                    format: desc.format,
                    usage: desc.usage,
                    memory_flags: desc.memory_flags,
                });
        Ok(Texture { raw: RawHandle { device: self.id, index }, surface: None })
    }

    /// Makes a view of a texture that this device made, or of a texture that a
    /// surface handed out.
    pub fn create_texture_view(
        &mut self,
        texture: &Texture,
        desc: &TextureViewDescriptor,
    ) -> (r: Result<TextureView, DeviceError>)
        requires
            old(self)@.wf(),
            texture.surface is Some || old(self)@.texture_live(*texture),
        ensures
            final(self)@.wf(),
            old(self)@.lost ==> r == Err::<TextureView, DeviceError>(DeviceError::Lost)
                && final(self)@ == old(self)@,
            !old(self)@.lost ==> r == Ok::<TextureView, DeviceError>(
                TextureView {
                    raw: old(self)@.next_handle(old(self)@.texture_views.len()),
                    texture: *texture,
                },
            ) && final(self)@ == (DeviceView {
                texture_views: old(self)@.texture_views.push(Some(TextureViewInfo {
                    texture: *texture,
                    format: desc.format,
                    dimension: desc.dimension,
                    usage: desc.usage,
                    range: desc.range,
                })),
                ..old(self)@
            }),
    {
        if self.lost {
            return Err(DeviceError::Lost);
        }
        let index = self.texture_views.insert(TextureViewInfo {
                    texture: *texture,
                    format: desc.format,
                    dimension: desc.dimension,
                    usage: desc.usage,
                    range: desc.range,
                });
        Ok(TextureView { raw: RawHandle { device: self.id, index }, texture: *texture })
    }

    /// Makes a sampler.
    pub fn create_sampler(&mut self, desc: &SamplerDescriptor) -> (r: Result<Sampler, DeviceError>)
        requires
            old(self)@.wf(),
            desc.has_valid_anisotropy(),
        ensures
            final(self)@.wf(),
            old(self)@.lost ==> r == Err::<Sampler, DeviceError>(DeviceError::Lost)
                && final(self)@ == old(self)@,
            !old(self)@.lost ==> r == Ok::<Sampler, DeviceError>(
                Sampler { raw: old(self)@.next_handle(old(self)@.samplers.len()) },
            ) && final(self)@ == (DeviceView {
                samplers: old(self)@.samplers.push(Some(SamplerInfo {
                    address_modes: desc.address_modes,
                    mag_filter: desc.mag_filter,
                    min_filter: desc.min_filter,
                    mipmap_filter: desc.mipmap_filter,
                    compare: desc.compare,
                    anisotropy_clamp: desc.anisotropy_clamp,
                    border_color: desc.border_color,
                })),
                ..old(self)@
            }),
    {
        if self.lost {
            return Err(DeviceError::Lost);
        }
        let index = self.samplers.insert(SamplerInfo {
                    address_modes: desc.address_modes,
                    mag_filter: desc.mag_filter,
                    min_filter: desc.min_filter,
                    mipmap_filter: desc.mipmap_filter,
                    compare: desc.compare,
                    anisotropy_clamp: desc.anisotropy_clamp,
                    border_color: desc.border_color,
                });
        Ok(Sampler { raw: RawHandle { device: self.id, index } })
    }

    /// Makes a bind group. Its entries fit the layout: see
    /// [`BindGroupDescriptor::fits`].
    pub fn create_bind_group(
        &mut self,
        desc: &BindGroupDescriptor,
    ) -> (r: Result<BindGroup, DeviceError>)
        requires
            old(self)@.wf(),
            old(self)@.bind_group_layout_live(desc.layout),
            desc.fits(old(self)@.bind_group_layout_info(desc.layout).entries@),
        ensures
            final(self)@.wf(),
            old(self)@.lost ==> r == Err::<BindGroup, DeviceError>(DeviceError::Lost)
                && final(self)@ == old(self)@,
            !old(self)@.lost ==> r == Ok::<BindGroup, DeviceError>(
                BindGroup { raw: old(self)@.next_handle(old(self)@.bind_groups.len()) },
            ) && final(self)@ == (DeviceView {
                bind_groups: old(self)@.bind_groups.push(
                    Some(BindGroupInfo { layout: desc.layout }),
                ),
                ..old(self)@
            }),
    {
        if self.lost {
            return Err(DeviceError::Lost);
        }
        let index = self.bind_groups.insert(BindGroupInfo { layout: desc.layout });
        Ok(BindGroup { raw: RawHandle { device: self.id, index } })
    }

    /// Makes a set of queries.
    pub fn create_query_set(
        &mut self,
        desc: &QuerySetDescriptor,
    ) -> (r: Result<QuerySet, DeviceError>)
        requires
            old(self)@.wf(),
        ensures
            final(self)@.wf(),
            old(self)@.lost ==> r == Err::<QuerySet, DeviceError>(DeviceError::Lost)
                && final(self)@ == old(self)@,
            !old(self)@.lost ==> r == Ok::<QuerySet, DeviceError>(
                QuerySet { raw: old(self)@.next_handle(old(self)@.query_sets.len()), ty: desc.ty },
            ) && final(self)@ == (DeviceView {
                query_sets: old(self)@.query_sets.push(
                    Some(QuerySetInfo { ty: desc.ty, count: desc.count }),
                ),
                ..old(self)@
            }),
    {
        if self.lost {
            return Err(DeviceError::Lost);
        }
        let index = self.query_sets.insert(QuerySetInfo { ty: desc.ty, count: desc.count });
        Ok(QuerySet { raw: RawHandle { device: self.id, index }, ty: desc.ty })
    }

    /// Makes a bind group layout. The entries of the descriptor come in
    /// ascending order of their binding numbers.
    pub fn create_bind_group_layout(&mut self, desc: &BindGroupLayoutDescriptor) -> (r: Result<
        BindGroupLayout,
        DeviceError,
    >)
        requires
            old(self)@.wf(),
            layout_entries_ascend(desc.entries@),
        ensures
            final(self)@.wf(),
            old(self)@.lost ==> r == Err::<BindGroupLayout, DeviceError>(DeviceError::Lost)
                && final(self)@ == old(self)@,
            !old(self)@.lost ==> r == Ok::<BindGroupLayout, DeviceError>(
                BindGroupLayout {
                    raw: old(self)@.next_handle(old(self)@.bind_group_layouts.len()),
                },
            ),
            !old(self)@.lost ==> final(self)@ == (DeviceView {
                bind_group_layouts: old(self)@.bind_group_layouts.push(
                    final(self)@.bind_group_layouts.last(),
                ),
                ..old(self)@
            }),
            !old(self)@.lost ==> (final(self)@.bind_group_layouts.last() matches Some(info)
                && info.flags == desc.flags && info.entries@ == desc.entries@),
    {
        if self.lost {
            return Err(DeviceError::Lost);
        }
        let info = BindGroupLayoutInfo { flags: desc.flags, entries: slice_to_vec(desc.entries) };
        let index = self.bind_group_layouts.insert(info);
        Ok(BindGroupLayout { raw: RawHandle { device: self.id, index } })
    }

    /// The entries of a bind group layout, if the handle names a live one.
    pub fn bind_group_layout_entries(&self, layout: &BindGroupLayout) -> (r: Option<
        &Vec<BindGroupLayoutEntry>,
    >)
        ensures
            self@.bind_group_layout_live(*layout) ==> (r matches Some(entries) && entries@
                == self@.bind_group_layout_info(*layout).entries@),
            !self@.bind_group_layout_live(*layout) ==> r is None,
    {
        if layout.raw.device == self.id && self.bind_group_layouts.is_live(layout.raw.index) {
            Some(&self.bind_group_layouts.get(layout.raw.index).entries)
        } else {
            None
        }
    }

    /// Makes a pipeline layout out of bind group layouts that this device
    /// made.
    pub fn create_pipeline_layout(&mut self, desc: &PipelineLayoutDescriptor) -> (r: Result<
        PipelineLayout,
        DeviceError,
    >)
        requires
            old(self)@.wf(),
            forall|i: int|
                0 <= i < desc.bind_group_layouts@.len() ==> old(self)@.bind_group_layout_live(
                    #[trigger] desc.bind_group_layouts@[i],
                ),
        ensures
            final(self)@.wf(),
            old(self)@.lost ==> r == Err::<PipelineLayout, DeviceError>(DeviceError::Lost)
                && final(self)@ == old(self)@,
            !old(self)@.lost ==> r == Ok::<PipelineLayout, DeviceError>(
                PipelineLayout { raw: old(self)@.next_handle(old(self)@.pipeline_layouts.len()) },
            ),
            !old(self)@.lost ==> final(self)@ == (DeviceView {
                pipeline_layouts: old(self)@.pipeline_layouts.push(
                    final(self)@.pipeline_layouts.last(),
                ),
                ..old(self)@
            }),
            !old(self)@.lost ==> (final(self)@.pipeline_layouts.last() matches Some(info)
                && info.flags == desc.flags && info.bind_group_layouts@
                == desc.bind_group_layouts@),
    {
        if self.lost {
            return Err(DeviceError::Lost);
        }
        let info = PipelineLayoutInfo {
            flags: desc.flags,
            bind_group_layouts: slice_to_vec(desc.bind_group_layouts),
        };
        let index = self.pipeline_layouts.insert(info);
        Ok(PipelineLayout { raw: RawHandle { device: self.id, index } })
    }

    /// Makes a shader module. Words that do not start with the SPIR-V magic
    /// number do not compile.
    pub fn create_shader_module(
        &mut self,
        desc: &ShaderModuleDescriptor,
        shader: ShaderInput,
    ) -> (r: Result<ShaderModule, ShaderError>)
        requires
            old(self)@.wf(),
        ensures
            final(self)@.wf(),
            old(self)@.lost ==> r == Err::<ShaderModule, ShaderError>(
                ShaderError::Device(DeviceError::Lost),
            ) && final(self)@ == old(self)@,
            !old(self)@.lost && !shader_compiles(shader) ==> (r matches Err(
                ShaderError::Compilation(message),
            ) && message@ == NOT_SPIRV@) && final(self)@ == old(self)@,
            !old(self)@.lost && shader_compiles(shader) ==> r == Ok::<ShaderModule, ShaderError>(
                ShaderModule { raw: old(self)@.next_handle(old(self)@.shader_modules.len()) },
            ) && final(self)@ == (DeviceView {
                shader_modules: old(self)@.shader_modules.push(
                    Some(ShaderModuleInfo { input: shader, runtime_checks: desc.runtime_checks }),
                ),
                ..old(self)@
            }),
    {
        if self.lost {
            return Err(ShaderError::Device(DeviceError::Lost));
        }
        let compiles = match &shader {
            ShaderInput::Naga(_) => true,
            ShaderInput::SpirV(words) => words.len() > 0 && words[0] == SPIRV_MAGIC_NUMBER,
        };
        if !compiles {
            return Err(ShaderError::Compilation(NOT_SPIRV.to_owned()));
        }
        let info = ShaderModuleInfo { input: shader, runtime_checks: desc.runtime_checks };
        let index = self.shader_modules.insert(info);
        Ok(ShaderModule { raw: RawHandle { device: self.id, index } })
    }

    /// Whether a live shader module has an entry point of the given name for
    /// the stage.
    pub fn module_has_entry_point(
        &self,
        module: &ShaderModule,
        stage: ShaderStage,
        name: &str,
    ) -> (r: bool)
        requires
            self@.shader_module_live(*module),
        ensures
            r == has_entry_point(self@.shader_module_info(*module).input, stage, name@),
    {
        let info = self.shader_modules.get(module.raw.index);
        match &info.input {
            ShaderInput::Naga(shader) => entry_points_hold(&shader.entry_points, stage, name),
            ShaderInput::SpirV(_) => true,
        }
    }

    /// Makes a compute pipeline. The stage names an entry point of its
    /// module.
    pub fn create_compute_pipeline(&mut self, desc: &ComputePipelineDescriptor) -> (r: Result<
        ComputePipeline,
        PipelineError,
    >)
        requires
            old(self)@.wf(),
            old(self)@.pipeline_layout_live(desc.layout),
            old(self)@.shader_module_live(desc.stage.module),
        ensures
            final(self)@.wf(),
            old(self)@.lost ==> r == Err::<ComputePipeline, PipelineError>(
                PipelineError::Device(DeviceError::Lost),
            ) && final(self)@ == old(self)@,
            !old(self)@.lost && !old(self)@.stage_resolves(
                desc.stage.module,
                ShaderStage::Compute,
                desc.stage.entry_point@,
            ) ==> r == Err::<ComputePipeline, PipelineError>(
                PipelineError::EntryPoint(ShaderStage::Compute),
            ) && final(self)@ == old(self)@,
            !old(self)@.lost && old(self)@.stage_resolves(
                desc.stage.module,
                ShaderStage::Compute,
                desc.stage.entry_point@,
            ) ==> r == Ok::<ComputePipeline, PipelineError>(
                ComputePipeline { raw: old(self)@.next_handle(old(self)@.compute_pipelines.len()) },
            ) && final(self)@ == (DeviceView {
                compute_pipelines: old(self)@.compute_pipelines.push(
                    Some(ComputePipelineInfo { layout: desc.layout }),
                ),
                ..old(self)@
            }),
    {
        if self.lost {
            return Err(PipelineError::Device(DeviceError::Lost));
        }
        if !self.module_has_entry_point(
            &desc.stage.module,
            ShaderStage::Compute,
            desc.stage.entry_point,
        ) {
            return Err(PipelineError::EntryPoint(ShaderStage::Compute));
        }
        let index = self.compute_pipelines.insert(ComputePipelineInfo { layout: desc.layout });
        Ok(ComputePipeline { raw: RawHandle { device: self.id, index } })
    }

    /// Makes a render pipeline. Each stage names an entry point of its
    /// module; the vertex stage is looked at first.
    pub fn create_render_pipeline(&mut self, desc: &RenderPipelineDescriptor) -> (r: Result<
        RenderPipeline,
        PipelineError,
    >)
        requires
            old(self)@.wf(),
            old(self)@.pipeline_layout_live(desc.layout),
            old(self)@.shader_module_live(desc.vertex_stage.module),
            desc.fragment_stage matches Some(fragment) ==> old(self)@.shader_module_live(
                fragment.module,
            ),
        ensures
            final(self)@.wf(),
            r == old(self)@.render_pipeline_outcome(desc),
            r is Err ==> final(self)@ == old(self)@,
            r is Ok ==> final(self)@ == (DeviceView {
                render_pipelines: old(self)@.render_pipelines.push(
                    Some(RenderPipelineInfo { layout: desc.layout }),
                ),
                ..old(self)@
            }),
    {
        if self.lost {
            return Err(PipelineError::Device(DeviceError::Lost));
        }
        if !self.module_has_entry_point(
            &desc.vertex_stage.module,
            ShaderStage::Vertex,
            desc.vertex_stage.entry_point,
        ) {
            return Err(PipelineError::EntryPoint(ShaderStage::Vertex));
        }
        if let Some(fragment) = &desc.fragment_stage {
            if !self.module_has_entry_point(
                &fragment.module,
                ShaderStage::Fragment,
                fragment.entry_point,
            ) {
                return Err(PipelineError::EntryPoint(ShaderStage::Fragment));
            }
        }
        let index = self.render_pipelines.insert(RenderPipelineInfo { layout: desc.layout });
        Ok(RenderPipeline { raw: RawHandle { device: self.id, index } })
    }

    /// Makes an acceleration structure. Its size is taken from the memory
    /// budget: where the budget has fewer bytes left, the structure is not
    /// made.
    pub fn create_acceleration_structure(&mut self, desc: &AccelerationStructureDescriptor) -> (r:
        Result<AccelerationStructure, DeviceError>)
        requires
            old(self)@.wf(),
        ensures
            final(self)@.wf(),
            old(self)@.lost ==> r == Err::<AccelerationStructure, DeviceError>(DeviceError::Lost)
                && final(self)@ == old(self)@,
            !old(self)@.lost && !old(self)@.has_room(desc.size) ==> r == Err::<
                AccelerationStructure,
                DeviceError,
            >(DeviceError::OutOfMemory) && final(self)@ == old(self)@,
            !old(self)@.lost && old(self)@.has_room(desc.size) ==> r == Ok::<
                AccelerationStructure,
                DeviceError,
            >(
                AccelerationStructure {
                    raw: old(self)@.next_handle(old(self)@.acceleration_structures.len()),
                },
            ) && final(self)@ == (DeviceView {
                acceleration_structures: old(self)@.acceleration_structures.push(
                    Some(AccelerationStructureInfo { size: desc.size, format: desc.format }),
                ),
                memory_used: (old(self)@.memory_used + desc.size) as u64,
                ..old(self)@
            }),
    {
        if self.lost {
            return Err(DeviceError::Lost);
        }
        if desc.size > self.memory_budget - self.memory_used {
            return Err(DeviceError::OutOfMemory);
        }
        let info = AccelerationStructureInfo { size: desc.size, format: desc.format };
        proof {
            lemma_total_bytes_push(
                self.acceleration_structures@,
                Some(info),
                |a: AccelerationStructureInfo| a.size,
            );
        }
        let index = self.acceleration_structures.insert(info);
        self.memory_used = self.memory_used + desc.size;
        Ok(AccelerationStructure { raw: RawHandle { device: self.id, index } })
    }

    /// Destroys an acceleration structure and gives its bytes back to the
    /// budget. Its slot stays empty, so the handle names nothing from now on.
    pub fn destroy_acceleration_structure(&mut self, acceleration_structure: AccelerationStructure)
        requires
            old(self)@.wf(),
            old(self)@.acceleration_structure_live(acceleration_structure),
        ensures
            final(self)@ == (DeviceView {
                acceleration_structures: old(self)@.acceleration_structures.update(
                    acceleration_structure.raw.index as int,
                    None,
                ),
                memory_used: (old(self)@.memory_used - old(self)@.acceleration_structure_info(
                    acceleration_structure,
                ).size) as u64,
                ..old(self)@
            }),
            final(self)@.wf(),
            old(self)@.acceleration_structure_info(acceleration_structure).size
                <= old(self)@.memory_used,
    {
        proof {
            lemma_total_bytes_update(
                self.acceleration_structures@,
                acceleration_structure.raw.index as int,
                None,
                |a: AccelerationStructureInfo| a.size,
            );
        }
        let info = self.acceleration_structures.remove(acceleration_structure.raw.index);
        self.memory_used = self.memory_used - info.size;
    }

    /// What the device knows of an acceleration structure, if the handle
    /// names a live one. Neither a build nor an update changes it.
    pub fn acceleration_structure_state(
        &self,
        acceleration_structure: &AccelerationStructure,
    ) -> (r: Option<AccelerationStructureInfo>)
        ensures
            self@.acceleration_structure_live(*acceleration_structure) ==> r == Some(
                self@.acceleration_structure_info(*acceleration_structure),
            ),
            !self@.acceleration_structure_live(*acceleration_structure) ==> r is None,
    {
        if acceleration_structure.raw.device == self.id && self.acceleration_structures.is_live(
            acceleration_structure.raw.index,
        ) {
            Some(*self.acceleration_structures.get(acceleration_structure.raw.index))
        } else {
            None
        }
    }

    /// The memory that a build of the entries needs. The answer is an upper
    /// bound that depends on the shape of the entries alone: see
    /// [`build_sizes`].
    pub fn get_acceleration_structure_build_sizes(
        &self,
        desc: &GetAccelerationStructureBuildSizesDescriptor,
    ) -> (r: AccelerationStructureBuildSizes)
        ensures
            r == sizes_for(desc.entries.primitive_count(), desc.flags),
    {
        build_sizes(&desc.entries, desc.flags)
    }

    /// Makes a fence that has reached nothing.
    pub fn create_fence(&mut self) -> (r: Result<Fence, DeviceError>)
        requires
            old(self)@.wf(),
        ensures
            final(self)@.wf(),
            old(self)@.lost ==> r == Err::<Fence, DeviceError>(DeviceError::Lost)
                && final(self)@ == old(self)@,
            !old(self)@.lost ==> (r matches Ok(fence) && fence@ == (FenceView {
                completed: 0,
                latest: 0,
            }) && fence.spec_handle() == old(self)@.next_handle(old(self)@.fences.len()))
                && final(self)@ == (DeviceView {
                fences: old(self)@.fences.push(Some(ObjectSlot {  })),
                ..old(self)@
            }),
    {
        if self.lost {
            return Err(DeviceError::Lost);
        }
        let index = self.fences.insert(ObjectSlot {  });
        Ok(Fence::new(RawHandle { device: self.id, index }))
    }

    /// Whether the fence is one that this device made and has not destroyed.
    pub fn is_fence_live(&self, fence: &Fence) -> (r: bool)
        ensures
            r == self@.fence_live(fence.spec_handle()),
    {
        let handle = fence.handle();
        handle.device == self.id && self.fences.is_live(handle.index)
    }

    /// Destroys a fence that has no work pending.
    pub fn destroy_fence(&mut self, fence: Fence)
        requires
            old(self)@.wf(),
            old(self)@.fence_live(fence.spec_handle()),
            !fence@.pending(),
        ensures
            final(self)@ == (DeviceView {
                fences: old(self)@.fences.update(fence.spec_handle().index as int, None),
                ..old(self)@
            }),
            final(self)@.wf(),
    {
        let _ = self.fences.remove(fence.handle().index);
    }

    /// The highest value that the fence has reached.
    pub fn get_fence_value(&self, fence: &Fence) -> (r: Result<FenceValue, DeviceError>)
        ensures
            r == fence_value_outcome(self@.lost, fence@),
    {
        if self.lost {
            Err(DeviceError::Lost)
        } else {
            Ok(fence.value())
        }
    }

    /// Waits until the fence reaches the value, for `timeout_ms`
    /// milliseconds at most, and says whether it did. Where the fence has
    /// reached the value already, the answer is `Ok(true)` at once. Where it
    /// has not, the wait times out, since nothing completes while a call is
    /// in progress; whoever waits for real calls again after
    /// [`Queue::complete`].
    pub fn wait(&self, fence: &Fence, value: FenceValue, timeout_ms: u32) -> (r: Result<
        bool,
        DeviceError,
    >)
        ensures
            r == wait_outcome(self@.lost, fence@, value, timeout_ms),
    {
        if fence.value() >= value {
            Ok(true)
        } else if self.lost {
            Err(DeviceError::Lost)
        } else {
            Ok(false)
        }
    }

    /// Makes a command encoder for the queue of this device. The encoder is
    /// closed.
    pub fn create_command_encoder(&mut self, desc: &CommandEncoderDescriptor) -> (r: Result<
        CommandEncoder,
        DeviceError,
    >)
        requires
            old(self)@.wf(),
            desc.queue@.device == old(self)@.id,
        ensures
            final(self)@.wf(),
            old(self)@.lost ==> r == Err::<CommandEncoder, DeviceError>(DeviceError::Lost)
                && final(self)@ == old(self)@,
            !old(self)@.lost ==> (r matches Ok(encoder) && encoder@ == EncoderView::fresh()
                && encoder.spec_handle() == old(self)@.next_handle(
                old(self)@.command_encoders.len(),
            )) && final(self)@ == (DeviceView {
                command_encoders: old(self)@.command_encoders.push(Some(ObjectSlot {  })),
                ..old(self)@
            }),
    {
        if self.lost {
            return Err(DeviceError::Lost);
        }
        let index = self.command_encoders.insert(ObjectSlot {  });
        Ok(CommandEncoder::new(RawHandle { device: self.id, index }))
    }

    /// Whether the encoder is one that this device made and has not
    /// destroyed.
    pub fn is_command_encoder_live(&self, encoder: &CommandEncoder) -> (r: bool)
        ensures
            r == self@.command_encoder_live(encoder.spec_handle()),
    {
        let handle = encoder.handle();
        handle.device == self.id && self.command_encoders.is_live(handle.index)
    }

    /// Destroys a command encoder. It has taken back every command buffer
    /// that it handed out: none outlives its encoder.
    pub fn destroy_command_encoder(&mut self, encoder: CommandEncoder)
        requires
            old(self)@.wf(),
            old(self)@.command_encoder_live(encoder.spec_handle()),
            encoder@.live == 0,
        ensures
            final(self)@ == (DeviceView {
                command_encoders: old(self)@.command_encoders.update(
                    encoder.spec_handle().index as int,
                    None,
                ),
                ..old(self)@
            }),
            final(self)@.wf(),
    {
        let _ = self.command_encoders.remove(encoder.handle().index);
    }
}

fn entry_points_hold(
    entry_points: &Vec<crate::descriptor::EntryPoint>,
    stage: ShaderStage,
    name: &str,
) -> (r: bool)
    ensures
        r == exists|i: int|
            0 <= i < entry_points@.len() && (#[trigger] entry_points@[i]).stage == stage
                && entry_points@[i].name@ == name@,
{
    let wanted = name.to_owned();
    let mut i: usize = 0;
    while i < entry_points.len()
        invariant
            i <= entry_points@.len(),
            wanted@ == name@,
            forall|k: int|
                0 <= k < i ==> !((#[trigger] entry_points@[k]).stage == stage
                    && entry_points@[k].name@ == name@),
        decreases entry_points@.len() - i,
    {
        if entry_points[i].stage == stage && entry_points[i].name == wanted {
            assert(entry_points@[i as int].stage == stage && entry_points@[i as int].name@
                == name@);
            return true;
        }
        i += 1;
    }
    false
}

/// A new slot adds the bytes of what it holds.
pub proof fn lemma_total_bytes_push<T>(
    slots: Seq<Option<T>>,
    slot: Option<T>,
    size: spec_fn(T) -> u64,
)
    ensures
        total_bytes(slots.push(slot), size) == total_bytes(slots, size) + slot_bytes(slot, size),
{
    assert(slots.push(slot).drop_last() == slots);
}

/// Putting something else into a slot takes away the bytes of what the slot
/// held and adds those of what it holds now. No slot holds more bytes than
/// all of them together.
pub proof fn lemma_total_bytes_update<T>(
    slots: Seq<Option<T>>,
    index: int,
    slot: Option<T>,
    size: spec_fn(T) -> u64,
)
    requires
        0 <= index < slots.len(),
    ensures
        slot_bytes(slots[index], size) <= total_bytes(slots, size),
        total_bytes(slots.update(index, slot), size) == total_bytes(slots, size) - slot_bytes(
            slots[index],
            size,
        ) + slot_bytes(slot, size),
    decreases slots.len(),
{
    if index == slots.len() - 1 {
        assert(slots.update(index, slot).drop_last() == slots.drop_last());
    } else {
        lemma_total_bytes_update(slots.drop_last(), index, slot, size);
        assert(slots.update(index, slot).drop_last() == slots.drop_last().update(index, slot));
    }
}

/// A handle that has lost its resource never names another: the slot stays
/// empty whatever is made or destroyed afterwards, so using the handle again
/// can be told from using a live one.
pub proof fn lemma_destroyed_stays_destroyed<T>(
    id: DeviceId,
    slots: Seq<Option<T>>,
    raw: RawHandle,
    made: Option<T>,
    other: int,
)
    requires
        slot_live(id, slots, raw),
        0 <= other < slots.len(),
    ensures
        !slot_live(id, slots.update(raw.index as int, None), raw),
        !slot_live(id, slots.update(raw.index as int, None).push(made), raw),
        !slot_live(id, slots.update(raw.index as int, None).update(other, None), raw),
        slots.len() <= usize::MAX ==> slot_live(
            id,
            slots.push(made),
            RawHandle { device: id, index: slots.len() as usize },
        ) == made is Some,
{
}

/// A device that has just been opened is sound and holds nothing, and a lost
/// device stays sound.
pub proof fn lemma_fresh_device(
    id: DeviceId,
    limits: Limits,
    features: Features,
    memory_budget: u64,
)
    ensures
        Device::fresh(id, limits, features, memory_budget).wf(),
        Device::fresh(id, limits, features, memory_budget).vacant(),
        (DeviceView { lost: true, ..Device::fresh(id, limits, features, memory_budget) }).wf(),
{
}

} // verus!
