//! What an adapter can do: features, limits and alignments.

use vstd::prelude::*;

verus! {

/// What an adapter can do beyond the baseline, and what a device is opened
/// with.
#[derive(Clone, Copy, Debug, PartialEq, Eq, Hash, Structural)]
pub struct Features {
    pub bits: u64,
}

impl View for Features {
    type V = u64;

    open spec fn view(&self) -> u64 {
        self.bits
    }
}

impl Features {
    /// Depth clipping can be switched off.
    pub const DEPTH_CLIP_CONTROL: u64 = 0x0000000000000001;
    /// The format `Depth32FloatStencil8`.
    pub const DEPTH32FLOAT_STENCIL8: u64 = 0x0000000000000002;
    /// The BC compressed formats.
    pub const TEXTURE_COMPRESSION_BC: u64 = 0x0000000000000004;
    /// The ETC2 and EAC compressed formats.
    pub const TEXTURE_COMPRESSION_ETC2: u64 = 0x0000000000000008;
    /// The ASTC compressed formats.
    pub const TEXTURE_COMPRESSION_ASTC: u64 = 0x0000000000000010;
    /// Timestamp queries.
    pub const TIMESTAMP_QUERY: u64 = 0x0000000000000020;
    /// Indirect draws that start at an instance other than the first.
    pub const INDIRECT_FIRST_INSTANCE: u64 = 0x0000000000000040;
    /// 16-bit floating-point numbers in shaders.
    pub const SHADER_F16: u64 = 0x0000000000000080;
    /// Push constants.
    pub const PUSH_CONSTANTS: u64 = 0x0000000000000100;
    /// Render passes that draw to several array layers at once.
    pub const MULTIVIEW: u64 = 0x0000000000000200;
    /// Indirect draws with a draw count above one.
    pub const MULTI_DRAW_INDIRECT: u64 = 0x0000000000000400;
    /// Indirect draws whose count is read from a buffer.
    pub const MULTI_DRAW_INDIRECT_COUNT: u64 = 0x0000000000000800;
    /// The 16-bit normalized formats.
    pub const TEXTURE_FORMAT_16BIT_NORM: u64 = 0x0000000000001000;
    /// The planar format `NV12`.
    pub const TEXTURE_FORMAT_NV12: u64 = 0x0000000000002000;
    /// Acceleration structures.
    pub const RAY_TRACING_ACCELERATION_STRUCTURE: u64 = 0x0000000000004000;
    /// Ray queries in shaders.
    pub const RAY_QUERY: u64 = 0x0000000000008000;
    /// Every bit that names a feature.
    pub const ALL: u64 = 0x000000000000ffff;

    /// The set that holds nothing.
    pub fn empty() -> (r: Self)
        ensures
            r@ == 0,
    {
        Features { bits: 0 }
    }

    /// The set that holds every named flag.
    pub fn all() -> (r: Self)
        ensures
            r@ == Self::ALL,
    {
        Features { bits: Self::ALL }
    }

    /// The raw bits of the set.
    pub fn bits(&self) -> (r: u64)
        ensures
            r == self@,
    {
        self.bits
    }

    /// The set with exactly these bits, if every one of them names a flag.
    pub fn from_bits(bits: u64) -> (r: Option<Self>)
        ensures
            bits & !Self::ALL == 0 ==> (r matches Some(s) && s@ == bits),
            bits & !Self::ALL != 0 ==> r is None,
    {
        if bits & !Self::ALL == 0 {
            Some(Features { bits })
        } else {
            None
        }
    }

    /// The set with these bits, without those that name no flag.
    pub fn from_bits_truncate(bits: u64) -> (r: Self)
        ensures
            r@ == bits & Self::ALL,
    {
        Features { bits: bits & Self::ALL }
    }

    /// The set with exactly these bits, named or not.
    pub fn from_bits_retain(bits: u64) -> (r: Self)
        ensures
            r@ == bits,
    {
        Features { bits }
    }

    pub open spec fn spec_is_empty(&self) -> bool {
        self@ == 0
    }

    /// Whether the set holds nothing.
    #[verifier::when_used_as_spec(spec_is_empty)]
    pub fn is_empty(&self) -> (r: bool)
        ensures
            r == (self@ == 0),
    {
        self.bits == 0
    }

    pub open spec fn spec_intersects(&self, other: Self) -> bool {
        self@ & other@ != 0
    }

    /// Whether the two sets share a flag.
    #[verifier::when_used_as_spec(spec_intersects)]
    pub fn intersects(&self, other: Self) -> (r: bool)
        ensures
            r == (self@ & other@ != 0),
    {
        self.bits & other.bits != 0
    }

    pub open spec fn spec_contains(&self, other: Self) -> bool {
        self@ & other@ == other@
    }

    /// Whether every flag of `other` is in this set.
    #[verifier::when_used_as_spec(spec_contains)]
    pub fn contains(&self, other: Self) -> (r: bool)
        ensures
            r == (self@ & other@ == other@),
    {
        self.bits & other.bits == other.bits
    }

    /// The flags that are in either set.
    pub fn union(self, other: Self) -> (r: Self)
        ensures
            r@ == self@ | other@,
    {
        Features { bits: self.bits | other.bits }
    }

    /// The flags that are in both sets.
    pub fn intersection(self, other: Self) -> (r: Self)
        ensures
            r@ == self@ & other@,
    {
        Features { bits: self.bits & other.bits }
    }

    /// The flags of this set that are not in `other`.
    pub fn difference(self, other: Self) -> (r: Self)
        ensures
            r@ == self@ & !other@,
    {
        Features { bits: self.bits & !other.bits }
    }
}

/// The limits of an adapter, and those that a device is opened with. A limit
/// whose name starts with `max` is an upper bound: a lower value is stricter.
/// One whose name starts with `min` is an alignment: a higher value is
/// stricter.
#[derive(Clone, Copy, Debug, PartialEq, Eq, Hash, Structural)]
pub struct Limits {
    pub max_texture_dimension_1d: u32,
    pub max_texture_dimension_2d: u32,
    pub max_texture_dimension_3d: u32,
    pub max_texture_array_layers: u32,
    pub max_bind_groups: u32,
    pub max_bindings_per_bind_group: u32,
    pub max_dynamic_uniform_buffers_per_pipeline_layout: u32,
    pub max_dynamic_storage_buffers_per_pipeline_layout: u32,
    pub max_sampled_textures_per_shader_stage: u32,
    pub max_samplers_per_shader_stage: u32,
    pub max_storage_buffers_per_shader_stage: u32,
    pub max_storage_textures_per_shader_stage: u32,
    pub max_uniform_buffers_per_shader_stage: u32,
    pub max_uniform_buffer_binding_size: u32,
    pub max_storage_buffer_binding_size: u32,
    pub max_vertex_buffers: u32,
    pub max_buffer_size: u64,
    pub max_vertex_attributes: u32,
    pub max_vertex_buffer_array_stride: u32,
    pub min_uniform_buffer_offset_alignment: u32,
    pub min_storage_buffer_offset_alignment: u32,
    pub max_inter_stage_shader_components: u32,
    pub max_compute_workgroup_storage_size: u32,
    pub max_compute_invocations_per_workgroup: u32,
    pub max_compute_workgroup_size_x: u32,
    pub max_compute_workgroup_size_y: u32,
    pub max_compute_workgroup_size_z: u32,
    pub max_compute_workgroups_per_dimension: u32,
    pub max_push_constant_size: u32,
    pub max_non_sampler_bindings: u32,
}

impl Limits {
    /// The limits that every adapter is expected to offer.
    pub open spec fn baseline() -> Limits {
        Limits {
            max_texture_dimension_1d: 8192,
            max_texture_dimension_2d: 8192,
            max_texture_dimension_3d: 2048,
            max_texture_array_layers: 256,
            max_bind_groups: 4,
            max_bindings_per_bind_group: 1000,
            max_dynamic_uniform_buffers_per_pipeline_layout: 8,
            max_dynamic_storage_buffers_per_pipeline_layout: 4,
            max_sampled_textures_per_shader_stage: 16,
            max_samplers_per_shader_stage: 16,
            max_storage_buffers_per_shader_stage: 8,
            max_storage_textures_per_shader_stage: 4,
            max_uniform_buffers_per_shader_stage: 12,
            max_uniform_buffer_binding_size: 65536,
            max_storage_buffer_binding_size: 134217728,
            max_vertex_buffers: 8,
            max_buffer_size: 268435456,
            max_vertex_attributes: 16,
            max_vertex_buffer_array_stride: 2048,
            min_uniform_buffer_offset_alignment: 256,
            min_storage_buffer_offset_alignment: 256,
            max_inter_stage_shader_components: 60,
            max_compute_workgroup_storage_size: 16384,
            max_compute_invocations_per_workgroup: 256,
            max_compute_workgroup_size_x: 256,
            max_compute_workgroup_size_y: 256,
            max_compute_workgroup_size_z: 64,
            max_compute_workgroups_per_dimension: 65535,
            max_push_constant_size: 0,
            max_non_sampler_bindings: 1000000,
        }
    }

    /// Whether an adapter with the `allowed` limits can serve these: no
    /// upper bound lies above the allowed one, no alignment below it.
    pub open spec fn within(&self, allowed: &Limits) -> bool {
        &&& self.max_texture_dimension_1d <= allowed.max_texture_dimension_1d
        &&& self.max_texture_dimension_2d <= allowed.max_texture_dimension_2d
        &&& self.max_texture_dimension_3d <= allowed.max_texture_dimension_3d
        &&& self.max_texture_array_layers <= allowed.max_texture_array_layers
        &&& self.max_bind_groups <= allowed.max_bind_groups
        &&& self.max_bindings_per_bind_group <= allowed.max_bindings_per_bind_group
        &&& self.max_dynamic_uniform_buffers_per_pipeline_layout
            <= allowed.max_dynamic_uniform_buffers_per_pipeline_layout
        &&& self.max_dynamic_storage_buffers_per_pipeline_layout
            <= allowed.max_dynamic_storage_buffers_per_pipeline_layout
        &&& self.max_sampled_textures_per_shader_stage
            <= allowed.max_sampled_textures_per_shader_stage
        &&& self.max_samplers_per_shader_stage <= allowed.max_samplers_per_shader_stage
        &&& self.max_storage_buffers_per_shader_stage
            <= allowed.max_storage_buffers_per_shader_stage
        &&& self.max_storage_textures_per_shader_stage
            <= allowed.max_storage_textures_per_shader_stage
        &&& self.max_uniform_buffers_per_shader_stage
            <= allowed.max_uniform_buffers_per_shader_stage
        &&& self.max_uniform_buffer_binding_size <= allowed.max_uniform_buffer_binding_size
        &&& self.max_storage_buffer_binding_size <= allowed.max_storage_buffer_binding_size
        &&& self.max_vertex_buffers <= allowed.max_vertex_buffers
        &&& self.max_buffer_size <= allowed.max_buffer_size
        &&& self.max_vertex_attributes <= allowed.max_vertex_attributes
        &&& self.max_vertex_buffer_array_stride <= allowed.max_vertex_buffer_array_stride
        &&& self.min_uniform_buffer_offset_alignment >= allowed.min_uniform_buffer_offset_alignment
        &&& self.min_storage_buffer_offset_alignment >= allowed.min_storage_buffer_offset_alignment
        &&& self.max_inter_stage_shader_components <= allowed.max_inter_stage_shader_components
        &&& self.max_compute_workgroup_storage_size <= allowed.max_compute_workgroup_storage_size
        &&& self.max_compute_invocations_per_workgroup
            <= allowed.max_compute_invocations_per_workgroup
        &&& self.max_compute_workgroup_size_x <= allowed.max_compute_workgroup_size_x
        &&& self.max_compute_workgroup_size_y <= allowed.max_compute_workgroup_size_y
        &&& self.max_compute_workgroup_size_z <= allowed.max_compute_workgroup_size_z
        &&& self.max_compute_workgroups_per_dimension
            <= allowed.max_compute_workgroups_per_dimension
        &&& self.max_push_constant_size <= allowed.max_push_constant_size
        &&& self.max_non_sampler_bindings <= allowed.max_non_sampler_bindings
    }

    /// Whether an adapter with the `allowed` limits can serve these.
    pub fn check_limits(&self, allowed: &Limits) -> (r: bool)
        ensures
            r == self.within(allowed),
    {
        self.max_texture_dimension_1d <= allowed.max_texture_dimension_1d
            && self.max_texture_dimension_2d <= allowed.max_texture_dimension_2d
            && self.max_texture_dimension_3d <= allowed.max_texture_dimension_3d
            && self.max_texture_array_layers <= allowed.max_texture_array_layers
            && self.max_bind_groups <= allowed.max_bind_groups
            && self.max_bindings_per_bind_group <= allowed.max_bindings_per_bind_group
            && self.max_dynamic_uniform_buffers_per_pipeline_layout
                <= allowed.max_dynamic_uniform_buffers_per_pipeline_layout
            && self.max_dynamic_storage_buffers_per_pipeline_layout
                <= allowed.max_dynamic_storage_buffers_per_pipeline_layout
            && self.max_sampled_textures_per_shader_stage
                <= allowed.max_sampled_textures_per_shader_stage
            && self.max_samplers_per_shader_stage <= allowed.max_samplers_per_shader_stage
            && self.max_storage_buffers_per_shader_stage
                <= allowed.max_storage_buffers_per_shader_stage
            && self.max_storage_textures_per_shader_stage
                <= allowed.max_storage_textures_per_shader_stage
            && self.max_uniform_buffers_per_shader_stage
                <= allowed.max_uniform_buffers_per_shader_stage
            && self.max_uniform_buffer_binding_size <= allowed.max_uniform_buffer_binding_size
            && self.max_storage_buffer_binding_size <= allowed.max_storage_buffer_binding_size
            && self.max_vertex_buffers <= allowed.max_vertex_buffers
            && self.max_buffer_size <= allowed.max_buffer_size
            && self.max_vertex_attributes <= allowed.max_vertex_attributes
            && self.max_vertex_buffer_array_stride <= allowed.max_vertex_buffer_array_stride
            && self.min_uniform_buffer_offset_alignment
                >= allowed.min_uniform_buffer_offset_alignment
            && self.min_storage_buffer_offset_alignment
                >= allowed.min_storage_buffer_offset_alignment
            && self.max_inter_stage_shader_components <= allowed.max_inter_stage_shader_components
            && self.max_compute_workgroup_storage_size <= allowed.max_compute_workgroup_storage_size
            && self.max_compute_invocations_per_workgroup
                <= allowed.max_compute_invocations_per_workgroup
            && self.max_compute_workgroup_size_x <= allowed.max_compute_workgroup_size_x
            && self.max_compute_workgroup_size_y <= allowed.max_compute_workgroup_size_y
            && self.max_compute_workgroup_size_z <= allowed.max_compute_workgroup_size_z
            && self.max_compute_workgroups_per_dimension
                <= allowed.max_compute_workgroups_per_dimension
            && self.max_push_constant_size <= allowed.max_push_constant_size
            && self.max_non_sampler_bindings <= allowed.max_non_sampler_bindings
    }
}

impl Default for Limits {
    /// The limits that every adapter is expected to offer.
    fn default() -> (r: Limits)
        ensures
            r == Limits::baseline(),
    {
        Limits {
            max_texture_dimension_1d: 8192,
            max_texture_dimension_2d: 8192,
            max_texture_dimension_3d: 2048,
            max_texture_array_layers: 256,
            max_bind_groups: 4,
            max_bindings_per_bind_group: 1000,
            max_dynamic_uniform_buffers_per_pipeline_layout: 8,
            max_dynamic_storage_buffers_per_pipeline_layout: 4,
            max_sampled_textures_per_shader_stage: 16,
            max_samplers_per_shader_stage: 16,
            max_storage_buffers_per_shader_stage: 8,
            max_storage_textures_per_shader_stage: 4,
            max_uniform_buffers_per_shader_stage: 12,
            max_uniform_buffer_binding_size: 65536,
            max_storage_buffer_binding_size: 134217728,
            max_vertex_buffers: 8,
            max_buffer_size: 268435456,
            max_vertex_attributes: 16,
            max_vertex_buffer_array_stride: 2048,
            min_uniform_buffer_offset_alignment: 256,
            min_storage_buffer_offset_alignment: 256,
            max_inter_stage_shader_components: 60,
            max_compute_workgroup_storage_size: 16384,
            max_compute_invocations_per_workgroup: 256,
            max_compute_workgroup_size_x: 256,
            max_compute_workgroup_size_y: 256,
            max_compute_workgroup_size_z: 64,
            max_compute_workgroups_per_dimension: 65535,
            max_push_constant_size: 0,
            max_non_sampler_bindings: 1000000,
        }
    }
}

/// The alignments that copies between buffers and textures have to keep, in
/// bytes. Neither is zero.
#[derive(Clone, Copy, Debug, PartialEq, Eq, Hash, Structural)]
pub struct Alignments {
    /// The alignment of the offset at which a copy starts in a buffer.
    pub buffer_copy_offset: u64,
    /// The alignment of the bytes of one row of texels in a buffer.
    pub buffer_copy_pitch: u64,
}

/// What an adapter can do. It is found once, when the adapters are listed,
/// and never changes afterwards.
#[derive(Clone, Copy, Debug, PartialEq, Eq, Hash, Structural)]
pub struct Capabilities {
    pub limits: Limits,
    pub alignments: Alignments,
}

/// The kind of device that an adapter stands for.
#[derive(Clone, Copy, Debug, PartialEq, Eq, Hash, Structural)]
pub enum DeviceType {
    Other,
    IntegratedGpu,
    DiscreteGpu,
    VirtualGpu,
    Cpu,
}

/// The baseline limits leave room in the bind group slots of an encoder, and
/// every set of limits is within itself.
pub proof fn lemma_baseline_limits(limits: Limits)
    ensures
        Limits::baseline().max_bind_groups <= crate::types::MAX_BIND_GROUPS,
        Limits::baseline().max_vertex_buffers <= crate::types::MAX_VERTEX_BUFFERS,
        limits.within(&limits),
{
}

/// Being within is transitive: limits within limits that an adapter can serve
/// can be served too.
pub proof fn lemma_within_transitive(a: Limits, b: Limits, c: Limits)
    requires
        a.within(&b),
        b.within(&c),
    ensures
        a.within(&c),
{
}

} // verus!
