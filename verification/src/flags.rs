//! The smaller flag sets of the descriptors and of the capability queries.
//!
//! Each is a set of flags in the low bits of an integer. The associated
//! constants are the raw masks; `from_bits` and its siblings make a typed set
//! out of them.

use vstd::prelude::*;

verus! {

/// What a pipeline layout has to support beyond its bind groups.
#[derive(Clone, Copy, Debug, PartialEq, Eq, Hash, Structural)]
pub struct PipelineLayoutFlags {
    pub bits: u32,
}

impl View for PipelineLayoutFlags {
    type V = u32;

    open spec fn view(&self) -> u32 {
        self.bits
    }
}

impl PipelineLayoutFlags {
    /// Draws that start at a vertex or an instance other than the first.
    pub const FIRST_VERTEX_INSTANCE: u32 = 0x00000001;
    /// The builtin that holds the number of work groups.
    pub const NUM_WORK_GROUPS: u32 = 0x00000002;
    /// Every bit that names a flag.
    pub const ALL: u32 = 0x00000003;

    /// The set that holds nothing.
    pub fn empty() -> (r: Self)
        ensures
            r@ == 0,
    {
        PipelineLayoutFlags { bits: 0 }
    }

    /// The set that holds every named flag.
    pub fn all() -> (r: Self)
        ensures
            r@ == Self::ALL,
    {
        PipelineLayoutFlags { bits: Self::ALL }
    }

    /// The raw bits of the set.
    pub fn bits(&self) -> (r: u32)
        ensures
            r == self@,
    {
        self.bits
    }

    /// The set with exactly these bits, if every one of them names a flag.
    pub fn from_bits(bits: u32) -> (r: Option<Self>)
        ensures
            bits & !Self::ALL == 0 ==> (r matches Some(s) && s@ == bits),
            bits & !Self::ALL != 0 ==> r is None,
    {
        if bits & !Self::ALL == 0 {
            Some(PipelineLayoutFlags { bits })
        } else {
            None
        }
    }

    /// The set with these bits, without those that name no flag.
    pub fn from_bits_truncate(bits: u32) -> (r: Self)
        ensures
            r@ == bits & Self::ALL,
    {
        PipelineLayoutFlags { bits: bits & Self::ALL }
    }

    /// The set with exactly these bits, named or not.
    pub fn from_bits_retain(bits: u32) -> (r: Self)
        ensures
            r@ == bits,
    {
        PipelineLayoutFlags { bits }
    }

    pub open spec fn spec_is_empty(&self) -> bool {
        self@ == 0
    }

    /// Whether the set holds nothing.
    #[verifier::when_used_as_spec(spec_is_empty)]
    pub fn is_empty(&self) -> (r: bool)
        ensures
            r == (self@ == 0),
    {
        self.bits == 0
    }

    pub open spec fn spec_intersects(&self, other: Self) -> bool {
        self@ & other@ != 0
    }

    /// Whether the two sets share a flag.
    #[verifier::when_used_as_spec(spec_intersects)]
    pub fn intersects(&self, other: Self) -> (r: bool)
        ensures
            r == (self@ & other@ != 0),
    {
        self.bits & other.bits != 0
    }

    pub open spec fn spec_contains(&self, other: Self) -> bool {
        self@ & other@ == other@
    }

    /// Whether every flag of `other` is in this set.
    #[verifier::when_used_as_spec(spec_contains)]
    pub fn contains(&self, other: Self) -> (r: bool)
        ensures
            r == (self@ & other@ == other@),
    {
        self.bits & other.bits == other.bits
    }

    /// The flags that are in either set.
    pub fn union(self, other: Self) -> (r: Self)
        ensures
            r@ == self@ | other@,
    {
        PipelineLayoutFlags { bits: self.bits | other.bits }
    }

    /// The flags that are in both sets.
    pub fn intersection(self, other: Self) -> (r: Self)
        ensures
            r@ == self@ & other@,
    {
        PipelineLayoutFlags { bits: self.bits & other.bits }
    }

    /// The flags of this set that are not in `other`.
    pub fn difference(self, other: Self) -> (r: Self)
        ensures
            r@ == self@ & !other@,
    {
        PipelineLayoutFlags { bits: self.bits & !other.bits }
    }
}

/// What a bind group layout allows.
#[derive(Clone, Copy, Debug, PartialEq, Eq, Hash, Structural)]
pub struct BindGroupLayoutFlags {
    pub bits: u32,
}

impl View for BindGroupLayoutFlags {
    type V = u32;

    open spec fn view(&self) -> u32 {
        self.bits
    }
}

impl BindGroupLayoutFlags {
    /// A binding array of a bind group may be shorter than the layout says.
    pub const PARTIALLY_BOUND: u32 = 0x00000001;
    /// Every bit that names a flag.
    pub const ALL: u32 = 0x00000001;

    /// The set that holds nothing.
    pub fn empty() -> (r: Self)
        ensures
            r@ == 0,
    {
        BindGroupLayoutFlags { bits: 0 }
    }

    /// The set that holds every named flag.
    pub fn all() -> (r: Self)
        ensures
            r@ == Self::ALL,
    {
        BindGroupLayoutFlags { bits: Self::ALL }
    }

    /// The raw bits of the set.
    pub fn bits(&self) -> (r: u32)
        ensures
            r == self@,
    {
        self.bits
    }

    /// The set with exactly these bits, if every one of them names a flag.
    pub fn from_bits(bits: u32) -> (r: Option<Self>)
        ensures
            bits & !Self::ALL == 0 ==> (r matches Some(s) && s@ == bits),
            bits & !Self::ALL != 0 ==> r is None,
    {
        if bits & !Self::ALL == 0 {
            Some(BindGroupLayoutFlags { bits })
        } else {
            None
        }
    }

    /// The set with these bits, without those that name no flag.
    pub fn from_bits_truncate(bits: u32) -> (r: Self)
        ensures
            r@ == bits & Self::ALL,
    {
        BindGroupLayoutFlags { bits: bits & Self::ALL }
    }

    /// The set with exactly these bits, named or not.
    pub fn from_bits_retain(bits: u32) -> (r: Self)
        ensures
            r@ == bits,
    {
        BindGroupLayoutFlags { bits }
    }

    pub open spec fn spec_is_empty(&self) -> bool {
        self@ == 0
    }

    /// Whether the set holds nothing.
    #[verifier::when_used_as_spec(spec_is_empty)]
    pub fn is_empty(&self) -> (r: bool)
        ensures
            r == (self@ == 0),
    {
        self.bits == 0
    }

    pub open spec fn spec_intersects(&self, other: Self) -> bool {
        self@ & other@ != 0
    }

    /// Whether the two sets share a flag.
    #[verifier::when_used_as_spec(spec_intersects)]
    pub fn intersects(&self, other: Self) -> (r: bool)
        ensures
            r == (self@ & other@ != 0),
    {
        self.bits & other.bits != 0
    }

    pub open spec fn spec_contains(&self, other: Self) -> bool {
        self@ & other@ == other@
    }

    /// Whether every flag of `other` is in this set.
    #[verifier::when_used_as_spec(spec_contains)]
    pub fn contains(&self, other: Self) -> (r: bool)
        ensures
            r == (self@ & other@ == other@),
    {
        self.bits & other.bits == other.bits
    }

    /// The flags that are in either set.
    pub fn union(self, other: Self) -> (r: Self)
        ensures
            r@ == self@ | other@,
    {
        BindGroupLayoutFlags { bits: self.bits | other.bits }
    }

    /// The flags that are in both sets.
    pub fn intersection(self, other: Self) -> (r: Self)
        ensures
            r@ == self@ & other@,
    {
        BindGroupLayoutFlags { bits: self.bits & other.bits }
    }

    /// The flags of this set that are not in `other`.
    pub fn difference(self, other: Self) -> (r: Self)
        ensures
            r@ == self@ & !other@,
    {
        BindGroupLayoutFlags { bits: self.bits & !other.bits }
    }
}

/// What an adapter can do with the textures of one format.
#[derive(Clone, Copy, Debug, PartialEq, Eq, Hash, Structural)]
pub struct TextureFormatCapabilities {
    pub bits: u32,
}

impl View for TextureFormatCapabilities {
    type V = u32;

    open spec fn view(&self) -> u32 {
        self.bits
    }
}

impl TextureFormatCapabilities {
    /// The format can be sampled.
    pub const SAMPLED: u32 = 0x00000001;
    /// The format can be sampled with a linear sampler.
    pub const SAMPLED_LINEAR: u32 = 0x00000002;
    /// The format can be sampled with a min/max reduction sampler.
    pub const SAMPLED_MINMAX: u32 = 0x00000004;
    /// The format can be used as storage with write-only access.
    pub const STORAGE: u32 = 0x00000008;
    /// The format can be used as storage with read and read-write access.
    pub const STORAGE_READ_WRITE: u32 = 0x00000010;
    /// The format can be used as storage with atomics.
    pub const STORAGE_ATOMIC: u32 = 0x00000020;
    /// The format can be used as color and input attachment.
    pub const COLOR_ATTACHMENT: u32 = 0x00000040;
    /// The format can be used as color attachment with blending, and as input
    /// attachment.
    pub const COLOR_ATTACHMENT_BLEND: u32 = 0x00000080;
    /// The format can be used as depth-stencil and input attachment.
    pub const DEPTH_STENCIL_ATTACHMENT: u32 = 0x00000100;
    /// The format can be multisampled by 2.
    pub const MULTISAMPLE_X2: u32 = 0x00000200;
    /// The format can be multisampled by 4.
    pub const MULTISAMPLE_X4: u32 = 0x00000400;
    /// The format can be multisampled by 8.
    pub const MULTISAMPLE_X8: u32 = 0x00000800;
    /// The format can be multisampled by 16.
    pub const MULTISAMPLE_X16: u32 = 0x00001000;
    /// The format can be the resolve target of a render pass.
    pub const MULTISAMPLE_RESOLVE: u32 = 0x00002000;
    /// The format can be copied from.
    pub const COPY_SRC: u32 = 0x00004000;
    /// The format can be copied to.
    pub const COPY_DST: u32 = 0x00008000;
    /// Every bit that names a capability.
    pub const ALL: u32 = 0x0000ffff;

    /// The set that holds nothing.
    pub fn empty() -> (r: Self)
        ensures
            r@ == 0,
    {
        TextureFormatCapabilities { bits: 0 }
    }

    /// The set that holds every named flag.
    pub fn all() -> (r: Self)
        ensures
            r@ == Self::ALL,
    {
        TextureFormatCapabilities { bits: Self::ALL }
    }

    /// The raw bits of the set.
    pub fn bits(&self) -> (r: u32)
        ensures
            r == self@,
    {
        self.bits
    }

    /// The set with exactly these bits, if every one of them names a flag.
    pub fn from_bits(bits: u32) -> (r: Option<Self>)
        ensures
            bits & !Self::ALL == 0 ==> (r matches Some(s) && s@ == bits),
            bits & !Self::ALL != 0 ==> r is None,
    {
        if bits & !Self::ALL == 0 {
            Some(TextureFormatCapabilities { bits })
        } else {
            None
        }
    }

    /// The set with these bits, without those that name no flag.
    pub fn from_bits_truncate(bits: u32) -> (r: Self)
        ensures
            r@ == bits & Self::ALL,
    {
        TextureFormatCapabilities { bits: bits & Self::ALL }
    }

    /// The set with exactly these bits, named or not.
    pub fn from_bits_retain(bits: u32) -> (r: Self)
        ensures
            r@ == bits,
    {
        TextureFormatCapabilities { bits }
    }

    pub open spec fn spec_is_empty(&self) -> bool {
        self@ == 0
    }

    /// Whether the set holds nothing.
    #[verifier::when_used_as_spec(spec_is_empty)]
    pub fn is_empty(&self) -> (r: bool)
        ensures
            r == (self@ == 0),
    {
        self.bits == 0
    }

    pub open spec fn spec_intersects(&self, other: Self) -> bool {
        self@ & other@ != 0
    }

    /// Whether the two sets share a flag.
    #[verifier::when_used_as_spec(spec_intersects)]
    pub fn intersects(&self, other: Self) -> (r: bool)
        ensures
            r == (self@ & other@ != 0),
    {
        self.bits & other.bits != 0
    }

    pub open spec fn spec_contains(&self, other: Self) -> bool {
        self@ & other@ == other@
    }

    /// Whether every flag of `other` is in this set.
    #[verifier::when_used_as_spec(spec_contains)]
    pub fn contains(&self, other: Self) -> (r: bool)
        ensures
            r == (self@ & other@ == other@),
    {
        self.bits & other.bits == other.bits
    }

    /// The flags that are in either set.
    pub fn union(self, other: Self) -> (r: Self)
        ensures
            r@ == self@ | other@,
    {
        TextureFormatCapabilities { bits: self.bits | other.bits }
    }

    /// The flags that are in both sets.
    pub fn intersection(self, other: Self) -> (r: Self)
        ensures
            r@ == self@ & other@,
    {
        TextureFormatCapabilities { bits: self.bits & other.bits }
    }

    /// The flags of this set that are not in `other`.
    pub fn difference(self, other: Self) -> (r: Self)
        ensures
            r@ == self@ & !other@,
    {
        TextureFormatCapabilities { bits: self.bits & !other.bits }
    }
}

/// Where the memory of a resource should come from.
#[derive(Clone, Copy, Debug, PartialEq, Eq, Hash, Structural)]
pub struct MemoryFlags {
    pub bits: u32,
}

impl View for MemoryFlags {
    type V = u32;

    open spec fn view(&self) -> u32 {
        self.bits
    }
}

impl MemoryFlags {
    /// The content need not outlive a render pass.
    pub const TRANSIENT: u32 = 0x00000001;
    /// Memory that needs no flushing between the CPU and the GPU is preferred.
    pub const PREFER_COHERENT: u32 = 0x00000002;
    /// Every bit that names a flag.
    pub const ALL: u32 = 0x00000003;

    /// The set that holds nothing.
    pub fn empty() -> (r: Self)
        ensures
            r@ == 0,
    {
        MemoryFlags { bits: 0 }
    }

    /// The set that holds every named flag.
    pub fn all() -> (r: Self)
        ensures
            r@ == Self::ALL,
    {
        MemoryFlags { bits: Self::ALL }
    }

    /// The raw bits of the set.
    pub fn bits(&self) -> (r: u32)
        ensures
            r == self@,
    {
        self.bits
    }

    /// The set with exactly these bits, if every one of them names a flag.
    pub fn from_bits(bits: u32) -> (r: Option<Self>)
        ensures
            bits & !Self::ALL == 0 ==> (r matches Some(s) && s@ == bits),
            bits & !Self::ALL != 0 ==> r is None,
    {
        if bits & !Self::ALL == 0 {
            Some(MemoryFlags { bits })
        } else {
            None
        }
    }

    /// The set with these bits, without those that name no flag.
    pub fn from_bits_truncate(bits: u32) -> (r: Self)
        ensures
            r@ == bits & Self::ALL,
    {
        MemoryFlags { bits: bits & Self::ALL }
    }

    /// The set with exactly these bits, named or not.
    pub fn from_bits_retain(bits: u32) -> (r: Self)
        ensures
            r@ == bits,
    {
        MemoryFlags { bits }
    }

    pub open spec fn spec_is_empty(&self) -> bool {
        self@ == 0
    }

    /// Whether the set holds nothing.
    #[verifier::when_used_as_spec(spec_is_empty)]
    pub fn is_empty(&self) -> (r: bool)
        ensures
            r == (self@ == 0),
    {
        self.bits == 0
    }

    pub open spec fn spec_intersects(&self, other: Self) -> bool {
        self@ & other@ != 0
    }

    /// Whether the two sets share a flag.
    #[verifier::when_used_as_spec(spec_intersects)]
    pub fn intersects(&self, other: Self) -> (r: bool)
        ensures
            r == (self@ & other@ != 0),
    {
        self.bits & other.bits != 0
    }

    pub open spec fn spec_contains(&self, other: Self) -> bool {
        self@ & other@ == other@
    }

    /// Whether every flag of `other` is in this set.
    #[verifier::when_used_as_spec(spec_contains)]
    pub fn contains(&self, other: Self) -> (r: bool)
        ensures
            r == (self@ & other@ == other@),
    {
        self.bits & other.bits == other.bits
    }

    /// The flags that are in either set.
    pub fn union(self, other: Self) -> (r: Self)
        ensures
            r@ == self@ | other@,
    {
        MemoryFlags { bits: self.bits | other.bits }
    }

    /// The flags that are in both sets.
    pub fn intersection(self, other: Self) -> (r: Self)
        ensures
            r@ == self@ & other@,
    {
        MemoryFlags { bits: self.bits & other.bits }
    }

    /// The flags of this set that are not in `other`.
    pub fn difference(self, other: Self) -> (r: Self)
        ensures
            r@ == self@ & !other@,
    {
        MemoryFlags { bits: self.bits & !other.bits }
    }
}

/// What a render pass does with an attachment at its start and at its end.
#[derive(Clone, Copy, Debug, PartialEq, Eq, Hash, Structural)]
pub struct AttachmentOps {
    pub bits: u8,
}

impl View for AttachmentOps {
    type V = u8;

    open spec fn view(&self) -> u8 {
        self.bits
    }
}

impl AttachmentOps {
    /// The content is kept at the start of the pass; without it, it is cleared.
    pub const LOAD: u8 = 0x01;
    /// The content is written back at the end of the pass.
    pub const STORE: u8 = 0x02;
    /// Every bit that names an operation.
    pub const ALL: u8 = 0x03;

    /// The set that holds nothing.
    pub fn empty() -> (r: Self)
        ensures
            r@ == 0,
    {
        AttachmentOps { bits: 0 }
    }

    /// The set that holds every named flag.
    pub fn all() -> (r: Self)
        ensures
            r@ == Self::ALL,
    {
        AttachmentOps { bits: Self::ALL }
    }

    /// The raw bits of the set.
    pub fn bits(&self) -> (r: u8)
        ensures
            r == self@,
    {
        self.bits
    }

    /// The set with exactly these bits, if every one of them names a flag.
    pub fn from_bits(bits: u8) -> (r: Option<Self>)
        ensures
            bits & !Self::ALL == 0 ==> (r matches Some(s) && s@ == bits),
            bits & !Self::ALL != 0 ==> r is None,
    {
        if bits & !Self::ALL == 0 {
            Some(AttachmentOps { bits })
        } else {
            None
        }
    }

    /// The set with these bits, without those that name no flag.
    pub fn from_bits_truncate(bits: u8) -> (r: Self)
        ensures
            r@ == bits & Self::ALL,
    {
        AttachmentOps { bits: bits & Self::ALL }
    }

    /// The set with exactly these bits, named or not.
    pub fn from_bits_retain(bits: u8) -> (r: Self)
        ensures
            r@ == bits,
    {
        AttachmentOps { bits }
    }

    pub open spec fn spec_is_empty(&self) -> bool {
        self@ == 0
    }

    /// Whether the set holds nothing.
    #[verifier::when_used_as_spec(spec_is_empty)]
    pub fn is_empty(&self) -> (r: bool)
        ensures
            r == (self@ == 0),
    {
        self.bits == 0
    }

    pub open spec fn spec_intersects(&self, other: Self) -> bool {
        self@ & other@ != 0
    }

    /// Whether the two sets share a flag.
    #[verifier::when_used_as_spec(spec_intersects)]
    pub fn intersects(&self, other: Self) -> (r: bool)
        ensures
            r == (self@ & other@ != 0),
    {
        self.bits & other.bits != 0
    }

    pub open spec fn spec_contains(&self, other: Self) -> bool {
        self@ & other@ == other@
    }

    /// Whether every flag of `other` is in this set.
    #[verifier::when_used_as_spec(spec_contains)]
    pub fn contains(&self, other: Self) -> (r: bool)
        ensures
            r == (self@ & other@ == other@),
    {
        self.bits & other.bits == other.bits
    }

    /// The flags that are in either set.
    pub fn union(self, other: Self) -> (r: Self)
        ensures
            r@ == self@ | other@,
    {
        AttachmentOps { bits: self.bits | other.bits }
    }

    /// The flags that are in both sets.
    pub fn intersection(self, other: Self) -> (r: Self)
        ensures
            r@ == self@ & other@,
    {
        AttachmentOps { bits: self.bits & other.bits }
    }

    /// The flags of this set that are not in `other`.
    pub fn difference(self, other: Self) -> (r: Self)
        ensures
            r@ == self@ & !other@,
    {
        AttachmentOps { bits: self.bits & !other.bits }
    }
}

/// A set of pipeline stages.
#[derive(Clone, Copy, Debug, PartialEq, Eq, Hash, Structural)]
pub struct ShaderStages {
    pub bits: u32,
}

impl View for ShaderStages {
    type V = u32;

    open spec fn view(&self) -> u32 {
        self.bits
    }
}

impl ShaderStages {
    /// The vertex stage.
    pub const VERTEX: u32 = 0x00000001;
    /// The fragment stage.
    pub const FRAGMENT: u32 = 0x00000002;
    /// The compute stage.
    pub const COMPUTE: u32 = 0x00000004;
    /// Both stages of a render pipeline.
    pub const VERTEX_FRAGMENT: u32 = 0x00000003;
    /// Every bit that names a stage.
    pub const ALL: u32 = 0x00000007;

    /// The set that holds nothing.
    pub fn empty() -> (r: Self)
        ensures
            r@ == 0,
    {
        ShaderStages { bits: 0 }
    }

    /// The set that holds every named flag.
    pub fn all() -> (r: Self)
        ensures
            r@ == Self::ALL,
    {
        ShaderStages { bits: Self::ALL }
    }

    /// The raw bits of the set.
    pub fn bits(&self) -> (r: u32)
        ensures
            r == self@,
    {
        self.bits
    }

    /// The set with exactly these bits, if every one of them names a flag.
    pub fn from_bits(bits: u32) -> (r: Option<Self>)
        ensures
            bits & !Self::ALL == 0 ==> (r matches Some(s) && s@ == bits),
            bits & !Self::ALL != 0 ==> r is None,
    {
        if bits & !Self::ALL == 0 {
            Some(ShaderStages { bits })
        } else {
            None
        }
    }

    /// The set with these bits, without those that name no flag.
    pub fn from_bits_truncate(bits: u32) -> (r: Self)
        ensures
            r@ == bits & Self::ALL,
    {
        ShaderStages { bits: bits & Self::ALL }
    }

    /// The set with exactly these bits, named or not.
    pub fn from_bits_retain(bits: u32) -> (r: Self)
        ensures
            r@ == bits,
    {
        ShaderStages { bits }
    }

    pub open spec fn spec_is_empty(&self) -> bool {
        self@ == 0
    }

    /// Whether the set holds nothing.
    #[verifier::when_used_as_spec(spec_is_empty)]
    pub fn is_empty(&self) -> (r: bool)
        ensures
            r == (self@ == 0),
    {
        self.bits == 0
    }

    pub open spec fn spec_intersects(&self, other: Self) -> bool {
        self@ & other@ != 0
    }

    /// Whether the two sets share a flag.
    #[verifier::when_used_as_spec(spec_intersects)]
    pub fn intersects(&self, other: Self) -> (r: bool)
        ensures
            r == (self@ & other@ != 0),
    {
        self.bits & other.bits != 0
    }

    pub open spec fn spec_contains(&self, other: Self) -> bool {
        self@ & other@ == other@
    }

    /// Whether every flag of `other` is in this set.
    #[verifier::when_used_as_spec(spec_contains)]
    pub fn contains(&self, other: Self) -> (r: bool)
        ensures
            r == (self@ & other@ == other@),
    {
        self.bits & other.bits == other.bits
    }

    /// The flags that are in either set.
    pub fn union(self, other: Self) -> (r: Self)
        ensures
            r@ == self@ | other@,
    {
        ShaderStages { bits: self.bits | other.bits }
    }

    /// The flags that are in both sets.
    pub fn intersection(self, other: Self) -> (r: Self)
        ensures
            r@ == self@ & other@,
    {
        ShaderStages { bits: self.bits & other.bits }
    }

    /// The flags of this set that are not in `other`.
    pub fn difference(self, other: Self) -> (r: Self)
        ensures
            r@ == self@ & !other@,
    {
        ShaderStages { bits: self.bits & !other.bits }
    }
}

/// What the build of an acceleration structure should favour or allow.
#[derive(Clone, Copy, Debug, PartialEq, Eq, Hash, Structural)]
pub struct AccelerationStructureBuildFlags {
    pub bits: u8,
}

impl View for AccelerationStructureBuildFlags {
    type V = u8;

    open spec fn view(&self) -> u8 {
        self.bits
    }
}

impl AccelerationStructureBuildFlags {
    /// The structure can be updated after it is built.
    pub const ALLOW_UPDATE: u8 = 0x01;
    /// The structure can be compacted after it is built.
    pub const ALLOW_COMPACTION: u8 = 0x02;
    /// Tracing speed matters more than build speed.
    pub const PREFER_FAST_TRACE: u8 = 0x04;
    /// Build speed matters more than tracing speed.
    pub const PREFER_FAST_BUILD: u8 = 0x08;
    /// Memory matters more than either speed.
    pub const LOW_MEMORY: u8 = 0x10;
    /// Every bit that names a flag.
    pub const ALL: u8 = 0x1f;

    /// The set that holds nothing.
    pub fn empty() -> (r: Self)
        ensures
            r@ == 0,
    {
        AccelerationStructureBuildFlags { bits: 0 }
    }

    /// The set that holds every named flag.
    pub fn all() -> (r: Self)
        ensures
            r@ == Self::ALL,
    {
        AccelerationStructureBuildFlags { bits: Self::ALL }
    }

    /// The raw bits of the set.
    pub fn bits(&self) -> (r: u8)
        ensures
            r == self@,
    {
        self.bits
    }

    /// The set with exactly these bits, if every one of them names a flag.
    pub fn from_bits(bits: u8) -> (r: Option<Self>)
        ensures
            bits & !Self::ALL == 0 ==> (r matches Some(s) && s@ == bits),
            bits & !Self::ALL != 0 ==> r is None,
    {
        if bits & !Self::ALL == 0 {
            Some(AccelerationStructureBuildFlags { bits })
        } else {
            None
        }
    }

    /// The set with these bits, without those that name no flag.
    pub fn from_bits_truncate(bits: u8) -> (r: Self)
        ensures
            r@ == bits & Self::ALL,
    {
        AccelerationStructureBuildFlags { bits: bits & Self::ALL }
    }

    /// The set with exactly these bits, named or not.
    pub fn from_bits_retain(bits: u8) -> (r: Self)
        ensures
            r@ == bits,
    {
        AccelerationStructureBuildFlags { bits }
    }

    pub open spec fn spec_is_empty(&self) -> bool {
        self@ == 0
    }

    /// Whether the set holds nothing.
    #[verifier::when_used_as_spec(spec_is_empty)]
    pub fn is_empty(&self) -> (r: bool)
        ensures
            r == (self@ == 0),
    {
        self.bits == 0
    }

    pub open spec fn spec_intersects(&self, other: Self) -> bool {
        self@ & other@ != 0
    }

    /// Whether the two sets share a flag.
    #[verifier::when_used_as_spec(spec_intersects)]
    pub fn intersects(&self, other: Self) -> (r: bool)
        ensures
            r == (self@ & other@ != 0),
    {
        self.bits & other.bits != 0
    }

    pub open spec fn spec_contains(&self, other: Self) -> bool {
        self@ & other@ == other@
    }

    /// Whether every flag of `other` is in this set.
    #[verifier::when_used_as_spec(spec_contains)]
    pub fn contains(&self, other: Self) -> (r: bool)
        ensures
            r == (self@ & other@ == other@),
    {
        self.bits & other.bits == other.bits
    }

    /// The flags that are in either set.
    pub fn union(self, other: Self) -> (r: Self)
        ensures
            r@ == self@ | other@,
    {
        AccelerationStructureBuildFlags { bits: self.bits | other.bits }
    }

    /// The flags that are in both sets.
    pub fn intersection(self, other: Self) -> (r: Self)
        ensures
            r@ == self@ & other@,
    {
        AccelerationStructureBuildFlags { bits: self.bits & other.bits }
    }

    /// The flags of this set that are not in `other`.
    pub fn difference(self, other: Self) -> (r: Self)
        ensures
            r@ == self@ & !other@,
    {
        AccelerationStructureBuildFlags { bits: self.bits & !other.bits }
    }
}

/// How the geometry of an acceleration structure takes part in tracing.
#[derive(Clone, Copy, Debug, PartialEq, Eq, Hash, Structural)]
pub struct AccelerationStructureGeometryFlags {
    pub bits: u8,
}

impl View for AccelerationStructureGeometryFlags {
    type V = u8;

    open spec fn view(&self) -> u8 {
        self.bits
    }
}

impl AccelerationStructureGeometryFlags {
    /// No any-hit shader runs for this geometry.
    pub const OPAQUE: u8 = 0x01;
    /// An any-hit shader runs at most once for each primitive.
    pub const NO_DUPLICATE_ANY_HIT_INVOCATION: u8 = 0x02;
    /// Every bit that names a flag.
    pub const ALL: u8 = 0x03;

    /// The set that holds nothing.
    pub fn empty() -> (r: Self)
        ensures
            r@ == 0,
    {
        AccelerationStructureGeometryFlags { bits: 0 }
    }

    /// The set that holds every named flag.
    pub fn all() -> (r: Self)
        ensures
            r@ == Self::ALL,
    {
        AccelerationStructureGeometryFlags { bits: Self::ALL }
    }

    /// The raw bits of the set.
    pub fn bits(&self) -> (r: u8)
        ensures
            r == self@,
    {
        self.bits
    }

    /// The set with exactly these bits, if every one of them names a flag.
    pub fn from_bits(bits: u8) -> (r: Option<Self>)
        ensures
            bits & !Self::ALL == 0 ==> (r matches Some(s) && s@ == bits),
            bits & !Self::ALL != 0 ==> r is None,
    {
        if bits & !Self::ALL == 0 {
            Some(AccelerationStructureGeometryFlags { bits })
        } else {
            None
        }
    }

    /// The set with these bits, without those that name no flag.
    pub fn from_bits_truncate(bits: u8) -> (r: Self)
        ensures
            r@ == bits & Self::ALL,
    {
        AccelerationStructureGeometryFlags { bits: bits & Self::ALL }
    }

    /// The set with exactly these bits, named or not.
    pub fn from_bits_retain(bits: u8) -> (r: Self)
        ensures
            r@ == bits,
    {
        AccelerationStructureGeometryFlags { bits }
    }

    pub open spec fn spec_is_empty(&self) -> bool {
        self@ == 0
    }

    /// Whether the set holds nothing.
    #[verifier::when_used_as_spec(spec_is_empty)]
    pub fn is_empty(&self) -> (r: bool)
        ensures
            r == (self@ == 0),
    {
        self.bits == 0
    }

    pub open spec fn spec_intersects(&self, other: Self) -> bool {
        self@ & other@ != 0
    }

    /// Whether the two sets share a flag.
    #[verifier::when_used_as_spec(spec_intersects)]
    pub fn intersects(&self, other: Self) -> (r: bool)
        ensures
            r == (self@ & other@ != 0),
    {
        self.bits & other.bits != 0
    }

    pub open spec fn spec_contains(&self, other: Self) -> bool {
        self@ & other@ == other@
    }

    /// Whether every flag of `other` is in this set.
    #[verifier::when_used_as_spec(spec_contains)]
    pub fn contains(&self, other: Self) -> (r: bool)
        ensures
            r == (self@ & other@ == other@),
    {
        self.bits & other.bits == other.bits
    }

    /// The flags that are in either set.
    pub fn union(self, other: Self) -> (r: Self)
        ensures
            r@ == self@ | other@,
    {
        AccelerationStructureGeometryFlags { bits: self.bits | other.bits }
    }

    /// The flags that are in both sets.
    pub fn intersection(self, other: Self) -> (r: Self)
        ensures
            r@ == self@ & other@,
    {
        AccelerationStructureGeometryFlags { bits: self.bits & other.bits }
    }

    /// The flags of this set that are not in `other`.
    pub fn difference(self, other: Self) -> (r: Self)
        ensures
            r@ == self@ & !other@,
    {
        AccelerationStructureGeometryFlags { bits: self.bits & !other.bits }
    }
}

/// What an instance is asked to do for debugging.
#[derive(Clone, Copy, Debug, PartialEq, Eq, Hash, Structural)]
pub struct InstanceFlags {
    pub bits: u32,
}

impl View for InstanceFlags {
    type V = u32;

    open spec fn view(&self) -> u32 {
        self.bits
    }
}

impl InstanceFlags {
    /// Debug information is produced for shaders and objects.
    pub const DEBUG: u32 = 0x00000001;
    /// The validation of the native interface is switched on.
    pub const VALIDATION: u32 = 0x00000002;
    /// Labels are not handed on to the native interface.
    pub const DISCARD_HAL_LABELS: u32 = 0x00000004;
    /// Every bit that names a flag.
    pub const ALL: u32 = 0x00000007;

    /// The set that holds nothing.
    pub fn empty() -> (r: Self)
        ensures
            r@ == 0,
    {
        InstanceFlags { bits: 0 }
    }

    /// The set that holds every named flag.
    pub fn all() -> (r: Self)
        ensures
            r@ == Self::ALL,
    {
        InstanceFlags { bits: Self::ALL }
    }

    /// The raw bits of the set.
    pub fn bits(&self) -> (r: u32)
        ensures
            r == self@,
    {
        self.bits
    }

    /// The set with exactly these bits, if every one of them names a flag.
    pub fn from_bits(bits: u32) -> (r: Option<Self>)
        ensures
            bits & !Self::ALL == 0 ==> (r matches Some(s) && s@ == bits),
            bits & !Self::ALL != 0 ==> r is None,
    {
        if bits & !Self::ALL == 0 {
            Some(InstanceFlags { bits })
        } else {
            None
        }
    }

    /// The set with these bits, without those that name no flag.
    pub fn from_bits_truncate(bits: u32) -> (r: Self)
        ensures
            r@ == bits & Self::ALL,
    {
        InstanceFlags { bits: bits & Self::ALL }
    }

    /// The set with exactly these bits, named or not.
    pub fn from_bits_retain(bits: u32) -> (r: Self)
        ensures
            r@ == bits,
    {
        InstanceFlags { bits }
    }

    pub open spec fn spec_is_empty(&self) -> bool {
        self@ == 0
    }

    /// Whether the set holds nothing.
    #[verifier::when_used_as_spec(spec_is_empty)]
    pub fn is_empty(&self) -> (r: bool)
        ensures
            r == (self@ == 0),
    {
        self.bits == 0
    }

    pub open spec fn spec_intersects(&self, other: Self) -> bool {
        self@ & other@ != 0
    }

    /// Whether the two sets share a flag.
    #[verifier::when_used_as_spec(spec_intersects)]
    pub fn intersects(&self, other: Self) -> (r: bool)
        ensures
            r == (self@ & other@ != 0),
    {
        self.bits & other.bits != 0
    }

    pub open spec fn spec_contains(&self, other: Self) -> bool {
        self@ & other@ == other@
    }

    /// Whether every flag of `other` is in this set.
    #[verifier::when_used_as_spec(spec_contains)]
    pub fn contains(&self, other: Self) -> (r: bool)
        ensures
            r == (self@ & other@ == other@),
    {
        self.bits & other.bits == other.bits
    }

    /// The flags that are in either set.
    pub fn union(self, other: Self) -> (r: Self)
        ensures
            r@ == self@ | other@,
    {
        InstanceFlags { bits: self.bits | other.bits }
    }

    /// The flags that are in both sets.
    pub fn intersection(self, other: Self) -> (r: Self)
        ensures
            r@ == self@ & other@,
    {
        InstanceFlags { bits: self.bits & other.bits }
    }

    /// The flags of this set that are not in `other`.
    pub fn difference(self, other: Self) -> (r: Self)
        ensures
            r@ == self@ & !other@,
    {
        InstanceFlags { bits: self.bits & !other.bits }
    }
}

} // verus!
