//! The usage model: how a buffer, a texture or an acceleration structure is
//! used at one point of the command stream, which usages may be held together,
//! and when a change of usage has to be declared as a transition.
//!
//! Nothing here tracks the state of a resource. The caller knows the usage a
//! resource is in and the usage the next operation needs, and asks
//! [`BufferUses::requires_transition`] or [`TextureUses::requires_transition`]
//! whether a barrier has to be recorded between the two.

use vstd::prelude::*;

verus! {

/// How a buffer is used at one point of the command stream.
///
/// The value is a set of flags in the low bits of a `u16`. The associated
/// constants are the raw masks; [`BufferUses::from_bits`] and its siblings make
/// a typed set out of them.
#[derive(Clone, Copy, Debug, PartialEq, Eq, Hash, Structural)]
pub struct BufferUses {
    pub bits: u16,
}

impl View for BufferUses {
    type V = u16;

    open spec fn view(&self) -> u16 {
        self.bits
    }
}

impl BufferUses {
    /// The argument to a read-only mapping.
    pub const MAP_READ: u16 = 0x0001;
    /// The argument to a write-only mapping.
    pub const MAP_WRITE: u16 = 0x0002;
    /// The source of a hardware copy.
    pub const COPY_SRC: u16 = 0x0004;
    /// The destination of a hardware copy.
    pub const COPY_DST: u16 = 0x0008;
    /// The index buffer used for drawing.
    pub const INDEX: u16 = 0x0010;
    /// A vertex buffer used for drawing.
    pub const VERTEX: u16 = 0x0020;
    /// A uniform buffer bound in a bind group.
    pub const UNIFORM: u16 = 0x0040;
    /// A read-only storage buffer used in a bind group.
    pub const STORAGE_READ: u16 = 0x0080;
    /// A read-write or write-only buffer used in a bind group.
    pub const STORAGE_READ_WRITE: u16 = 0x0100;
    /// The indirect or count buffer of an indirect draw or dispatch.
    pub const INDIRECT: u16 = 0x0200;
    /// A buffer that query results are resolved into.
    pub const QUERY_RESOLVE: u16 = 0x0400;
    /// Scratch space of an acceleration structure build.
    pub const ACCELERATION_STRUCTURE_SCRATCH: u16 = 0x0800;
    /// Geometry read by a bottom-level acceleration structure build.
    pub const BOTTOM_LEVEL_ACCELERATION_STRUCTURE_INPUT: u16 = 0x1000;
    /// Instances read by a top-level acceleration structure build.
    pub const TOP_LEVEL_ACCELERATION_STRUCTURE_INPUT: u16 = 0x2000;
    /// The usages that a buffer may hold at the same time.
    pub const INCLUSIVE: u16 = 0x32f5;
    /// The usages that a buffer must hold alone.
    pub const EXCLUSIVE: u16 = 0x090a;
    /// The usages that the hardware orders by itself: while the usage of a
    /// buffer stays the same and lies within this mask, consecutive operations
    /// need no barrier between them.
    pub const ORDERED: u16 = 0x32f7;
    /// Every bit that names a usage.
    pub const ALL: u16 = 0x3fff;

    /// The set that holds nothing.
    pub fn empty() -> (r: Self)
        ensures
            r@ == 0,
    {
        BufferUses { bits: 0 }
    }

    /// The set that holds every named flag.
    pub fn all() -> (r: Self)
        ensures
            r@ == Self::ALL,
    {
        BufferUses { bits: Self::ALL }
    }

    /// The raw bits of the set.
    pub fn bits(&self) -> (r: u16)
        ensures
            r == self@,
    {
        self.bits
    }

    /// The set with exactly these bits, if every one of them names a flag.
    pub fn from_bits(bits: u16) -> (r: Option<Self>)
        ensures
            bits & !Self::ALL == 0 ==> (r matches Some(s) && s@ == bits),
            bits & !Self::ALL != 0 ==> r is None,
    {
        if bits & !Self::ALL == 0 {
            Some(BufferUses { bits })
        } else {
            None
        }
    }

    /// The set with these bits, without those that name no flag.
    pub fn from_bits_truncate(bits: u16) -> (r: Self)
        ensures
            r@ == bits & Self::ALL,
    {
        BufferUses { bits: bits & Self::ALL }
    }

    /// The set with exactly these bits, named or not.
    pub fn from_bits_retain(bits: u16) -> (r: Self)
        ensures
            r@ == bits,
    {
        BufferUses { bits }
    }

    pub open spec fn spec_is_empty(&self) -> bool {
        self@ == 0
    }

    /// Whether the set holds nothing.
    #[verifier::when_used_as_spec(spec_is_empty)]
    pub fn is_empty(&self) -> (r: bool)
        ensures
            r == (self@ == 0),
    {
        self.bits == 0
    }

    /// Whether the set holds every named flag.
    pub fn is_all(&self) -> (r: bool)
        ensures
            r == (self@ & Self::ALL == Self::ALL),
    {
        self.bits & Self::ALL == Self::ALL
    }

    pub open spec fn spec_intersects(&self, other: Self) -> bool {
        self@ & other@ != 0
    }

    /// Whether the two sets share a flag.
    #[verifier::when_used_as_spec(spec_intersects)]
    pub fn intersects(&self, other: Self) -> (r: bool)
        ensures
            r == (self@ & other@ != 0),
    {
        self.bits & other.bits != 0
    }

    pub open spec fn spec_contains(&self, other: Self) -> bool {
        self@ & other@ == other@
    }

    /// Whether every flag of `other` is in this set.
    #[verifier::when_used_as_spec(spec_contains)]
    pub fn contains(&self, other: Self) -> (r: bool)
        ensures
            r == (self@ & other@ == other@),
    {
        self.bits & other.bits == other.bits
    }

    /// The flags that are in either set.
    pub fn union(self, other: Self) -> (r: Self)
        ensures
            r@ == self@ | other@,
    {
        BufferUses { bits: self.bits | other.bits }
    }

    /// The flags that are in both sets.
    pub fn intersection(self, other: Self) -> (r: Self)
        ensures
            r@ == self@ & other@,
    {
        BufferUses { bits: self.bits & other.bits }
    }

    /// The flags of this set that are not in `other`.
    pub fn difference(self, other: Self) -> (r: Self)
        ensures
            r@ == self@ & !other@,
    {
        BufferUses { bits: self.bits & !other.bits }
    }

    /// The flags that are in exactly one of the two sets.
    pub fn symmetric_difference(self, other: Self) -> (r: Self)
        ensures
            r@ == self@ ^ other@,
    {
        BufferUses { bits: self.bits ^ other.bits }
    }

    /// The named flags that are not in this set.
    pub fn complement(self) -> (r: Self)
        ensures
            r@ == !self@ & Self::ALL,
    {
        BufferUses { bits: !self.bits & Self::ALL }
    }

    /// Adds the flags of `other`.
    pub fn insert(&mut self, other: Self)
        ensures
            final(self)@ == old(self)@ | other@,
    {
        self.bits = self.bits | other.bits;
    }

    /// Takes out the flags of `other`.
    pub fn remove(&mut self, other: Self)
        ensures
            final(self)@ == old(self)@ & !other@,
    {
        self.bits = self.bits & !other.bits;
    }

    /// Flips the flags of `other`.
    pub fn toggle(&mut self, other: Self)
        ensures
            final(self)@ == old(self)@ ^ other@,
    {
        self.bits = self.bits ^ other.bits;
    }

    /// Adds the flags of `other` when `value` is true, takes them out otherwise.
    pub fn set(&mut self, other: Self, value: bool)
        ensures
            value ==> final(self)@ == old(self)@ | other@,
            !value ==> final(self)@ == old(self)@ & !other@,
    {
        if value {
            self.insert(other);
        } else {
            self.remove(other);
        }
    }

    pub open spec fn spec_all_ordered(&self) -> bool {
        self@ & Self::ORDERED == self@
    }

    /// Whether every usage in the set is one that the hardware orders by
    /// itself.
    #[verifier::when_used_as_spec(spec_all_ordered)]
    pub fn all_ordered(&self) -> (r: bool)
        ensures
            r == (self@ & Self::ORDERED == self@),
    {
        self.bits & Self::ORDERED == self.bits
    }

    pub open spec fn spec_any_exclusive(&self) -> bool {
        self@ & Self::EXCLUSIVE != 0
    }

    /// Whether the set holds a usage that must be held alone.
    #[verifier::when_used_as_spec(spec_any_exclusive)]
    pub fn any_exclusive(&self) -> (r: bool)
        ensures
            r == (self@ & Self::EXCLUSIVE != 0),
    {
        self.bits & Self::EXCLUSIVE != 0
    }

    /// A set of usages is a state that a buffer can be in when it holds no
    /// exclusive usage, or holds one usage only.
    pub open spec fn is_coherent(&self) -> bool {
        self.spec_any_exclusive() ==> is_single_flag(self@)
    }

    /// Whether the set is a state that a buffer can be in: an exclusive usage
    /// shares the set with no other usage.
    pub fn is_valid_state(&self) -> (r: bool)
        ensures
            r == self.is_coherent(),
    {
        if self.bits & Self::EXCLUSIVE != 0 {
            proof {
                lemma_single_flag(self.bits, Self::EXCLUSIVE);
            }
            self.bits & (self.bits - 1) == 0
        } else {
            true
        }
    }

    /// No barrier is needed between two consecutive operations exactly when
    /// the usage stays the same and the hardware orders all of it.
    pub open spec fn transition_required(before: Self, after: Self) -> bool {
        !(before == after && before.spec_all_ordered())
    }

    /// Whether the caller has to record a transition from `before` to
    /// `after` ahead of the next operation.
    pub fn requires_transition(before: Self, after: Self) -> (r: bool)
        ensures
            r == Self::transition_required(before, after),
    {
        !(before.bits == after.bits && before.all_ordered())
    }
}

/// How a texture, or one of its subresources, is used at one point of the
/// command stream.
///
/// The value is a set of flags in the low bits of a `u16`. The associated
/// constants are the raw masks; [`TextureUses::from_bits`] and its siblings
/// make a typed set out of them.
#[derive(Clone, Copy, Debug, PartialEq, Eq, Hash, Structural)]
pub struct TextureUses {
    pub bits: u16,
}

impl View for TextureUses {
    type V = u16;

    open spec fn view(&self) -> u16 {
        self.bits
    }
}

impl TextureUses {
    /// The texture has not been given any content yet.
    pub const UNINITIALIZED: u16 = 0x0001;
    /// Ready to be presented to the surface.
    pub const PRESENT: u16 = 0x0002;
    /// The source of a hardware copy.
    pub const COPY_SRC: u16 = 0x0004;
    /// The destination of a hardware copy.
    pub const COPY_DST: u16 = 0x0008;
    /// A read-only sampled or fetched resource.
    pub const RESOURCE: u16 = 0x0010;
    /// The color target of a render pass.
    pub const COLOR_TARGET: u16 = 0x0020;
    /// Read-only depth and stencil usage.
    pub const DEPTH_STENCIL_READ: u16 = 0x0040;
    /// Read-write depth and stencil usage.
    pub const DEPTH_STENCIL_WRITE: u16 = 0x0080;
    /// Read-only storage usage. Some native APIs bind it as a writable view, so it
    /// counts as exclusive although it only reads.
    pub const STORAGE_READ: u16 = 0x0100;
    /// Read-write or write-only storage usage.
    pub const STORAGE_READ_WRITE: u16 = 0x0200;
    /// Set by a caller's tracker when the subresources of a texture are in
    /// different states. The operations of this crate never interpret it.
    pub const COMPLEX: u16 = 0x0400;
    /// Set by a caller's tracker when it does not know the state of a
    /// subresource; unlike `UNINITIALIZED`, where the state is known. The
    /// operations of this crate never interpret it.
    pub const UNKNOWN: u16 = 0x0800;
    /// The usages that a texture may hold at the same time.
    pub const INCLUSIVE: u16 = 0x0054;
    /// The usages that a texture must hold alone.
    pub const EXCLUSIVE: u16 = 0x03aa;
    /// The usages that the hardware orders by itself: while the usage of a
    /// texture stays the same and lies within this mask, consecutive operations
    /// need no barrier between them.
    pub const ORDERED: u16 = 0x01f4;
    /// Every bit that names a usage or a tracker sentinel.
    pub const ALL: u16 = 0x0fff;

    /// The set that holds nothing.
    pub fn empty() -> (r: Self)
        ensures
            r@ == 0,
    {
        TextureUses { bits: 0 }
    }

    /// The set that holds every named flag.
    pub fn all() -> (r: Self)
        ensures
            r@ == Self::ALL,
    {
        TextureUses { bits: Self::ALL }
    }

    /// The raw bits of the set.
    pub fn bits(&self) -> (r: u16)
        ensures
            r == self@,
    {
        self.bits
    }

    /// The set with exactly these bits, if every one of them names a flag.
    pub fn from_bits(bits: u16) -> (r: Option<Self>)
        ensures
            bits & !Self::ALL == 0 ==> (r matches Some(s) && s@ == bits),
            bits & !Self::ALL != 0 ==> r is None,
    {
        if bits & !Self::ALL == 0 {
            Some(TextureUses { bits })
        } else {
            None
        }
    }

    /// The set with these bits, without those that name no flag.
    pub fn from_bits_truncate(bits: u16) -> (r: Self)
        ensures
            r@ == bits & Self::ALL,
    {
        TextureUses { bits: bits & Self::ALL }
    }

    /// The set with exactly these bits, named or not.
    pub fn from_bits_retain(bits: u16) -> (r: Self)
        ensures
            r@ == bits,
    {
        TextureUses { bits }
    }

    pub open spec fn spec_is_empty(&self) -> bool {
        self@ == 0
    }

    /// Whether the set holds nothing.
    #[verifier::when_used_as_spec(spec_is_empty)]
    pub fn is_empty(&self) -> (r: bool)
        ensures
            r == (self@ == 0),
    {
        self.bits == 0
    }

    /// Whether the set holds every named flag.
    pub fn is_all(&self) -> (r: bool)
        ensures
            r == (self@ & Self::ALL == Self::ALL),
    {
        self.bits & Self::ALL == Self::ALL
    }

    pub open spec fn spec_intersects(&self, other: Self) -> bool {
        self@ & other@ != 0
    }

    /// Whether the two sets share a flag.
    #[verifier::when_used_as_spec(spec_intersects)]
    pub fn intersects(&self, other: Self) -> (r: bool)
        ensures
            r == (self@ & other@ != 0),
    {
        self.bits & other.bits != 0
    }

    pub open spec fn spec_contains(&self, other: Self) -> bool {
        self@ & other@ == other@
    }

    /// Whether every flag of `other` is in this set.
    #[verifier::when_used_as_spec(spec_contains)]
    pub fn contains(&self, other: Self) -> (r: bool)
        ensures
            r == (self@ & other@ == other@),
    {
        self.bits & other.bits == other.bits
    }

    /// The flags that are in either set.
    pub fn union(self, other: Self) -> (r: Self)
        ensures
            r@ == self@ | other@,
    {
        TextureUses { bits: self.bits | other.bits }
    }

    /// The flags that are in both sets.
    pub fn intersection(self, other: Self) -> (r: Self)
        ensures
            r@ == self@ & other@,
    {
        TextureUses { bits: self.bits & other.bits }
    }

    /// The flags of this set that are not in `other`.
    pub fn difference(self, other: Self) -> (r: Self)
        ensures
            r@ == self@ & !other@,
    {
        TextureUses { bits: self.bits & !other.bits }
    }

    /// The flags that are in exactly one of the two sets.
    pub fn symmetric_difference(self, other: Self) -> (r: Self)
        ensures
            r@ == self@ ^ other@,
    {
        TextureUses { bits: self.bits ^ other.bits }
    }

    /// The named flags that are not in this set.
    pub fn complement(self) -> (r: Self)
        ensures
            r@ == !self@ & Self::ALL,
    {
        TextureUses { bits: !self.bits & Self::ALL }
    }

    /// Adds the flags of `other`.
    pub fn insert(&mut self, other: Self)
        ensures
            final(self)@ == old(self)@ | other@,
    {
        self.bits = self.bits | other.bits;
    }

    /// Takes out the flags of `other`.
    pub fn remove(&mut self, other: Self)
        ensures
            final(self)@ == old(self)@ & !other@,
    {
        self.bits = self.bits & !other.bits;
    }

    /// Flips the flags of `other`.
    pub fn toggle(&mut self, other: Self)
        ensures
            final(self)@ == old(self)@ ^ other@,
    {
        self.bits = self.bits ^ other.bits;
    }

    /// Adds the flags of `other` when `value` is true, takes them out otherwise.
    pub fn set(&mut self, other: Self, value: bool)
        ensures
            value ==> final(self)@ == old(self)@ | other@,
            !value ==> final(self)@ == old(self)@ & !other@,
    {
        if value {
            self.insert(other);
        } else {
            self.remove(other);
        }
    }

    pub open spec fn spec_all_ordered(&self) -> bool {
        self@ & Self::ORDERED == self@
    }

    /// Whether every usage in the set is one that the hardware orders by
    /// itself.
    #[verifier::when_used_as_spec(spec_all_ordered)]
    pub fn all_ordered(&self) -> (r: bool)
        ensures
            r == (self@ & Self::ORDERED == self@),
    {
        self.bits & Self::ORDERED == self.bits
    }

    pub open spec fn spec_any_exclusive(&self) -> bool {
        self@ & Self::EXCLUSIVE != 0
    }

    /// Whether the set holds a usage that must be held alone.
    #[verifier::when_used_as_spec(spec_any_exclusive)]
    pub fn any_exclusive(&self) -> (r: bool)
        ensures
            r == (self@ & Self::EXCLUSIVE != 0),
    {
        self.bits & Self::EXCLUSIVE != 0
    }

    /// A set of usages is a state that a texture can be in when it holds no
    /// exclusive usage, or holds one usage only.
    pub open spec fn is_coherent(&self) -> bool {
        self.spec_any_exclusive() ==> is_single_flag(self@)
    }

    /// Whether the set is a state that a texture can be in: an exclusive usage
    /// shares the set with no other usage.
    pub fn is_valid_state(&self) -> (r: bool)
        ensures
            r == self.is_coherent(),
    {
        if self.bits & Self::EXCLUSIVE != 0 {
            proof {
                lemma_single_flag(self.bits, Self::EXCLUSIVE);
            }
            self.bits & (self.bits - 1) == 0
        } else {
            true
        }
    }

    /// No barrier is needed between two consecutive operations exactly when
    /// the usage stays the same and the hardware orders all of it.
    pub open spec fn transition_required(before: Self, after: Self) -> bool {
        !(before == after && before.spec_all_ordered())
    }

    /// Whether the caller has to record a transition from `before` to
    /// `after` ahead of the next operation.
    pub fn requires_transition(before: Self, after: Self) -> (r: bool)
        ensures
            r == Self::transition_required(before, after),
    {
        !(before.bits == after.bits && before.all_ordered())
    }
}

/// How an acceleration structure is used at one point of the command stream.
#[derive(Clone, Copy, Debug, PartialEq, Eq, Hash, Structural)]
pub struct AccelerationStructureUses {
    pub bits: u8,
}

impl View for AccelerationStructureUses {
    type V = u8;

    open spec fn view(&self) -> u8 {
        self.bits
    }
}

impl AccelerationStructureUses {
    /// A bottom-level structure read by the build of a top-level one.
    pub const BUILD_INPUT: u8 = 0x01;
    /// The target of a build.
    pub const BUILD_OUTPUT: u8 = 0x02;
    /// A top-level structure read by a shader.
    pub const SHADER_INPUT: u8 = 0x04;
    /// Every bit that names a usage.
    pub const ALL: u8 = 0x07;

    /// The set that holds nothing.
    pub fn empty() -> (r: Self)
        ensures
            r@ == 0,
    {
        AccelerationStructureUses { bits: 0 }
    }

    /// The set that holds every named flag.
    pub fn all() -> (r: Self)
        ensures
            r@ == Self::ALL,
    {
        AccelerationStructureUses { bits: Self::ALL }
    }

    /// The raw bits of the set.
    pub fn bits(&self) -> (r: u8)
        ensures
            r == self@,
    {
        self.bits
    }

    /// The set with exactly these bits, if every one of them names a flag.
    pub fn from_bits(bits: u8) -> (r: Option<Self>)
        ensures
            bits & !Self::ALL == 0 ==> (r matches Some(s) && s@ == bits),
            bits & !Self::ALL != 0 ==> r is None,
    {
        if bits & !Self::ALL == 0 {
            Some(AccelerationStructureUses { bits })
        } else {
            None
        }
    }

    /// The set with these bits, without those that name no flag.
    pub fn from_bits_truncate(bits: u8) -> (r: Self)
        ensures
            r@ == bits & Self::ALL,
    {
        AccelerationStructureUses { bits: bits & Self::ALL }
    }

    /// The set with exactly these bits, named or not.
    pub fn from_bits_retain(bits: u8) -> (r: Self)
        ensures
            r@ == bits,
    {
        AccelerationStructureUses { bits }
    }

    pub open spec fn spec_is_empty(&self) -> bool {
        self@ == 0
    }

    /// Whether the set holds nothing.
    #[verifier::when_used_as_spec(spec_is_empty)]
    pub fn is_empty(&self) -> (r: bool)
        ensures
            r == (self@ == 0),
    {
        self.bits == 0
    }

    /// Whether the set holds every named flag.
    pub fn is_all(&self) -> (r: bool)
        ensures
            r == (self@ & Self::ALL == Self::ALL),
    {
        self.bits & Self::ALL == Self::ALL
    }

    pub open spec fn spec_intersects(&self, other: Self) -> bool {
        self@ & other@ != 0
    }

    /// Whether the two sets share a flag.
    #[verifier::when_used_as_spec(spec_intersects)]
    pub fn intersects(&self, other: Self) -> (r: bool)
        ensures
            r == (self@ & other@ != 0),
    {
        self.bits & other.bits != 0
    }

    pub open spec fn spec_contains(&self, other: Self) -> bool {
        self@ & other@ == other@
    }

    /// Whether every flag of `other` is in this set.
    #[verifier::when_used_as_spec(spec_contains)]
    pub fn contains(&self, other: Self) -> (r: bool)
        ensures
            r == (self@ & other@ == other@),
    {
        self.bits & other.bits == other.bits
    }

    /// The flags that are in either set.
    pub fn union(self, other: Self) -> (r: Self)
        ensures
            r@ == self@ | other@,
    {
        AccelerationStructureUses { bits: self.bits | other.bits }
    }

    /// The flags that are in both sets.
    pub fn intersection(self, other: Self) -> (r: Self)
        ensures
            r@ == self@ & other@,
    {
        AccelerationStructureUses { bits: self.bits & other.bits }
    }

    /// The flags of this set that are not in `other`.
    pub fn difference(self, other: Self) -> (r: Self)
        ensures
            r@ == self@ & !other@,
    {
        AccelerationStructureUses { bits: self.bits & !other.bits }
    }

    /// The flags that are in exactly one of the two sets.
    pub fn symmetric_difference(self, other: Self) -> (r: Self)
        ensures
            r@ == self@ ^ other@,
    {
        AccelerationStructureUses { bits: self.bits ^ other.bits }
    }

    /// The named flags that are not in this set.
    pub fn complement(self) -> (r: Self)
        ensures
            r@ == !self@ & Self::ALL,
    {
        AccelerationStructureUses { bits: !self.bits & Self::ALL }
    }

    /// Adds the flags of `other`.
    pub fn insert(&mut self, other: Self)
        ensures
            final(self)@ == old(self)@ | other@,
    {
        self.bits = self.bits | other.bits;
    }

    /// Takes out the flags of `other`.
    pub fn remove(&mut self, other: Self)
        ensures
            final(self)@ == old(self)@ & !other@,
    {
        self.bits = self.bits & !other.bits;
    }

    /// Flips the flags of `other`.
    pub fn toggle(&mut self, other: Self)
        ensures
            final(self)@ == old(self)@ ^ other@,
    {
        self.bits = self.bits ^ other.bits;
    }

    /// Adds the flags of `other` when `value` is true, takes them out otherwise.
    pub fn set(&mut self, other: Self, value: bool)
        ensures
            value ==> final(self)@ == old(self)@ | other@,
            !value ==> final(self)@ == old(self)@ & !other@,
    {
        if value {
            self.insert(other);
        } else {
            self.remove(other);
        }
    }
}


/// The sixteen values of a `u16` that hold exactly one flag.
pub open spec fn is_single_flag(bits: u16) -> bool {
    ||| bits == 0x0001
    ||| bits == 0x0002
    ||| bits == 0x0004
    ||| bits == 0x0008
    ||| bits == 0x0010
    ||| bits == 0x0020
    ||| bits == 0x0040
    ||| bits == 0x0080
    ||| bits == 0x0100
    ||| bits == 0x0200
    ||| bits == 0x0400
    ||| bits == 0x0800
    ||| bits == 0x1000
    ||| bits == 0x2000
    ||| bits == 0x4000
    ||| bits == 0x8000
}

/// Clearing the lowest set bit of a value leaves nothing exactly when the
/// value holds a single flag.
proof fn lemma_single_flag(bits: u16, mask: u16)
    by (bit_vector)
    requires
        bits & mask != 0,
    ensures
        bits >= 1,
        (bits & (bits - 1) as u16 == 0) <==> is_single_flag(bits),
{
}

/// The composite masks of a buffer are the unions that their names stand for.
pub proof fn lemma_buffer_masks()
    by (bit_vector)
    ensures
        BufferUses::INCLUSIVE == BufferUses::MAP_READ | BufferUses::COPY_SRC | BufferUses::INDEX
            | BufferUses::VERTEX | BufferUses::UNIFORM | BufferUses::STORAGE_READ
            | BufferUses::INDIRECT | BufferUses::BOTTOM_LEVEL_ACCELERATION_STRUCTURE_INPUT
            | BufferUses::TOP_LEVEL_ACCELERATION_STRUCTURE_INPUT,
        BufferUses::EXCLUSIVE == BufferUses::MAP_WRITE | BufferUses::COPY_DST
            | BufferUses::STORAGE_READ_WRITE | BufferUses::ACCELERATION_STRUCTURE_SCRATCH,
        BufferUses::ORDERED == BufferUses::INCLUSIVE | BufferUses::MAP_WRITE,
        BufferUses::ALL == BufferUses::INCLUSIVE | BufferUses::EXCLUSIVE
            | BufferUses::QUERY_RESOLVE,
{
}

/// The composite masks of a texture are the unions that their names stand for.
pub proof fn lemma_texture_masks()
    by (bit_vector)
    ensures
        TextureUses::INCLUSIVE == TextureUses::COPY_SRC | TextureUses::RESOURCE
            | TextureUses::DEPTH_STENCIL_READ,
        TextureUses::EXCLUSIVE == TextureUses::COPY_DST | TextureUses::COLOR_TARGET
            | TextureUses::DEPTH_STENCIL_WRITE | TextureUses::STORAGE_READ
            | TextureUses::STORAGE_READ_WRITE | TextureUses::PRESENT,
        TextureUses::ORDERED == TextureUses::INCLUSIVE | TextureUses::COLOR_TARGET
            | TextureUses::DEPTH_STENCIL_WRITE | TextureUses::STORAGE_READ,
        TextureUses::ALL == TextureUses::INCLUSIVE | TextureUses::EXCLUSIVE
            | TextureUses::UNINITIALIZED | TextureUses::COMPLEX | TextureUses::UNKNOWN,
{
}

/// Barrier elision for buffers: two consecutive operations that use a buffer
/// in the same way, all of it ordered by the hardware, need no transition
/// between them.
pub proof fn lemma_buffer_barrier_elision(before: BufferUses, after: BufferUses)
    requires
        before.spec_all_ordered(),
        after.spec_all_ordered(),
        before == after,
    ensures
        !BufferUses::transition_required(before, after),
{
}

/// Barrier elision for textures: two consecutive operations that use a
/// texture in the same way, all of it ordered by the hardware, need no
/// transition between them.
pub proof fn lemma_texture_barrier_elision(before: TextureUses, after: TextureUses)
    requires
        before.spec_all_ordered(),
        after.spec_all_ordered(),
        before == after,
    ensures
        !TextureUses::transition_required(before, after),
{
}

/// A change of usage always has to be declared, and so has a usage that the
/// hardware does not order, even when it stays the same.
pub proof fn lemma_transition_required(before: BufferUses, after: BufferUses)
    ensures
        before != after ==> BufferUses::transition_required(before, after),
        !before.spec_all_ordered() ==> BufferUses::transition_required(before, after),
{
}

/// The same for textures.
pub proof fn lemma_texture_transition_required(before: TextureUses, after: TextureUses)
    ensures
        before != after ==> TextureUses::transition_required(before, after),
        !before.spec_all_ordered() ==> TextureUses::transition_required(before, after),
{
}

/// No buffer usage is both shareable and exclusive, and a set of shareable
/// usages holds no exclusive one.
pub proof fn lemma_buffer_inclusive_exclusive_disjoint()
    ensures
        BufferUses::INCLUSIVE & BufferUses::EXCLUSIVE == 0,
        forall|u: BufferUses| u@ & BufferUses::INCLUSIVE == u@ ==> !u.spec_any_exclusive(),
{
    assert(BufferUses::INCLUSIVE & BufferUses::EXCLUSIVE == 0) by (bit_vector);
    assert forall|u: BufferUses| u@ & BufferUses::INCLUSIVE == u@ implies
        !u.spec_any_exclusive() by {
        let b = u@;
        assert(b & BufferUses::INCLUSIVE == b ==> b & BufferUses::EXCLUSIVE == 0) by (bit_vector);
    }
}

/// No texture usage is both shareable and exclusive, and a set of shareable
/// usages holds no exclusive one.
pub proof fn lemma_texture_inclusive_exclusive_disjoint()
    ensures
        TextureUses::INCLUSIVE & TextureUses::EXCLUSIVE == 0,
        forall|u: TextureUses| u@ & TextureUses::INCLUSIVE == u@ ==> !u.spec_any_exclusive(),
{
    assert(TextureUses::INCLUSIVE & TextureUses::EXCLUSIVE == 0) by (bit_vector);
    assert forall|u: TextureUses| u@ & TextureUses::INCLUSIVE == u@ implies
        !u.spec_any_exclusive() by {
        let b = u@;
        assert(b & TextureUses::INCLUSIVE == b ==> b & TextureUses::EXCLUSIVE == 0) by (bit_vector);
    }
}

/// Every set of shareable usages is a state that a resource can be in, and
/// needs no barrier while it stays as it is.
pub proof fn lemma_inclusive_is_coherent_and_ordered(b: BufferUses, t: TextureUses)
    ensures
        b@ & BufferUses::INCLUSIVE == b@ ==> b.is_coherent() && b.spec_all_ordered(),
        t@ & TextureUses::INCLUSIVE == t@ ==> t.is_coherent() && t.spec_all_ordered(),
{
    let x = b@;
    let y = t@;
    assert(x & BufferUses::INCLUSIVE == x ==> x & BufferUses::EXCLUSIVE == 0 && x
        & BufferUses::ORDERED == x) by (bit_vector);
    assert(y & TextureUses::INCLUSIVE == y ==> y & TextureUses::EXCLUSIVE == 0 && y
        & TextureUses::ORDERED == y) by (bit_vector);
}

} // verus!
