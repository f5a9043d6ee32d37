//! The aspects of a texture, and which of them a format has.

use vstd::prelude::*;
use vstd::std_specs::convert::FromSpecImpl;

use crate::types::TextureAspect;
use crate::types::TextureFormat;

verus! {

/// The aspects of a texture: the parts of its content that can be addressed
/// apart.
#[derive(Clone, Copy, Debug, PartialEq, Eq, Hash, Structural)]
pub struct FormatAspects {
    pub bits: u8,
}

impl View for FormatAspects {
    type V = u8;

    open spec fn view(&self) -> u8 {
        self.bits
    }
}

impl FormatAspects {
    /// The color of a color format.
    pub const COLOR: u8 = 0x01;
    /// The depth of a depth format.
    pub const DEPTH: u8 = 0x02;
    /// The stencil of a stencil format.
    pub const STENCIL: u8 = 0x04;
    /// The first plane of a planar format.
    pub const PLANE_0: u8 = 0x08;
    /// The second plane of a planar format.
    pub const PLANE_1: u8 = 0x10;
    /// The third plane of a planar format.
    pub const PLANE_2: u8 = 0x20;
    /// Depth and stencil together.
    pub const DEPTH_STENCIL: u8 = 0x06;
    /// Every bit that names an aspect.
    pub const ALL: u8 = 0x3f;

    /// The set that holds nothing.
    pub fn empty() -> (r: Self)
        ensures
            r@ == 0,
    {
        FormatAspects { bits: 0 }
    }

    /// The set that holds every named flag.
    pub fn all() -> (r: Self)
        ensures
            r@ == Self::ALL,
    {
        FormatAspects { bits: Self::ALL }
    }

    /// The raw bits of the set.
    pub fn bits(&self) -> (r: u8)
        ensures
            r == self@,
    {
        self.bits
    }

    /// The set with exactly these bits, if every one of them names a flag.
    pub fn from_bits(bits: u8) -> (r: Option<Self>)
        ensures
            bits & !Self::ALL == 0 ==> (r matches Some(s) && s@ == bits),
            bits & !Self::ALL != 0 ==> r is None,
    {
        if bits & !Self::ALL == 0 {
            Some(FormatAspects { bits })
        } else {
            None
        }
    }

    /// The set with these bits, without those that name no flag.
    pub fn from_bits_truncate(bits: u8) -> (r: Self)
        ensures
            r@ == bits & Self::ALL,
    {
        FormatAspects { bits: bits & Self::ALL }
    }

    /// The set with exactly these bits, named or not.
    pub fn from_bits_retain(bits: u8) -> (r: Self)
        ensures
            r@ == bits,
    {
        FormatAspects { bits }
    }

    pub open spec fn spec_is_empty(&self) -> bool {
        self@ == 0
    }

    /// Whether the set holds nothing.
    #[verifier::when_used_as_spec(spec_is_empty)]
    pub fn is_empty(&self) -> (r: bool)
        ensures
            r == (self@ == 0),
    {
        self.bits == 0
    }

    pub open spec fn spec_intersects(&self, other: Self) -> bool {
        self@ & other@ != 0
    }

    /// Whether the two sets share a flag.
    #[verifier::when_used_as_spec(spec_intersects)]
    pub fn intersects(&self, other: Self) -> (r: bool)
        ensures
            r == (self@ & other@ != 0),
    {
        self.bits & other.bits != 0
    }

    pub open spec fn spec_contains(&self, other: Self) -> bool {
        self@ & other@ == other@
    }

    /// Whether every flag of `other` is in this set.
    #[verifier::when_used_as_spec(spec_contains)]
    pub fn contains(&self, other: Self) -> (r: bool)
        ensures
            r == (self@ & other@ == other@),
    {
        self.bits & other.bits == other.bits
    }

    /// The flags that are in either set.
    pub fn union(self, other: Self) -> (r: Self)
        ensures
            r@ == self@ | other@,
    {
        FormatAspects { bits: self.bits | other.bits }
    }

    /// The flags that are in both sets.
    pub fn intersection(self, other: Self) -> (r: Self)
        ensures
            r@ == self@ & other@,
    {
        FormatAspects { bits: self.bits & other.bits }
    }

    /// The flags of this set that are not in `other`.
    pub fn difference(self, other: Self) -> (r: Self)
        ensures
            r@ == self@ & !other@,
    {
        FormatAspects { bits: self.bits & !other.bits }
    }


    /// The aspects that a texture of the format has, as raw bits: stencil,
    /// depth, both, the two planes of a planar format, or color.
    pub open spec fn bits_of_format(format: TextureFormat) -> u8 {
        match format {
            TextureFormat::Stencil8 => Self::STENCIL,
            TextureFormat::Depth16Unorm => Self::DEPTH,
            TextureFormat::Depth32Float => Self::DEPTH,
            TextureFormat::Depth24Plus => Self::DEPTH,
            TextureFormat::Depth32FloatStencil8 => Self::DEPTH_STENCIL,
            TextureFormat::Depth24PlusStencil8 => Self::DEPTH_STENCIL,
            TextureFormat::NV12 => Self::PLANE_0 | Self::PLANE_1,
            _ => Self::COLOR,
        }
    }

    /// The aspects that a choice of aspect lets through, as raw bits.
    pub open spec fn bits_of_aspect(aspect: TextureAspect) -> u8 {
        match aspect {
            TextureAspect::All => Self::ALL,
            TextureAspect::DepthOnly => Self::DEPTH,
            TextureAspect::StencilOnly => Self::STENCIL,
            TextureAspect::Plane0 => Self::PLANE_0,
            TextureAspect::Plane1 => Self::PLANE_1,
            TextureAspect::Plane2 => Self::PLANE_2,
        }
    }

    /// The aspects of a texture of the given format that the choice of aspect
    /// selects.
    pub fn new(format: TextureFormat, aspect: TextureAspect) -> (r: Self)
        ensures
            r@ == Self::bits_of_format(format) & Self::bits_of_aspect(aspect),
    {
        let aspect_mask: u8 = match aspect {
            TextureAspect::All => Self::ALL,
            TextureAspect::DepthOnly => Self::DEPTH,
            TextureAspect::StencilOnly => Self::STENCIL,
            TextureAspect::Plane0 => Self::PLANE_0,
            TextureAspect::Plane1 => Self::PLANE_1,
            TextureAspect::Plane2 => Self::PLANE_2,
        };
        let of_format = FormatAspects::from(format);
        FormatAspects { bits: of_format.bits & aspect_mask }
    }

    pub open spec fn spec_is_one(&self) -> bool {
        is_single_aspect_bit(self@)
    }

    /// Whether exactly one bit is set.
    #[verifier::when_used_as_spec(spec_is_one)]
    pub fn is_one(&self) -> (r: bool)
        ensures
            r == is_single_aspect_bit(self@),
    {
        if self.bits == 0 {
            false
        } else {
            proof {
                lemma_single_aspect_bit(self.bits);
            }
            self.bits & (self.bits - 1) == 0
        }
    }

    /// The aspect that stands for a single flag. Color stands for the whole
    /// texture, the others for themselves.
    pub open spec fn aspect_of_bits(bits: u8) -> TextureAspect {
        if bits == Self::COLOR {
            TextureAspect::All
        } else if bits == Self::DEPTH {
            TextureAspect::DepthOnly
        } else if bits == Self::STENCIL {
            TextureAspect::StencilOnly
        } else if bits == Self::PLANE_0 {
            TextureAspect::Plane0
        } else if bits == Self::PLANE_1 {
            TextureAspect::Plane1
        } else {
            TextureAspect::Plane2
        }
    }

    /// Whether the set is one of the six single aspects.
    pub open spec fn is_single_aspect(&self) -> bool {
        self@ == Self::COLOR || self@ == Self::DEPTH || self@ == Self::STENCIL || self@
            == Self::PLANE_0 || self@ == Self::PLANE_1 || self@ == Self::PLANE_2
    }

    /// The aspect that a set of a single aspect stands for.
    pub fn map(&self) -> (r: TextureAspect)
        requires
            self.is_single_aspect(),
        ensures
            r == Self::aspect_of_bits(self@),
    {
        if self.bits == Self::COLOR {
            TextureAspect::All
        } else if self.bits == Self::DEPTH {
            TextureAspect::DepthOnly
        } else if self.bits == Self::STENCIL {
            TextureAspect::StencilOnly
        } else if self.bits == Self::PLANE_0 {
            TextureAspect::Plane0
        } else if self.bits == Self::PLANE_1 {
            TextureAspect::Plane1
        } else {
            TextureAspect::Plane2
        }
    }
}

impl From<TextureFormat> for FormatAspects {
    /// The aspects that a texture of the format has.
    fn from(format: TextureFormat) -> (r: FormatAspects) {
        let bits: u8 = match format {
            TextureFormat::Stencil8 => FormatAspects::STENCIL,
            TextureFormat::Depth16Unorm
            | TextureFormat::Depth32Float
            | TextureFormat::Depth24Plus => FormatAspects::DEPTH,
            TextureFormat::Depth32FloatStencil8 | TextureFormat::Depth24PlusStencil8 => {
                FormatAspects::DEPTH_STENCIL
            },
            TextureFormat::NV12 => FormatAspects::PLANE_0 | FormatAspects::PLANE_1,
            _ => FormatAspects::COLOR,
        };
        FormatAspects { bits }
    }
}

impl FromSpecImpl<TextureFormat> for FormatAspects {
    open spec fn obeys_from_spec() -> bool {
        true
    }

    open spec fn from_spec(format: TextureFormat) -> FormatAspects {
        FormatAspects { bits: FormatAspects::bits_of_format(format) }
    }
}

/// The eight values of a `u8` that hold exactly one bit.
pub open spec fn is_single_aspect_bit(bits: u8) -> bool {
    ||| bits == 0x01
    ||| bits == 0x02
    ||| bits == 0x04
    ||| bits == 0x08
    ||| bits == 0x10
    ||| bits == 0x20
    ||| bits == 0x40
    ||| bits == 0x80
}

/// Clearing the lowest set bit of a value leaves nothing exactly when the
/// value holds a single bit.
proof fn lemma_single_aspect_bit(bits: u8)
    by (bit_vector)
    requires
        bits != 0,
    ensures
        (bits & (bits - 1) as u8 == 0) <==> is_single_aspect_bit(bits),
{
}

/// A format has at least one aspect, and a choice other than the whole
/// texture selects at most one.
pub proof fn lemma_aspects_of_format(format: TextureFormat, aspect: TextureAspect)
    ensures
        FormatAspects::bits_of_format(format) != 0,
        aspect != TextureAspect::All ==> {
            let selected = FormatAspects::bits_of_format(format) & FormatAspects::bits_of_aspect(
                aspect,
            );
            selected == 0 || is_single_aspect_bit(selected)
        },
{
    let f = FormatAspects::bits_of_format(format);
    let a = FormatAspects::bits_of_aspect(aspect);
    assert(FormatAspects::PLANE_0 | FormatAspects::PLANE_1 == 0x18) by (bit_vector);
    if aspect != TextureAspect::All {
        assert(is_single_aspect_bit(a));
        assert(is_single_aspect_bit(a) ==> f & a == 0 || is_single_aspect_bit(f & a))
            by (bit_vector);
    }
}

} // verus!

