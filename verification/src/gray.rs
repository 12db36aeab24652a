//! 4-bit grayscale values and the nibble-packing helpers.
//!
//! The controller stores two horizontally adjacent pixels per byte:
//! bits 7..4 hold the even-x pixel, bits 3..0 the odd-x pixel.

use vstd::prelude::*;

verus! {

/// A 4-bit grayscale intensity, 0 (darkest) to 15 (lightest).
///
/// Raw bytes outside 0..=15 are rejected at construction, so every
/// `GrayValue` in existence carries a valid nibble.
#[derive(Clone, Copy)]
pub struct GrayValue {
    v: u8,
}

impl GrayValue {
    /// The intensity this value stands for, always below 16.
    pub closed spec fn value(self) -> u8 {
        self.v
    }

    #[verifier::type_invariant]
    spec fn inv(self) -> bool {
        self.v < 16
    }

    /// Accepts only intensities 0..=15; anything larger is rejected.
    pub fn new(v: u8) -> (r: Option<GrayValue>)
        ensures
            v < 16 ==> (r matches Some(g) && g.value() == v),
            v >= 16 ==> r is None,
    {
        if v < 16 {
            Some(GrayValue { v })
        } else {
            None
        }
    }

    /// The raw 4-bit intensity.
    pub fn luma(&self) -> (r: u8)
        ensures
            r == self.value(),
            r < 16,
    {
        proof {
            use_type_invariant(self);
        }
        self.v
    }

    pub(crate) fn from_nibble(v: u8) -> (r: GrayValue)
        requires
            v < 16,
        ensures
            r.value() == v,
    {
        GrayValue { v }
    }
}

/// The packed byte after writing the low nibble of `g` into the upper
/// (even-x) half of `b`, keeping the lower half.
pub open spec fn spec_update_upper_half(b: u8, g: u8) -> u8 {
    ((g & 0x0F) << 4) | (b & 0x0F)
}

/// The packed byte after writing the low nibble of `g` into the lower
/// (odd-x) half of `b`, keeping the upper half.
pub open spec fn spec_update_lower_half(b: u8, g: u8) -> u8 {
    (g & 0x0F) | (b & 0xF0)
}

/// Replaces the upper nibble of `input` with the low nibble of `color`,
/// leaving the lower nibble untouched.
pub fn update_upper_half(input: u8, color: u8) -> (r: u8)
    ensures
        r == spec_update_upper_half(input, color),
        r >> 4 == color & 0x0F,
        r & 0x0F == input & 0x0F,
{
    let r = color << 4 | (input & 0x0F);
    proof {
        assert(color << 4 | (input & 0x0F) == ((color & 0x0F) << 4) | (input & 0x0F))
            by (bit_vector);
        assert((((color & 0x0F) << 4) | (input & 0x0F)) >> 4 == color & 0x0F) by (bit_vector);
        assert(((((color & 0x0F) << 4) | (input & 0x0F)) & 0x0F) == input & 0x0F) by (bit_vector);
    }
    r
}

/// Replaces the lower nibble of `input` with the low nibble of `color`,
/// leaving the upper nibble untouched.
pub fn update_lower_half(input: u8, color: u8) -> (r: u8)
    ensures
        r == spec_update_lower_half(input, color),
        r & 0xF0 == input & 0xF0,
        r & 0x0F == color & 0x0F,
{
    let r = color & 0x0F | (input & 0xF0);
    proof {
        assert(((color & 0x0F) | (input & 0xF0)) & 0xF0 == input & 0xF0) by (bit_vector);
        assert((((color & 0x0F) | (input & 0xF0)) & 0x0F) == color & 0x0F) by (bit_vector);
    }
    r
}

} // verus!
