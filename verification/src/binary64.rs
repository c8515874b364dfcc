//! Floating-point numbers, carried by their bit pattern.

use vstd::prelude::*;

verus! {

/// The exponent field of an IEEE 754 binary64 bit pattern.
pub open spec fn exponent_field(bits: u64) -> u64 {
    (bits >> 52) & 0x7ff
}

/// A bit pattern stands for a finite number unless its exponent field is all
/// ones, which marks the infinities and the NaNs.
pub open spec fn finite_bits(bits: u64) -> bool {
    exponent_field(bits) != 0x7ff
}

/// An IEEE 754 binary64 number, held as the 64 bits that encode it.
///
/// Two values are equal when their bits are equal, so `0.0` and `-0.0`
/// differ and a NaN equals itself.
#[derive(Clone, Copy, Debug, PartialEq, Eq, Structural)]
pub struct Binary64 {
    pub bits: u64,
}

impl Binary64 {
    /// Whether the number is neither an infinity nor a NaN.
    pub open spec fn finite(self) -> bool {
        finite_bits(self.bits)
    }

    /// The number with the given bit pattern.
    pub fn from_bits(bits: u64) -> (r: Binary64)
        ensures
            r.bits == bits,
    {
        Binary64 { bits }
    }

    /// The bit pattern of the number.
    pub fn to_bits(&self) -> (bits: u64)
        ensures
            bits == self.bits,
    {
        self.bits
    }

    /// Tests whether the number is finite.
    pub fn is_finite(&self) -> (b: bool)
        ensures
            b == self.finite(),
    {
        (self.bits >> 52) & 0x7ff != 0x7ff
    }
}

/// A pattern is finite exactly when, sign bit aside, it lies below the
/// pattern of positive infinity.
pub proof fn lemma_finite_below_infinity(bits: u64)
    ensures
        finite_bits(bits) <==> (bits & 0x7fff_ffff_ffff_ffff) < 0x7ff0_0000_0000_0000,
{
    assert(((bits >> 52) & 0x7ff != 0x7ff) <==> ((bits & 0x7fff_ffff_ffff_ffff)
        < 0x7ff0_0000_0000_0000)) by (bit_vector);
}

} // verus!
