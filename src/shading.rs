//! The minimum sample-shading ratio, held as an IEEE 754 single-precision value.
use vstd::prelude::*;

verus! {

/// The bit pattern of the single-precision value `1.0`.
pub const ONE_BITS: u32 = 0x3f80_0000;

/// The bit pattern of the single-precision value `-0.0`.
pub const NEGATIVE_ZERO_BITS: u32 = 0x8000_0000;

/// A minimum fraction of samples to shade individually, stored as the bit
/// pattern of an IEEE 754 single-precision number.
#[derive(Clone, Copy, Debug, PartialEq, Eq, Structural)]
pub struct ShadingRatio {
    pub bits: u32,
}

impl ShadingRatio {
    /// The sign bit: 1 for a negative number (or a NaN with the sign set).
    pub open spec fn sign(self) -> u32 {
        self.bits >> 31u32
    }

    /// The biased exponent field.
    pub open spec fn exponent(self) -> u32 {
        (self.bits >> 23u32) & 0xffu32
    }

    /// The fraction field.
    pub open spec fn fraction(self) -> u32 {
        self.bits & 0x7f_ffffu32
    }

    /// Positive or negative zero.
    pub open spec fn is_zero(self) -> bool {
        self.exponent() == 0 && self.fraction() == 0
    }

    /// Not a number.
    pub open spec fn is_nan(self) -> bool {
        self.exponent() == 0xff && self.fraction() != 0
    }

    /// The magnitude is finite and at most one: the exponent is below that of
    /// `1.0`, or equal to it with an empty fraction.
    pub open spec fn magnitude_at_most_one(self) -> bool {
        self.exponent() < 127 || (self.exponent() == 127 && self.fraction() == 0)
    }

    /// The number lies in the closed interval from zero to one. A NaN lies in
    /// no interval; `-0.0` equals zero.
    pub open spec fn in_unit_interval(self) -> bool {
        !self.is_nan() && (self.is_zero() || (self.sign() == 0 && self.magnitude_at_most_one()))
    }

    /// Wraps the bit pattern of a single-precision number.
    pub fn from_bits(bits: u32) -> (r: ShadingRatio)
        ensures
            r.bits == bits,
    {
        ShadingRatio { bits }
    }

    /// The bit pattern of the number.
    pub fn to_bits(self) -> (r: u32)
        ensures
            r == self.bits,
    {
        self.bits
    }

    /// Whether `0.0 <= value <= 1.0` holds of the number.
    pub fn is_in_unit_interval(self) -> (r: bool)
        ensures
            r == self.in_unit_interval(),
    {
        proof {
            lemma_unit_interval_bits(self.bits);
        }
        self.bits <= ONE_BITS || self.bits == NEGATIVE_ZERO_BITS
    }
}

/// The numbers from `+0.0` to `1.0` are exactly the bit patterns up to that of
/// `1.0`, and `-0.0` is the only other one in the interval.
pub proof fn lemma_unit_interval_bits(bits: u32)
    ensures
        (ShadingRatio { bits }).in_unit_interval() <==> bits_in_unit_interval(bits),
{
    lemma_unit_interval_fields(bits);
}

/// The test on a bit pattern that `is_in_unit_interval` makes.
pub open spec fn bits_in_unit_interval(bits: u32) -> bool {
    bits <= ONE_BITS || bits == NEGATIVE_ZERO_BITS
}

proof fn lemma_unit_interval_fields(bits: u32)
    by (bit_vector)
    ensures
        ((!((bits >> 23u32) & 0xffu32 == 0xffu32 && bits & 0x7f_ffffu32 != 0u32)) && (((bits
            >> 23u32) & 0xffu32 == 0u32 && bits & 0x7f_ffffu32 == 0u32) || (bits >> 31u32
            == 0u32 && ((bits >> 23u32) & 0xffu32 < 127u32 || ((bits >> 23u32) & 0xffu32
            == 127u32 && bits & 0x7f_ffffu32 == 0u32))))) <==> (bits <= 0x3f80_0000u32 || bits
            == 0x8000_0000u32),
{
}

} // verus!
