//! Binary64 numbers as bit patterns, and the part of their behaviour that is
//! pure bit logic: classification, equality, absolute value.

use vstd::prelude::*;
use vstd::std_specs::cmp::PartialEqSpecImpl;

verus! {

/// All bits but the sign.
pub const MAGNITUDE_MASK: u64 = 0x7FFF_FFFF_FFFF_FFFF;

/// Magnitude bits of an infinity: exponent all ones, fraction zero.
pub const INFINITY_BITS: u64 = 0x7FF0_0000_0000_0000;

/// Pattern of `0.5`, the factor of the kinetic energy.
pub const HALF_BITS: u64 = 0x3FE0_0000_0000_0000;

/// Pattern of `2`, the exponent of the inverse-square law.
pub const TWO_BITS: u64 = 0x4000_0000_0000_0000;

/// Pattern of `-1`, the factor that turns a repulsion into an attraction.
pub const NEG_ONE_BITS: u64 = 0xBFF0_0000_0000_0000;

/// Pattern of the gravitational constant, 6.674e-11 m^3 kg^-1 s^-2.
pub const G_BITS: u64 = 0x3DD2_5868_F4DE_AE16;

/// The bit pattern without its sign bit.
pub open spec fn magnitude(bits: u64) -> u64 {
    bits & MAGNITUDE_MASK
}

/// The pattern encodes a NaN: exponent all ones and a nonzero fraction.
pub open spec fn is_nan_bits(bits: u64) -> bool {
    magnitude(bits) > INFINITY_BITS
}

/// The pattern encodes `+0` or `-0`.
pub open spec fn is_zero_bits(bits: u64) -> bool {
    magnitude(bits) == 0
}

/// Numeric equality of two patterns: a NaN equals nothing, the two zeros
/// equal each other, every other number equals only its own pattern.
pub open spec fn same_number(a: u64, b: u64) -> bool {
    &&& !is_nan_bits(a)
    &&& !is_nan_bits(b)
    &&& (a == b || (is_zero_bits(a) && is_zero_bits(b)))
}

/// A binary64 number, stored as its bit pattern.
#[derive(Clone, Copy, Debug)]
pub struct Scalar {
    pub bits: u64,
}

impl Scalar {
    /// Wraps a bit pattern.
    pub fn from_bits(bits: u64) -> (r: Scalar)
        ensures
            r.bits == bits,
    {
        Scalar { bits }
    }

    /// `+0`.
    pub fn zero() -> (r: Scalar)
        ensures
            r.bits == 0,
    {
        Scalar { bits: 0 }
    }

    /// The bit pattern.
    pub fn to_bits(self) -> (r: u64)
        ensures
            r == self.bits,
    {
        self.bits
    }

    pub open spec fn is_nan_spec(self) -> bool {
        is_nan_bits(self.bits)
    }

    pub open spec fn is_zero_spec(self) -> bool {
        is_zero_bits(self.bits)
    }

    /// Whether the number is a NaN.
    #[verifier::when_used_as_spec(is_nan_spec)]
    pub fn is_nan(self) -> (r: bool)
        ensures
            r == self.is_nan_spec(),
    {
        (self.bits & MAGNITUDE_MASK) > INFINITY_BITS
    }

    /// Whether the number is one of the two zeros.
    #[verifier::when_used_as_spec(is_zero_spec)]
    pub fn is_zero(self) -> (r: bool)
        ensures
            r == self.is_zero_spec(),
    {
        (self.bits & MAGNITUDE_MASK) == 0
    }

    /// The number with its sign bit cleared.
    pub fn abs(self) -> (r: Scalar)
        ensures
            r.bits == magnitude(self.bits),
    {
        Scalar { bits: self.bits & MAGNITUDE_MASK }
    }
}

impl PartialEq for Scalar {
    /// Numeric equality, not equality of patterns.
    fn eq(&self, other: &Scalar) -> (r: bool) {
        !self.is_nan() && !other.is_nan() && (self.bits == other.bits || (self.is_zero()
            && other.is_zero()))
    }
}

impl PartialEqSpecImpl for Scalar {
    open spec fn obeys_eq_spec() -> bool {
        true
    }

    open spec fn eq_spec(&self, other: &Scalar) -> bool {
        same_number(self.bits, other.bits)
    }
}

/// A number that is no NaN equals itself.
pub proof fn same_number_reflexive(a: u64)
    ensures
        same_number(a, a) <==> !is_nan_bits(a),
{
}

/// Numeric equality is symmetric.
pub proof fn same_number_symmetric(a: u64, b: u64)
    ensures
        same_number(a, b) == same_number(b, a),
{
}

/// Numeric equality is transitive.
pub proof fn same_number_transitive(a: u64, b: u64, c: u64)
    requires
        same_number(a, b),
        same_number(b, c),
    ensures
        same_number(a, c),
{
}

/// Clearing the sign never makes or unmakes a NaN, and yields a pattern
/// without sign.
pub proof fn magnitude_properties(a: u64)
    ensures
        is_nan_bits(magnitude(a)) == is_nan_bits(a),
        magnitude(magnitude(a)) == magnitude(a),
        magnitude(a) <= MAGNITUDE_MASK,
{
    assert((a & 0x7FFF_FFFF_FFFF_FFFF) & 0x7FFF_FFFF_FFFF_FFFF == a & 0x7FFF_FFFF_FFFF_FFFF)
        by (bit_vector);
    assert(a & 0x7FFF_FFFF_FFFF_FFFF <= 0x7FFF_FFFF_FFFF_FFFF) by (bit_vector);
}

} // verus!
