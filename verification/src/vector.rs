//! Planar vectors of binary64 numbers.

use crate::scalar::{same_number, Scalar};
use vstd::prelude::*;
use vstd::std_specs::cmp::PartialEqSpecImpl;

verus! {

/// An ordered pair of numbers.
#[derive(Clone, Copy, Debug)]
pub struct Vector2 {
    pub x: Scalar,
    pub y: Scalar,
}

impl Vector2 {
    /// The vector with the given components.
    pub fn new(x: Scalar, y: Scalar) -> (r: Vector2)
        ensures
            r.x == x,
            r.y == y,
    {
        Vector2 { x, y }
    }

    /// The vector whose components are both `+0`.
    pub open spec fn zero_spec() -> Vector2 {
        Vector2 { x: Scalar { bits: 0 }, y: Scalar { bits: 0 } }
    }

    /// The vector whose components are both `+0`.
    #[verifier::when_used_as_spec(zero_spec)]
    pub fn zero() -> (r: Vector2)
        ensures
            r == Vector2::zero_spec(),
    {
        Vector2 { x: Scalar::zero(), y: Scalar::zero() }
    }

    /// Component-wise numeric equality.
    pub open spec fn same_as(self, other: Vector2) -> bool {
        same_number(self.x.bits, other.x.bits) && same_number(self.y.bits, other.y.bits)
    }

    /// Neither component is a NaN.
    pub open spec fn is_number(self) -> bool {
        !self.x.is_nan_spec() && !self.y.is_nan_spec()
    }
}

impl PartialEq for Vector2 {
    /// Component-wise numeric equality.
    fn eq(&self, other: &Vector2) -> (r: bool) {
        self.x == other.x && self.y == other.y
    }
}

impl PartialEqSpecImpl for Vector2 {
    open spec fn obeys_eq_spec() -> bool {
        true
    }

    open spec fn eq_spec(&self, other: &Vector2) -> bool {
        self.same_as(*other)
    }
}

} // verus!
