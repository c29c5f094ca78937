//! The rounding operations the simulation relies on, as an interface that the
//! caller implements, and what the crate can say about their outcomes.
//!
//! No method carries a contract: nothing is assumed of an implementation.
//! Contracts elsewhere in the crate speak of the values an operation *may*
//! yield, through the predicates below.

use crate::scalar::Scalar;
use crate::vector::Vector2;
use vstd::prelude::*;

verus! {

/// Binary64 arithmetic on numbers and planar vectors.
pub trait Arithmetic {
    /// `a + b`.
    fn add(&self, a: Scalar, b: Scalar) -> Scalar;

    /// `a * b`.
    fn mul(&self, a: Scalar, b: Scalar) -> Scalar;

    /// `a / b`.
    fn div(&self, a: Scalar, b: Scalar) -> Scalar;

    /// `a` raised to the power `e`.
    fn powf(&self, a: Scalar, e: Scalar) -> Scalar;

    /// `a + b`, component by component.
    fn vec_add(&self, a: Vector2, b: Vector2) -> Vector2;

    /// `a - b`, component by component.
    fn vec_sub(&self, a: Vector2, b: Vector2) -> Vector2;

    /// `v * s`: each component times `s`.
    fn vec_mul(&self, v: Vector2, s: Scalar) -> Vector2;

    /// `v / s`: each component divided by `s`.
    fn vec_div(&self, v: Vector2, s: Scalar) -> Vector2;

    /// `s * v`: `s` times each component.
    fn scale(&self, s: Scalar, v: Vector2) -> Vector2;

    /// Euclidean length of `v`.
    fn length(&self, v: Vector2) -> Scalar;

    /// Dot product of `a` and `b`.
    fn dot(&self, a: Vector2, b: Vector2) -> Scalar;
}

/// `r` is a value that `a + b` may take.
pub open spec fn sum_is<A: Arithmetic>(ar: &A, a: Scalar, b: Scalar, r: Scalar) -> bool {
    call_ensures(A::add, (ar, a, b), r)
}

/// `r` is a value that `a * b` may take.
pub open spec fn product_is<A: Arithmetic>(ar: &A, a: Scalar, b: Scalar, r: Scalar) -> bool {
    call_ensures(A::mul, (ar, a, b), r)
}

/// `r` is a value that `a / b` may take.
pub open spec fn quotient_is<A: Arithmetic>(ar: &A, a: Scalar, b: Scalar, r: Scalar) -> bool {
    call_ensures(A::div, (ar, a, b), r)
}

/// `r` is a value that `a` to the power `e` may take.
pub open spec fn power_is<A: Arithmetic>(ar: &A, a: Scalar, e: Scalar, r: Scalar) -> bool {
    call_ensures(A::powf, (ar, a, e), r)
}

/// `r` is a value that `a + b` may take.
pub open spec fn vec_sum_is<A: Arithmetic>(ar: &A, a: Vector2, b: Vector2, r: Vector2) -> bool {
    call_ensures(A::vec_add, (ar, a, b), r)
}

/// `r` is a value that `a - b` may take.
pub open spec fn vec_difference_is<A: Arithmetic>(
    ar: &A,
    a: Vector2,
    b: Vector2,
    r: Vector2,
) -> bool {
    call_ensures(A::vec_sub, (ar, a, b), r)
}

/// `r` is a value that `v * s` may take.
pub open spec fn vec_product_is<A: Arithmetic>(ar: &A, v: Vector2, s: Scalar, r: Vector2) -> bool {
    call_ensures(A::vec_mul, (ar, v, s), r)
}

/// `r` is a value that `v / s` may take.
pub open spec fn vec_quotient_is<A: Arithmetic>(
    ar: &A,
    v: Vector2,
    s: Scalar,
    r: Vector2,
) -> bool {
    call_ensures(A::vec_div, (ar, v, s), r)
}

/// `r` is a value that `s * v` may take.
pub open spec fn scaled_is<A: Arithmetic>(ar: &A, s: Scalar, v: Vector2, r: Vector2) -> bool {
    call_ensures(A::scale, (ar, s, v), r)
}

/// `r` is a value that the length of `v` may take.
pub open spec fn length_is<A: Arithmetic>(ar: &A, v: Vector2, r: Scalar) -> bool {
    call_ensures(A::length, (ar, v), r)
}

/// `r` is a value that the dot product of `a` and `b` may take.
pub open spec fn dot_is<A: Arithmetic>(ar: &A, a: Vector2, b: Vector2, r: Scalar) -> bool {
    call_ensures(A::dot, (ar, a, b), r)
}

/// Every operation of `ar` is a function of its operands: equal operands
/// never yield two different values.
pub open spec fn is_deterministic<A: Arithmetic>(ar: &A) -> bool {
    &&& forall|a: Scalar, b: Scalar, r: Scalar, s: Scalar|
        #![trigger sum_is(ar, a, b, r), sum_is(ar, a, b, s)]
        sum_is(ar, a, b, r) && sum_is(ar, a, b, s) ==> r == s
    &&& forall|a: Scalar, b: Scalar, r: Scalar, s: Scalar|
        #![trigger product_is(ar, a, b, r), product_is(ar, a, b, s)]
        product_is(ar, a, b, r) && product_is(ar, a, b, s) ==> r == s
    &&& forall|a: Scalar, b: Scalar, r: Scalar, s: Scalar|
        #![trigger quotient_is(ar, a, b, r), quotient_is(ar, a, b, s)]
        quotient_is(ar, a, b, r) && quotient_is(ar, a, b, s) ==> r == s
    &&& forall|a: Scalar, b: Scalar, r: Scalar, s: Scalar|
        #![trigger power_is(ar, a, b, r), power_is(ar, a, b, s)]
        power_is(ar, a, b, r) && power_is(ar, a, b, s) ==> r == s
    &&& forall|a: Vector2, b: Vector2, r: Vector2, s: Vector2|
        #![trigger vec_sum_is(ar, a, b, r), vec_sum_is(ar, a, b, s)]
        vec_sum_is(ar, a, b, r) && vec_sum_is(ar, a, b, s) ==> r == s
    &&& forall|a: Vector2, b: Vector2, r: Vector2, s: Vector2|
        #![trigger vec_difference_is(ar, a, b, r), vec_difference_is(ar, a, b, s)]
        vec_difference_is(ar, a, b, r) && vec_difference_is(ar, a, b, s) ==> r == s
    &&& forall|a: Vector2, b: Scalar, r: Vector2, s: Vector2|
        #![trigger vec_product_is(ar, a, b, r), vec_product_is(ar, a, b, s)]
        vec_product_is(ar, a, b, r) && vec_product_is(ar, a, b, s) ==> r == s
    &&& forall|a: Vector2, b: Scalar, r: Vector2, s: Vector2|
        #![trigger vec_quotient_is(ar, a, b, r), vec_quotient_is(ar, a, b, s)]
        vec_quotient_is(ar, a, b, r) && vec_quotient_is(ar, a, b, s) ==> r == s
    &&& forall|a: Scalar, b: Vector2, r: Vector2, s: Vector2|
        #![trigger scaled_is(ar, a, b, r), scaled_is(ar, a, b, s)]
        scaled_is(ar, a, b, r) && scaled_is(ar, a, b, s) ==> r == s
    &&& forall|a: Vector2, r: Scalar, s: Scalar|
        #![trigger length_is(ar, a, r), length_is(ar, a, s)]
        length_is(ar, a, r) && length_is(ar, a, s) ==> r == s
    &&& forall|a: Vector2, b: Vector2, r: Scalar, s: Scalar|
        #![trigger dot_is(ar, a, b, r), dot_is(ar, a, b, s)]
        dot_is(ar, a, b, r) && dot_is(ar, a, b, s) ==> r == s
}

} // verus!
