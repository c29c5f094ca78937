//! Newton's law of gravitation, as a magnitude and as a planar vector.

use crate::arithmetic::{
    is_deterministic, length_is, power_is, product_is, quotient_is, vec_difference_is,
    vec_product_is, vec_quotient_is, Arithmetic,
};
use crate::scalar::{Scalar, G_BITS, NEG_ONE_BITS, TWO_BITS};
use crate::types::Body;
use crate::vector::Vector2;
use vstd::prelude::*;

verus! {

/// `force` is a value that `G * mass_a * mass_b / distance^2` may take, the
/// products taken from left to right and the square taken as a power.
pub open spec fn gravity_force_is<A: Arithmetic>(
    ar: &A,
    mass_a: Scalar,
    mass_b: Scalar,
    distance: Scalar,
    force: Scalar,
) -> bool {
    exists|g_a: Scalar, g_a_b: Scalar, square: Scalar|
        {
            &&& #[trigger] product_is(ar, Scalar { bits: G_BITS }, mass_a, g_a)
            &&& #[trigger] product_is(ar, g_a, mass_b, g_a_b)
            &&& power_is(ar, distance, Scalar { bits: TWO_BITS }, square)
            &&& #[trigger] quotient_is(ar, g_a_b, square, force)
        }
}

/// `force` is a value that the pull on `receiving` by `exerting` may take:
/// exactly zero where the two bodies are equal, else the unit vector from
/// `exerting` to `receiving`, times the magnitude of the force, times `-1`.
pub open spec fn gravity_force_vector_is<A: Arithmetic>(
    ar: &A,
    receiving: Body,
    exerting: Body,
    force: Vector2,
) -> bool {
    if receiving.same_as(&exerting) {
        force == Vector2::zero()
    } else {
        exists|apart: Vector2, distance: Scalar, unit: Vector2, size: Scalar, push: Vector2|
            {
                &&& #[trigger] vec_difference_is(
                    ar,
                    receiving.position,
                    exerting.position,
                    apart,
                )
                &&& length_is(ar, apart, distance)
                &&& #[trigger] vec_quotient_is(ar, apart, distance, unit)
                &&& gravity_force_is(ar, receiving.mass, exerting.mass, distance, size)
                &&& #[trigger] vec_product_is(ar, unit, size, push)
                &&& vec_product_is(ar, push, Scalar { bits: NEG_ONE_BITS }, force)
            }
    }
}

/// Magnitude of the gravitational force between two masses at a distance:
/// `G * mass_a * mass_b / distance^2`.
///
/// A zero distance is not rejected: the arithmetic decides what the division
/// yields.
pub fn gravity_force<A: Arithmetic>(
    ar: &A,
    mass_a: Scalar,
    mass_b: Scalar,
    distance: Scalar,
) -> (force: Scalar)
    ensures
        gravity_force_is(ar, mass_a, mass_b, distance, force),
{
    let g_a = ar.mul(Scalar::from_bits(G_BITS), mass_a);
    let g_a_b = ar.mul(g_a, mass_b);
    let square = ar.powf(distance, Scalar::from_bits(TWO_BITS));
    let force = ar.div(g_a_b, square);
    assert(product_is(ar, Scalar { bits: G_BITS }, mass_a, g_a));
    assert(product_is(ar, g_a, mass_b, g_a_b));
    assert(quotient_is(ar, g_a_b, square, force));
    force
}

/// The force that `exerting` exerts on `receiving`, pointing from `receiving`
/// towards `exerting`.
///
/// Two equal bodies exert no force on each other: the result is then the zero
/// vector and the arithmetic is not consulted.
pub fn gravity_force_vector<A: Arithmetic>(ar: &A, receiving_body: &Body, exerting_body: &Body) -> (force:
    Vector2)
    ensures
        gravity_force_vector_is(ar, *receiving_body, *exerting_body, force),
        receiving_body.same_as(exerting_body) ==> force == Vector2::zero(),
{
    if receiving_body == exerting_body {
        Vector2::zero()
    } else {
        let apart = ar.vec_sub(receiving_body.position, exerting_body.position);
        let distance = ar.length(apart);
        let unit = ar.vec_div(apart, distance);
        let size = gravity_force(ar, receiving_body.mass, exerting_body.mass, distance);
        let push = ar.vec_mul(unit, size);
        let force = ar.vec_mul(push, Scalar::from_bits(NEG_ONE_BITS));
        assert(vec_difference_is(ar, receiving_body.position, exerting_body.position, apart));
        assert(vec_quotient_is(ar, apart, distance, unit));
        assert(vec_product_is(ar, unit, size, push));
        force
    }
}

/// A body that holds no NaN exerts exactly no force on itself.
pub proof fn self_force_is_zero<A: Arithmetic>(ar: &A, body: Body, force: Vector2)
    requires
        body.is_number(),
        gravity_force_vector_is(ar, body, body, force),
    ensures
        force == Vector2::zero(),
{
}

/// Under a deterministic arithmetic the magnitude of the force is a function
/// of the masses and the distance.
pub proof fn gravity_force_is_unique<A: Arithmetic>(
    ar: &A,
    mass_a: Scalar,
    mass_b: Scalar,
    distance: Scalar,
    first: Scalar,
    second: Scalar,
)
    requires
        is_deterministic(ar),
        gravity_force_is(ar, mass_a, mass_b, distance, first),
        gravity_force_is(ar, mass_a, mass_b, distance, second),
    ensures
        first == second,
{
}

/// Under a deterministic arithmetic the force between two bodies is a
/// function of the two bodies.
pub proof fn gravity_force_vector_is_unique<A: Arithmetic>(
    ar: &A,
    receiving: Body,
    exerting: Body,
    first: Vector2,
    second: Vector2,
)
    requires
        is_deterministic(ar),
        gravity_force_vector_is(ar, receiving, exerting, first),
        gravity_force_vector_is(ar, receiving, exerting, second),
    ensures
        first == second,
{
}

} // verus!
