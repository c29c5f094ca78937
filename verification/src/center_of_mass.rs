//! The mass-weighted centroid of a system.

use crate::arithmetic::{is_deterministic, scaled_is, vec_quotient_is, Arithmetic};
use crate::error::SimulationError;
use crate::scalar::Scalar;
use crate::sum::{
    total_extends, total_is, total_is_unique, vec_total_extends, vec_total_is,
    vec_total_is_unique,
};
use crate::types::{Body, System};
use crate::vector::Vector2;
use vstd::prelude::*;

verus! {

/// The masses of the bodies, in their order.
pub open spec fn masses(bodies: Seq<Body>) -> Seq<Scalar> {
    Seq::new(bodies.len(), |i: int| bodies[i].mass)
}

/// `terms` holds, body by body, a value that `mass * position` may take.
pub open spec fn weighted_positions_are<A: Arithmetic>(
    ar: &A,
    bodies: Seq<Body>,
    terms: Seq<Vector2>,
) -> bool {
    &&& terms.len() == bodies.len()
    &&& forall|i: int|
        0 <= i < bodies.len() ==> scaled_is(
            ar,
            bodies[i].mass,
            bodies[i].position,
            #[trigger] terms[i],
        )
}

/// `center` is a value that the sum of `mass * position` over all bodies,
/// divided by the sum of all masses, may take. Both sums run in the order of
/// the bodies from the first.
pub open spec fn center_of_mass_is<A: Arithmetic>(
    ar: &A,
    bodies: Seq<Body>,
    center: Vector2,
) -> bool {
    exists|terms: Seq<Vector2>, weighted: Vector2, total_mass: Scalar|
        {
            &&& total_is(ar, masses(bodies), total_mass)
            &&& weighted_positions_are(ar, bodies, terms)
            &&& #[trigger] vec_total_is(ar, terms, weighted)
            &&& #[trigger] vec_quotient_is(ar, weighted, total_mass, center)
        }
}

/// The sum of the masses of a system that holds at least one body.
fn total_mass<A: Arithmetic>(ar: &A, bodies: &Vec<Body>) -> (total: Scalar)
    requires
        bodies.len() > 0,
    ensures
        total_is(ar, masses(bodies@), total),
{
    let mut total = bodies[0].mass;
    let mut i: usize = 1;
    proof {
        assert(masses(bodies@).take(1) =~= seq![total]);
    }
    while i < bodies.len()
        invariant
            1 <= i <= bodies.len(),
            total_is(ar, masses(bodies@).take(i as int), total),
        decreases bodies.len() - i,
    {
        let sum = ar.add(total, bodies[i].mass);
        proof {
            let so_far = masses(bodies@).take(i as int);
            total_extends(ar, so_far, bodies@[i as int].mass, total, sum);
            assert(so_far.push(bodies@[i as int].mass) =~= masses(bodies@).take(i + 1));
        }
        total = sum;
        i += 1;
    }
    proof {
        assert(masses(bodies@).take(bodies.len() as int) =~= masses(bodies@));
    }
    total
}

/// The center of mass of a system: the mass-weighted sum of the positions,
/// divided by the total mass.
///
/// A system without bodies has no center of mass. A total mass of zero is not
/// rejected: the arithmetic decides what the division yields.
pub fn calculcate_center_of_mass<A: Arithmetic>(ar: &A, system: &System) -> (result: Result<
    Vector2,
    SimulationError,
>)
    ensures
        system@.len() == 0 <==> result == Err::<Vector2, SimulationError>(
            SimulationError::EmptySystem,
        ),
        system@.len() > 0 <==> result is Ok,
        result matches Ok(center) ==> center_of_mass_is(ar, system@, center),
{
    if system.bodies.len() == 0 {
        return Err(SimulationError::EmptySystem);
    }
    let total_mass = total_mass(ar, &system.bodies);
    let first = &system.bodies[0];
    let mut weighted = ar.scale(first.mass, first.position);
    let ghost mut terms: Seq<Vector2> = seq![weighted];
    let mut i: usize = 1;
    while i < system.bodies.len()
        invariant
            1 <= i <= system.bodies.len(),
            terms.len() == i,
            forall|k: int|
                0 <= k < i ==> scaled_is(
                    ar,
                    system@[k].mass,
                    system@[k].position,
                    #[trigger] terms[k],
                ),
            vec_total_is(ar, terms, weighted),
        decreases system.bodies.len() - i,
    {
        let body = &system.bodies[i];
        let term = ar.scale(body.mass, body.position);
        let sum = ar.vec_add(weighted, term);
        proof {
            vec_total_extends(ar, terms, term, weighted, sum);
            terms = terms.push(term);
        }
        weighted = sum;
        i += 1;
    }
    let center = ar.vec_div(weighted, total_mass);
    assert(weighted_positions_are(ar, system@, terms));
    assert(vec_quotient_is(ar, weighted, total_mass, center));
    Ok(center)
}

/// Under a deterministic arithmetic the center of mass is a function of the
/// bodies.
pub proof fn center_of_mass_is_unique<A: Arithmetic>(
    ar: &A,
    bodies: Seq<Body>,
    first: Vector2,
    second: Vector2,
)
    requires
        is_deterministic(ar),
        center_of_mass_is(ar, bodies, first),
        center_of_mass_is(ar, bodies, second),
    ensures
        first == second,
{
    let (terms1, weighted1, mass1) = choose|
        terms: Seq<Vector2>,
        weighted: Vector2,
        total_mass: Scalar,
    |
        {
            &&& total_is(ar, masses(bodies), total_mass)
            &&& weighted_positions_are(ar, bodies, terms)
            &&& #[trigger] vec_total_is(ar, terms, weighted)
            &&& #[trigger] vec_quotient_is(ar, weighted, total_mass, first)
        };
    let (terms2, weighted2, mass2) = choose|
        terms: Seq<Vector2>,
        weighted: Vector2,
        total_mass: Scalar,
    |
        {
            &&& total_is(ar, masses(bodies), total_mass)
            &&& weighted_positions_are(ar, bodies, terms)
            &&& #[trigger] vec_total_is(ar, terms, weighted)
            &&& #[trigger] vec_quotient_is(ar, weighted, total_mass, second)
        };
    total_is_unique(ar, masses(bodies), mass1, mass2);
    assert(terms1 =~= terms2);
    vec_total_is_unique(ar, terms1, weighted1, weighted2);
}

} // verus!
