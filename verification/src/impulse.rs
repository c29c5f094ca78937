//! Linear momentum of a body and of a system.

use crate::arithmetic::{is_deterministic, scaled_is, Arithmetic};
use crate::error::SimulationError;
use crate::sum::{vec_total_extends, vec_total_is, vec_total_is_unique};
use crate::types::{Body, System};
use crate::vector::Vector2;
use vstd::prelude::*;

verus! {

/// `impulse` is a value that `mass * velocity` may take.
pub open spec fn impulse_is<A: Arithmetic>(ar: &A, body: Body, impulse: Vector2) -> bool {
    scaled_is(ar, body.mass, body.velocity, impulse)
}

/// `terms` holds, body by body, a value that the impulse of that body may
/// take.
pub open spec fn impulses_are<A: Arithmetic>(
    ar: &A,
    bodies: Seq<Body>,
    terms: Seq<Vector2>,
) -> bool {
    &&& terms.len() == bodies.len()
    &&& forall|i: int| 0 <= i < bodies.len() ==> impulse_is(ar, bodies[i], #[trigger] terms[i])
}

/// `total` is a value that the sum of the impulses of all bodies may take,
/// summed in the order of the bodies from the first.
pub open spec fn total_impulse_is<A: Arithmetic>(
    ar: &A,
    bodies: Seq<Body>,
    total: Vector2,
) -> bool {
    exists|terms: Seq<Vector2>|
        {
            &&& impulses_are(ar, bodies, terms)
            &&& #[trigger] vec_total_is(ar, terms, total)
        }
}

/// The impulse of a single body, `mass * velocity`.
pub fn calculate_impulse<A: Arithmetic>(ar: &A, body: &Body) -> (impulse: Vector2)
    ensures
        impulse_is(ar, *body, impulse),
{
    ar.scale(body.mass, body.velocity)
}

/// The impulse of the whole system, which should be constant over time.
///
/// A system without bodies has no impulse to report.
pub fn calculate_total_impulse<A: Arithmetic>(ar: &A, system: &System) -> (result: Result<
    Vector2,
    SimulationError,
>)
    ensures
        system@.len() == 0 <==> result == Err::<Vector2, SimulationError>(
            SimulationError::EmptySystem,
        ),
        system@.len() > 0 <==> result is Ok,
        result matches Ok(total) ==> total_impulse_is(ar, system@, total),
{
    if system.bodies.len() == 0 {
        return Err(SimulationError::EmptySystem);
    }
    let mut total = calculate_impulse(ar, &system.bodies[0]);
    let ghost mut terms: Seq<Vector2> = seq![total];
    let mut i: usize = 1;
    while i < system.bodies.len()
        invariant
            1 <= i <= system.bodies.len(),
            terms.len() == i,
            forall|k: int| 0 <= k < i ==> impulse_is(ar, system@[k], #[trigger] terms[k]),
            vec_total_is(ar, terms, total),
        decreases system.bodies.len() - i,
    {
        let impulse = calculate_impulse(ar, &system.bodies[i]);
        let sum = ar.vec_add(total, impulse);
        proof {
            vec_total_extends(ar, terms, impulse, total, sum);
            terms = terms.push(impulse);
        }
        total = sum;
        i += 1;
    }
    assert(impulses_are(ar, system@, terms));
    Ok(total)
}

/// Under a deterministic arithmetic the total impulse is a function of the
/// bodies.
pub proof fn total_impulse_is_unique<A: Arithmetic>(
    ar: &A,
    bodies: Seq<Body>,
    first: Vector2,
    second: Vector2,
)
    requires
        is_deterministic(ar),
        total_impulse_is(ar, bodies, first),
        total_impulse_is(ar, bodies, second),
    ensures
        first == second,
{
    let terms1 = choose|terms: Seq<Vector2>|
        {
            &&& impulses_are(ar, bodies, terms)
            &&& #[trigger] vec_total_is(ar, terms, first)
        };
    let terms2 = choose|terms: Seq<Vector2>|
        {
            &&& impulses_are(ar, bodies, terms)
            &&& #[trigger] vec_total_is(ar, terms, second)
        };
    assert(terms1 =~= terms2);
    vec_total_is_unique(ar, terms1, first, second);
}

} // verus!
