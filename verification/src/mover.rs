//! The time step: the resultant force on every body, then one of two Euler
//! rules.

use crate::arithmetic::{
    is_deterministic, vec_product_is, vec_quotient_is, vec_sum_is, Arithmetic,
};
use crate::force::{
    gravity_force_vector, gravity_force_vector_is, gravity_force_vector_is_unique,
};
use crate::scalar::Scalar;
use crate::types::{Body, MoverImplementation, SimulationConfig, System};
use crate::vector::Vector2;
use vstd::prelude::*;

verus! {

/// `after` is a value that `velocity + force / mass * timestep` may take.
pub open spec fn velocity_step_is<A: Arithmetic>(
    ar: &A,
    velocity: Vector2,
    mass: Scalar,
    force: Vector2,
    timestep: Scalar,
    after: Vector2,
) -> bool {
    exists|acceleration: Vector2, change: Vector2|
        {
            &&& #[trigger] vec_quotient_is(ar, force, mass, acceleration)
            &&& #[trigger] vec_product_is(ar, acceleration, timestep, change)
            &&& vec_sum_is(ar, velocity, change, after)
        }
}

/// `after` is a value that `position + velocity * timestep` may take.
pub open spec fn position_step_is<A: Arithmetic>(
    ar: &A,
    position: Vector2,
    velocity: Vector2,
    timestep: Scalar,
    after: Vector2,
) -> bool {
    exists|change: Vector2|
        {
            &&& #[trigger] vec_product_is(ar, velocity, timestep, change)
            &&& vec_sum_is(ar, position, change, after)
        }
}

/// `after` is `before` moved by the explicit rule: name and mass are kept, and
/// position and velocity both advance from the old velocity.
pub open spec fn moved_explicit_is<A: Arithmetic>(
    ar: &A,
    before: Body,
    force: Vector2,
    timestep: Scalar,
    after: Body,
) -> bool {
    &&& after.name@ == before.name@
    &&& after.mass == before.mass
    &&& position_step_is(ar, before.position, before.velocity, timestep, after.position)
    &&& velocity_step_is(ar, before.velocity, before.mass, force, timestep, after.velocity)
}

/// `after` is `before` moved by the implicit rule: name and mass are kept, the
/// velocity advances, and the position advances from the new velocity.
pub open spec fn moved_implicit_is<A: Arithmetic>(
    ar: &A,
    before: Body,
    force: Vector2,
    timestep: Scalar,
    after: Body,
) -> bool {
    &&& after.name@ == before.name@
    &&& after.mass == before.mass
    &&& velocity_step_is(ar, before.velocity, before.mass, force, timestep, after.velocity)
    &&& position_step_is(ar, before.position, after.velocity, timestep, after.position)
}

/// `after` is `before` moved by the chosen rule.
pub open spec fn moved_is<A: Arithmetic>(
    ar: &A,
    mover: MoverImplementation,
    before: Body,
    force: Vector2,
    timestep: Scalar,
    after: Body,
) -> bool {
    match mover {
        MoverImplementation::EulerExplicit() => moved_explicit_is(
            ar,
            before,
            force,
            timestep,
            after,
        ),
        MoverImplementation::EulerImplicit() => moved_implicit_is(
            ar,
            before,
            force,
            timestep,
            after,
        ),
    }
}

/// `total` is a value that the sum of the pulls on body `receiver` by the
/// first `count` bodies may take, summed in their order from the zero vector.
/// The receiver itself is among them.
pub open spec fn resultant_force_is<A: Arithmetic>(
    ar: &A,
    bodies: Seq<Body>,
    receiver: int,
    count: int,
    total: Vector2,
) -> bool
    decreases count,
{
    if count <= 0 {
        total == Vector2::zero()
    } else {
        exists|before: Vector2, pull: Vector2|
            {
                &&& resultant_force_is(ar, bodies, receiver, count - 1, before)
                &&& gravity_force_vector_is(ar, bodies[receiver], bodies[count - 1], pull)
                &&& #[trigger] vec_sum_is(ar, before, pull, total)
            }
    }
}

/// `after` is body `index` of `bodies` one time step later: moved by the chosen
/// rule under the resultant force of all bodies.
pub open spec fn body_stepped_is<A: Arithmetic>(
    ar: &A,
    bodies: Seq<Body>,
    index: int,
    timestep: Scalar,
    mover: MoverImplementation,
    after: Body,
) -> bool {
    exists|force: Vector2|
        {
            &&& #[trigger] resultant_force_is(ar, bodies, index, bodies.len() as int, force)
            &&& moved_is(ar, mover, bodies[index], force, timestep, after)
        }
}

/// `after` is `before` one time step later: as many bodies, in the same
/// order, each stepped on its own from the state `before`.
pub open spec fn system_stepped_is<A: Arithmetic>(
    ar: &A,
    before: Seq<Body>,
    timestep: Scalar,
    mover: MoverImplementation,
    after: Seq<Body>,
) -> bool {
    &&& after.len() == before.len()
    &&& forall|i: int|
        0 <= i < before.len() ==> body_stepped_is(ar, before, i, timestep, mover, #[trigger] after[i])
}

/// Moves a body by the explicit Euler rule: the new position and the new
/// velocity depend on the old values only.
pub fn mover_euler_explicit<A: Arithmetic>(
    ar: &A,
    body: &mut Body,
    force: Vector2,
    timestep: Scalar,
)
    ensures
        moved_explicit_is(ar, *old(body), force, timestep, *final(body)),
{
    let change = ar.vec_mul(body.velocity, timestep);
    let position = ar.vec_add(body.position, change);
    assert(vec_product_is(ar, body.velocity, timestep, change));
    let acceleration = ar.vec_div(force, body.mass);
    let gain = ar.vec_mul(acceleration, timestep);
    let velocity = ar.vec_add(body.velocity, gain);
    assert(vec_quotient_is(ar, force, body.mass, acceleration));
    assert(vec_product_is(ar, acceleration, timestep, gain));
    body.position = position;
    body.velocity = velocity;
}

/// Moves a body by the implicit Euler rule: the velocity advances first, and
/// the position advances from the new velocity.
pub fn mover_euler_implicit<A: Arithmetic>(
    ar: &A,
    body: &mut Body,
    force: Vector2,
    timestep: Scalar,
)
    ensures
        moved_implicit_is(ar, *old(body), force, timestep, *final(body)),
{
    let acceleration = ar.vec_div(force, body.mass);
    let gain = ar.vec_mul(acceleration, timestep);
    let velocity = ar.vec_add(body.velocity, gain);
    assert(vec_quotient_is(ar, force, body.mass, acceleration));
    assert(vec_product_is(ar, acceleration, timestep, gain));
    let change = ar.vec_mul(velocity, timestep);
    let position = ar.vec_add(body.position, change);
    assert(vec_product_is(ar, velocity, timestep, change));
    body.velocity = velocity;
    body.position = position;
}

/// One more pull added to a resultant force is the resultant force of one
/// more body.
pub proof fn resultant_force_extends<A: Arithmetic>(
    ar: &A,
    bodies: Seq<Body>,
    receiver: int,
    count: int,
    before: Vector2,
    pull: Vector2,
    total: Vector2,
)
    requires
        count > 0,
        resultant_force_is(ar, bodies, receiver, count - 1, before),
        gravity_force_vector_is(ar, bodies[receiver], bodies[count - 1], pull),
        vec_sum_is(ar, before, pull, total),
    ensures
        resultant_force_is(ar, bodies, receiver, count, total),
{
}

/// The resultant force on body `receiver`: the pulls of all bodies of the
/// system, the receiver included, summed in their order.
pub fn resultant_force<A: Arithmetic>(ar: &A, bodies: &Vec<Body>, receiver: usize) -> (total:
    Vector2)
    requires
        receiver < bodies.len(),
    ensures
        resultant_force_is(ar, bodies@, receiver as int, bodies.len() as int, total),
{
    let mut total = Vector2::zero();
    let mut j: usize = 0;
    while j < bodies.len()
        invariant
            receiver < bodies.len(),
            j <= bodies.len(),
            resultant_force_is(ar, bodies@, receiver as int, j as int, total),
        decreases bodies.len() - j,
    {
        let pull = gravity_force_vector(ar, &bodies[receiver], &bodies[j]);
        let sum = ar.vec_add(total, pull);
        proof {
            resultant_force_extends(ar, bodies@, receiver as int, j + 1, total, pull, sum);
        }
        total = sum;
        j += 1;
    }
    total
}

/// Maps the state of a system at one instant to its state one time step
/// later.
///
/// Every body is moved under the resultant force that the state before the
/// step exerts on it; the result holds as many bodies, in the same order.
pub fn system_timestep<A: Arithmetic>(
    ar: &A,
    system: System,
    timestep: Scalar,
    config: SimulationConfig,
) -> (next: System)
    ensures
        system_stepped_is(ar, system@, timestep, config.mover_implementation, next@),
        next@.len() == system@.len(),
        forall|i: int|
            0 <= i < system@.len() ==> (#[trigger] next@[i]).name@ == system@[i].name@
                && next@[i].mass == system@[i].mass,
{
    let mut bodies: Vec<Body> = Vec::new();
    let mut i: usize = 0;
    while i < system.bodies.len()
        invariant
            i <= system.bodies.len(),
            bodies.len() == i,
            forall|k: int|
                0 <= k < i ==> body_stepped_is(
                    ar,
                    system@,
                    k,
                    timestep,
                    config.mover_implementation,
                    #[trigger] bodies@[k],
                ),
            forall|k: int|
                0 <= k < i ==> (#[trigger] bodies@[k]).name@ == system@[k].name@
                    && bodies@[k].mass == system@[k].mass,
        decreases system.bodies.len() - i,
    {
        let force = resultant_force(ar, &system.bodies, i);
        let body = &system.bodies[i];
        let mut new_body = Body {
            mass: body.mass,
            name: body.name.clone(),
            position: body.position,
            velocity: body.velocity,
        };
        match config.mover_implementation {
            MoverImplementation::EulerExplicit() => mover_euler_explicit(
                ar,
                &mut new_body,
                force,
                timestep,
            ),
            MoverImplementation::EulerImplicit() => mover_euler_implicit(
                ar,
                &mut new_body,
                force,
                timestep,
            ),
        }
        assert(resultant_force_is(ar, system@, i as int, system@.len() as int, force));
        assert(moved_is(ar, config.mover_implementation, system@[i as int], force, timestep, new_body));
        bodies.push(new_body);
        i += 1;
    }
    System { bodies }
}

/// Under a deterministic arithmetic the resultant force is a function of the
/// bodies.
pub proof fn resultant_force_is_unique<A: Arithmetic>(
    ar: &A,
    bodies: Seq<Body>,
    receiver: int,
    count: int,
    first: Vector2,
    second: Vector2,
)
    requires
        is_deterministic(ar),
        resultant_force_is(ar, bodies, receiver, count, first),
        resultant_force_is(ar, bodies, receiver, count, second),
    ensures
        first == second,
    decreases count,
{
    if count > 0 {
        let (before1, pull1) = choose|before: Vector2, pull: Vector2|
            {
                &&& resultant_force_is(ar, bodies, receiver, count - 1, before)
                &&& gravity_force_vector_is(ar, bodies[receiver], bodies[count - 1], pull)
                &&& #[trigger] vec_sum_is(ar, before, pull, first)
            };
        let (before2, pull2) = choose|before: Vector2, pull: Vector2|
            {
                &&& resultant_force_is(ar, bodies, receiver, count - 1, before)
                &&& gravity_force_vector_is(ar, bodies[receiver], bodies[count - 1], pull)
                &&& #[trigger] vec_sum_is(ar, before, pull, second)
            };
        resultant_force_is_unique(ar, bodies, receiver, count - 1, before1, before2);
        gravity_force_vector_is_unique(ar, bodies[receiver], bodies[count - 1], pull1, pull2);
    }
}

/// Under a deterministic arithmetic a moved body is a function of the body,
/// the force, the time step and the rule.
pub proof fn moved_is_unique<A: Arithmetic>(
    ar: &A,
    mover: MoverImplementation,
    before: Body,
    force: Vector2,
    timestep: Scalar,
    first: Body,
    second: Body,
)
    requires
        is_deterministic(ar),
        moved_is(ar, mover, before, force, timestep, first),
        moved_is(ar, mover, before, force, timestep, second),
    ensures
        first.identical(&second),
{
}

/// Stepping is deterministic: under a deterministic arithmetic, two steps of
/// the same system with the same time step and the same rule give systems
/// that agree body by body and bit for bit.
pub proof fn system_timestep_is_deterministic<A: Arithmetic>(
    ar: &A,
    before: Seq<Body>,
    timestep: Scalar,
    mover: MoverImplementation,
    first: Seq<Body>,
    second: Seq<Body>,
)
    requires
        is_deterministic(ar),
        system_stepped_is(ar, before, timestep, mover, first),
        system_stepped_is(ar, before, timestep, mover, second),
    ensures
        first.len() == second.len(),
        forall|i: int| 0 <= i < first.len() ==> (#[trigger] first[i]).identical(&second[i]),
{
    assert forall|i: int| 0 <= i < first.len() implies (#[trigger] first[i]).identical(
        &second[i],
    ) by {
        assert(body_stepped_is(ar, before, i, timestep, mover, first[i]));
        assert(body_stepped_is(ar, before, i, timestep, mover, second[i]));
        let force1 = choose|force: Vector2|
            {
                &&& #[trigger] resultant_force_is(ar, before, i, before.len() as int, force)
                &&& moved_is(ar, mover, before[i], force, timestep, first[i])
            };
        let force2 = choose|force: Vector2|
            {
                &&& #[trigger] resultant_force_is(ar, before, i, before.len() as int, force)
                &&& moved_is(ar, mover, before[i], force, timestep, second[i])
            };
        resultant_force_is_unique(ar, before, i, before.len() as int, force1, force2);
        moved_is_unique(ar, mover, before[i], force1, timestep, first[i], second[i]);
    }
}

/// A body that is alone and holds no NaN is pulled by nothing: its resultant
/// force is what the arithmetic makes of zero plus zero.
pub proof fn lone_body_is_pulled_by_nothing<A: Arithmetic>(
    ar: &A,
    bodies: Seq<Body>,
    total: Vector2,
)
    requires
        bodies.len() == 1,
        bodies[0].is_number(),
        resultant_force_is(ar, bodies, 0, 1, total),
    ensures
        vec_sum_is(ar, Vector2::zero(), Vector2::zero(), total),
{
    let (before, pull) = choose|before: Vector2, pull: Vector2|
        {
            &&& resultant_force_is(ar, bodies, 0, 1 - 1, before)
            &&& gravity_force_vector_is(ar, bodies[0], bodies[1 - 1], pull)
            &&& #[trigger] vec_sum_is(ar, before, pull, total)
        };
    assert(resultant_force_is(ar, bodies, 0, 0, before));
}

} // verus!
