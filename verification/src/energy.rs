//! Kinetic, potential and total energy.

use crate::arithmetic::{
    dot_is, is_deterministic, length_is, product_is, quotient_is, sum_is, vec_difference_is,
    Arithmetic,
};
use crate::error::SimulationError;
use crate::scalar::{magnitude, Scalar, G_BITS, HALF_BITS, NEG_ONE_BITS};
use crate::types::{Body, System};
use crate::vector::Vector2;
use vstd::prelude::*;

verus! {

/// `energy` is a value that `0.5 * mass * (velocity . velocity)` may take, the
/// products taken from left to right.
pub open spec fn kinetic_energy_is<A: Arithmetic>(ar: &A, body: Body, energy: Scalar) -> bool {
    exists|half_mass: Scalar, speed_squared: Scalar|
        {
            &&& product_is(ar, Scalar { bits: HALF_BITS }, body.mass, half_mass)
            &&& dot_is(ar, body.velocity, body.velocity, speed_squared)
            &&& #[trigger] product_is(ar, half_mass, speed_squared, energy)
        }
}

/// `energy` is a value that the potential energy of `receiving` in the field
/// of `exerting` may take: exactly zero where the two bodies are equal, else
/// `G * mass_a * mass_b / |distance| * -1`.
pub open spec fn potential_energy_is<A: Arithmetic>(
    ar: &A,
    receiving: Body,
    exerting: Body,
    energy: Scalar,
) -> bool {
    if receiving.same_as(&exerting) {
        energy.bits == 0
    } else {
        exists|apart: Vector2, distance: Scalar, g_a: Scalar, g_a_b: Scalar, ratio: Scalar|
            {
                &&& vec_difference_is(ar, receiving.position, exerting.position, apart)
                &&& #[trigger] length_is(ar, apart, distance)
                &&& product_is(ar, Scalar { bits: G_BITS }, receiving.mass, g_a)
                &&& #[trigger] product_is(ar, g_a, exerting.mass, g_a_b)
                &&& #[trigger] quotient_is(
                    ar,
                    g_a_b,
                    Scalar { bits: magnitude(distance.bits) },
                    ratio,
                )
                &&& product_is(ar, ratio, Scalar { bits: NEG_ONE_BITS }, energy)
            }
    }
}

/// The pairs of one row: body `row` with each of the first `width` bodies.
pub open spec fn pair_row(row: int, width: int) -> Seq<(int, int)> {
    Seq::new(if width > 0 { width as nat } else { 0 }, |j: int| (row, j))
}

/// The pairs of bodies whose potential energy enters the total of the first
/// `n` bodies, in the order in which they are summed: each body with every
/// body before it.
pub open spec fn energy_pairs(n: nat) -> Seq<(int, int)>
    decreases n,
{
    if n == 0 {
        Seq::empty()
    } else {
        energy_pairs((n - 1) as nat) + pair_row(n - 1, n - 1)
    }
}

/// `total` is a value that the sum of the kinetic energies of the first
/// `count` bodies may take, summed in their order from zero.
pub open spec fn kinetic_sum_is<A: Arithmetic>(
    ar: &A,
    bodies: Seq<Body>,
    count: int,
    total: Scalar,
) -> bool
    decreases count,
{
    if count <= 0 {
        total.bits == 0
    } else {
        exists|before: Scalar, energy: Scalar|
            {
                &&& kinetic_sum_is(ar, bodies, count - 1, before)
                &&& kinetic_energy_is(ar, bodies[count - 1], energy)
                &&& #[trigger] sum_is(ar, before, energy, total)
            }
    }
}

/// `total` is a value that the sum of the potential energies of the given
/// pairs may take, summed in their order from zero.
pub open spec fn potential_sum_is<A: Arithmetic>(
    ar: &A,
    bodies: Seq<Body>,
    pairs: Seq<(int, int)>,
    total: Scalar,
) -> bool
    decreases pairs.len(),
{
    if pairs.len() == 0 {
        total.bits == 0
    } else {
        exists|before: Scalar, energy: Scalar|
            {
                &&& potential_sum_is(ar, bodies, pairs.drop_last(), before)
                &&& potential_energy_is(
                    ar,
                    bodies[pairs.last().0],
                    bodies[pairs.last().1],
                    energy,
                )
                &&& #[trigger] sum_is(ar, before, energy, total)
            }
    }
}

/// `energy` is a value that the total energy of the system may take: the sum
/// of all kinetic energies plus the sum of the potential energies of
/// `energy_pairs`.
pub open spec fn system_energy_is<A: Arithmetic>(ar: &A, bodies: Seq<Body>, energy: Scalar) -> bool {
    exists|kinetic: Scalar, potential: Scalar|
        {
            &&& kinetic_sum_is(ar, bodies, bodies.len() as int, kinetic)
            &&& potential_sum_is(ar, bodies, energy_pairs(bodies.len()), potential)
            &&& #[trigger] sum_is(ar, kinetic, potential, energy)
        }
}

/// The kinetic energy of a body, `E = 0.5 * m * v^2`.
pub fn calculate_kinetic_energy<A: Arithmetic>(ar: &A, body: &Body) -> (energy: Scalar)
    ensures
        kinetic_energy_is(ar, *body, energy),
{
    let half_mass = ar.mul(Scalar::from_bits(HALF_BITS), body.mass);
    let speed_squared = ar.dot(body.velocity, body.velocity);
    let energy = ar.mul(half_mass, speed_squared);
    assert(product_is(ar, half_mass, speed_squared, energy));
    energy
}

/// The potential energy of `receiving_body` in the gravitational field of
/// `exerting_body`.
///
/// Two equal bodies have no potential energy in each other's field: the
/// result is then `+0` and the arithmetic is not consulted.
pub fn calculate_potential_energy<A: Arithmetic>(
    ar: &A,
    receiving_body: &Body,
    exerting_body: &Body,
) -> (energy: Scalar)
    ensures
        potential_energy_is(ar, *receiving_body, *exerting_body, energy),
        receiving_body.same_as(exerting_body) ==> energy.bits == 0,
{
    if receiving_body == exerting_body {
        Scalar::zero()
    } else {
        let apart = ar.vec_sub(receiving_body.position, exerting_body.position);
        let distance = ar.length(apart);
        let g_a = ar.mul(Scalar::from_bits(G_BITS), receiving_body.mass);
        let g_a_b = ar.mul(g_a, exerting_body.mass);
        let ratio = ar.div(g_a_b, distance.abs());
        let energy = ar.mul(ratio, Scalar::from_bits(NEG_ONE_BITS));
        assert(length_is(ar, apart, distance));
        assert(product_is(ar, g_a, exerting_body.mass, g_a_b));
        assert(quotient_is(ar, g_a_b, Scalar { bits: magnitude(distance.bits) }, ratio));
        energy
    }
}

/// One more kinetic energy added to a sum is the sum over one more body.
pub proof fn kinetic_sum_extends<A: Arithmetic>(
    ar: &A,
    bodies: Seq<Body>,
    count: int,
    before: Scalar,
    energy: Scalar,
    total: Scalar,
)
    requires
        count > 0,
        kinetic_sum_is(ar, bodies, count - 1, before),
        kinetic_energy_is(ar, bodies[count - 1], energy),
        sum_is(ar, before, energy, total),
    ensures
        kinetic_sum_is(ar, bodies, count, total),
{
}

/// One more potential energy added to a sum is the sum over one more pair.
pub proof fn potential_sum_extends<A: Arithmetic>(
    ar: &A,
    bodies: Seq<Body>,
    pairs: Seq<(int, int)>,
    pair: (int, int),
    before: Scalar,
    energy: Scalar,
    total: Scalar,
)
    requires
        potential_sum_is(ar, bodies, pairs, before),
        potential_energy_is(ar, bodies[pair.0], bodies[pair.1], energy),
        sum_is(ar, before, energy, total),
    ensures
        potential_sum_is(ar, bodies, pairs.push(pair), total),
{
    let longer = pairs.push(pair);
    assert(longer.drop_last() =~= pairs);
    assert(longer.last() == pair);
}

/// The total energy of the system: the kinetic energy of every body, plus the
/// potential energy of every unordered pair of bodies, counted once.
///
/// Both sums start from `+0` and run in the order of the bodies; body `i` is
/// paired with the bodies before it, in their order. A system without bodies
/// has no energy to report.
pub fn calculate_system_energy<A: Arithmetic>(ar: &A, system: System) -> (result: Result<
    Scalar,
    SimulationError,
>)
    ensures
        system@.len() == 0 <==> result == Err::<Scalar, SimulationError>(
            SimulationError::EmptySystem,
        ),
        system@.len() > 0 <==> result is Ok,
        result matches Ok(energy) ==> system_energy_is(ar, system@, energy),
{
    if system.bodies.len() == 0 {
        return Err(SimulationError::EmptySystem);
    }
    let mut sum_of_kinetic = Scalar::zero();
    let mut sum_of_potential = Scalar::zero();
    let mut i: usize = 0;
    while i < system.bodies.len()
        invariant
            i <= system.bodies.len(),
            kinetic_sum_is(ar, system@, i as int, sum_of_kinetic),
            potential_sum_is(ar, system@, energy_pairs(i as nat), sum_of_potential),
        decreases system.bodies.len() - i,
    {
        let kinetic = calculate_kinetic_energy(ar, &system.bodies[i]);
        let more_kinetic = ar.add(sum_of_kinetic, kinetic);
        proof {
            kinetic_sum_extends(ar, system@, i + 1, sum_of_kinetic, kinetic, more_kinetic);
        }
        sum_of_kinetic = more_kinetic;
        let mut j: usize = 0;
        proof {
            assert(energy_pairs(i as nat) + pair_row(i as int, 0) =~= energy_pairs(i as nat));
        }
        while j < i
            invariant
                j <= i < system.bodies.len(),
                potential_sum_is(
                    ar,
                    system@,
                    energy_pairs(i as nat) + pair_row(i as int, j as int),
                    sum_of_potential,
                ),
            decreases i - j,
        {
            let potential = calculate_potential_energy(ar, &system.bodies[i], &system.bodies[j]);
            let more_potential = ar.add(sum_of_potential, potential);
            proof {
                let pairs = energy_pairs(i as nat) + pair_row(i as int, j as int);
                potential_sum_extends(
                    ar,
                    system@,
                    pairs,
                    (i as int, j as int),
                    sum_of_potential,
                    potential,
                    more_potential,
                );
                assert(pairs.push((i as int, j as int)) =~= energy_pairs(i as nat) + pair_row(
                    i as int,
                    j + 1,
                ));
            }
            sum_of_potential = more_potential;
            j += 1;
        }
        i += 1;
    }
    let energy = ar.add(sum_of_kinetic, sum_of_potential);
    assert(sum_is(ar, sum_of_kinetic, sum_of_potential, energy));
    Ok(energy)
}

/// The place of the pair `(a, b)` in `energy_pairs`: the rows before row `a`
/// hold `a * (a - 1) / 2` pairs.
pub open spec fn pair_rank(a: int, b: int) -> int {
    a * (a - 1) / 2 + b
}

/// `energy_pairs(n)` holds `n * (n - 1) / 2` pairs, not `n * n`: every pair
/// `(a, b)` with `b < a < n` stands at its rank, and nothing else stands
/// anywhere. So each unordered pair of distinct bodies is counted exactly
/// once, and no body is paired with itself.
pub proof fn energy_pairs_cover_each_pair_once(n: nat)
    ensures
        energy_pairs(n).len() == n * (n - 1) / 2,
        forall|a: int, b: int|
            0 <= b < a < n ==> 0 <= #[trigger] pair_rank(a, b) < energy_pairs(n).len()
                && energy_pairs(n)[pair_rank(a, b)] == (a, b),
        forall|k: int|
            0 <= k < energy_pairs(n).len() ==> {
                let (a, b) = #[trigger] energy_pairs(n)[k];
                0 <= b < a < n && k == pair_rank(a, b)
            },
    decreases n,
{
    if n > 0 {
        let m = (n - 1) as nat;
        energy_pairs_cover_each_pair_once(m);
        let shorter = energy_pairs(m);
        let row = pair_row(m as int, m as int);
        assert(n * (n - 1) / 2 == m * (m - 1) / 2 + m) by (nonlinear_arith)
            requires
                n == m + 1,
        ;
        assert(energy_pairs(n) == shorter + row);
        assert forall|a: int, b: int| 0 <= b < a < n implies 0 <= #[trigger] pair_rank(a, b)
            < energy_pairs(n).len() && energy_pairs(n)[pair_rank(a, b)] == (a, b) by {
            if a < m {
                assert(pair_rank(a, b) < shorter.len());
                assert(shorter[pair_rank(a, b)] == (a, b));
            } else {
                assert(pair_rank(a, b) == shorter.len() + b);
                assert(row[b] == (a, b));
            }
        }
        assert forall|k: int| 0 <= k < energy_pairs(n).len() implies {
            let (a, b) = #[trigger] energy_pairs(n)[k];
            0 <= b < a < n && k == pair_rank(a, b)
        } by {
            if k < shorter.len() {
                assert(energy_pairs(n)[k] == shorter[k]);
            } else {
                assert(energy_pairs(n)[k] == row[k - shorter.len()]);
            }
        }
    } else {
        assert(n * (n - 1) / 2 == 0) by (nonlinear_arith)
            requires
                n == 0,
        ;
    }
}

/// Under a deterministic arithmetic the kinetic energy is a function of the
/// body.
pub proof fn kinetic_energy_is_unique<A: Arithmetic>(
    ar: &A,
    body: Body,
    first: Scalar,
    second: Scalar,
)
    requires
        is_deterministic(ar),
        kinetic_energy_is(ar, body, first),
        kinetic_energy_is(ar, body, second),
    ensures
        first == second,
{
}

/// Under a deterministic arithmetic the potential energy is a function of the
/// two bodies.
pub proof fn potential_energy_is_unique<A: Arithmetic>(
    ar: &A,
    receiving: Body,
    exerting: Body,
    first: Scalar,
    second: Scalar,
)
    requires
        is_deterministic(ar),
        potential_energy_is(ar, receiving, exerting, first),
        potential_energy_is(ar, receiving, exerting, second),
    ensures
        first == second,
{
}

/// Under a deterministic arithmetic the sum of the kinetic energies is a
/// function of the bodies.
pub proof fn kinetic_sum_is_unique<A: Arithmetic>(
    ar: &A,
    bodies: Seq<Body>,
    count: int,
    first: Scalar,
    second: Scalar,
)
    requires
        is_deterministic(ar),
        kinetic_sum_is(ar, bodies, count, first),
        kinetic_sum_is(ar, bodies, count, second),
    ensures
        first == second,
    decreases count,
{
    if count > 0 {
        let (before1, energy1) = choose|before: Scalar, energy: Scalar|
            {
                &&& kinetic_sum_is(ar, bodies, count - 1, before)
                &&& kinetic_energy_is(ar, bodies[count - 1], energy)
                &&& #[trigger] sum_is(ar, before, energy, first)
            };
        let (before2, energy2) = choose|before: Scalar, energy: Scalar|
            {
                &&& kinetic_sum_is(ar, bodies, count - 1, before)
                &&& kinetic_energy_is(ar, bodies[count - 1], energy)
                &&& #[trigger] sum_is(ar, before, energy, second)
            };
        kinetic_sum_is_unique(ar, bodies, count - 1, before1, before2);
        kinetic_energy_is_unique(ar, bodies[count - 1], energy1, energy2);
    }
}

/// Under a deterministic arithmetic the sum of the potential energies is a
/// function of the bodies and the pairs.
pub proof fn potential_sum_is_unique<A: Arithmetic>(
    ar: &A,
    bodies: Seq<Body>,
    pairs: Seq<(int, int)>,
    first: Scalar,
    second: Scalar,
)
    requires
        is_deterministic(ar),
        potential_sum_is(ar, bodies, pairs, first),
        potential_sum_is(ar, bodies, pairs, second),
    ensures
        first == second,
    decreases pairs.len(),
{
    if pairs.len() > 0 {
        let (before1, energy1) = choose|before: Scalar, energy: Scalar|
            {
                &&& potential_sum_is(ar, bodies, pairs.drop_last(), before)
                &&& potential_energy_is(
                    ar,
                    bodies[pairs.last().0],
                    bodies[pairs.last().1],
                    energy,
                )
                &&& #[trigger] sum_is(ar, before, energy, first)
            };
        let (before2, energy2) = choose|before: Scalar, energy: Scalar|
            {
                &&& potential_sum_is(ar, bodies, pairs.drop_last(), before)
                &&& potential_energy_is(
                    ar,
                    bodies[pairs.last().0],
                    bodies[pairs.last().1],
                    energy,
                )
                &&& #[trigger] sum_is(ar, before, energy, second)
            };
        potential_sum_is_unique(ar, bodies, pairs.drop_last(), before1, before2);
        potential_energy_is_unique(
            ar,
            bodies[pairs.last().0],
            bodies[pairs.last().1],
            energy1,
            energy2,
        );
    }
}

/// Under a deterministic arithmetic the total energy is a function of the
/// bodies.
pub proof fn system_energy_is_unique<A: Arithmetic>(
    ar: &A,
    bodies: Seq<Body>,
    first: Scalar,
    second: Scalar,
)
    requires
        is_deterministic(ar),
        system_energy_is(ar, bodies, first),
        system_energy_is(ar, bodies, second),
    ensures
        first == second,
{
    let (kinetic1, potential1) = choose|kinetic: Scalar, potential: Scalar|
        {
            &&& kinetic_sum_is(ar, bodies, bodies.len() as int, kinetic)
            &&& potential_sum_is(ar, bodies, energy_pairs(bodies.len()), potential)
            &&& #[trigger] sum_is(ar, kinetic, potential, first)
        };
    let (kinetic2, potential2) = choose|kinetic: Scalar, potential: Scalar|
        {
            &&& kinetic_sum_is(ar, bodies, bodies.len() as int, kinetic)
            &&& potential_sum_is(ar, bodies, energy_pairs(bodies.len()), potential)
            &&& #[trigger] sum_is(ar, kinetic, potential, second)
        };
    kinetic_sum_is_unique(ar, bodies, bodies.len() as int, kinetic1, kinetic2);
    potential_sum_is_unique(ar, bodies, energy_pairs(bodies.len()), potential1, potential2);
}

} // verus!
