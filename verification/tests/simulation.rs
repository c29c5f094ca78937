use kepler_core::arithmetic::Arithmetic;
use kepler_core::center_of_mass::calculcate_center_of_mass;
use kepler_core::energy::{
    calculate_kinetic_energy, calculate_potential_energy, calculate_system_energy,
};
use kepler_core::error::SimulationError;
use kepler_core::force::{gravity_force, gravity_force_vector};
use kepler_core::impulse::{calculate_impulse, calculate_total_impulse};
use kepler_core::mover::{
    mover_euler_explicit, mover_euler_implicit, resultant_force, system_timestep,
};
use kepler_core::scalar::Scalar;
use kepler_core::types::{Body, MoverImplementation, SimulationConfig, System};
use kepler_core::vector::Vector2;
use maths_rs::{dot, length, Vec2d};
use std::cell::Cell;

const MASS_EARTH: f64 = 5.972e24;
const MASS_MOON: f64 = 7.34e22;
const MASS_SUN: f64 = 1.989e30;
const G: f64 = 6.674e-11;

/// Hardware binary64 arithmetic; vectors go through maths_rs.
struct Ieee;

fn num(s: Scalar) -> f64 {
    f64::from_bits(s.bits)
}

fn sc(x: f64) -> Scalar {
    Scalar { bits: x.to_bits() }
}

fn vec2d(v: Vector2) -> Vec2d {
    Vec2d::new(num(v.x), num(v.y))
}

fn vector(v: Vec2d) -> Vector2 {
    Vector2 { x: sc(v.x), y: sc(v.y) }
}

fn xy(x: f64, y: f64) -> Vector2 {
    Vector2 { x: sc(x), y: sc(y) }
}

impl Arithmetic for Ieee {
    fn add(&self, a: Scalar, b: Scalar) -> Scalar {
        sc(num(a) + num(b))
    }

    fn mul(&self, a: Scalar, b: Scalar) -> Scalar {
        sc(num(a) * num(b))
    }

    fn div(&self, a: Scalar, b: Scalar) -> Scalar {
        sc(num(a) / num(b))
    }

    fn powf(&self, a: Scalar, e: Scalar) -> Scalar {
        sc(num(a).powf(num(e)))
    }

    fn vec_add(&self, a: Vector2, b: Vector2) -> Vector2 {
        vector(vec2d(a) + vec2d(b))
    }

    fn vec_sub(&self, a: Vector2, b: Vector2) -> Vector2 {
        vector(vec2d(a) - vec2d(b))
    }

    fn vec_mul(&self, v: Vector2, s: Scalar) -> Vector2 {
        vector(vec2d(v) * num(s))
    }

    fn vec_div(&self, v: Vector2, s: Scalar) -> Vector2 {
        vector(vec2d(v) / num(s))
    }

    fn scale(&self, s: Scalar, v: Vector2) -> Vector2 {
        vector(num(s) * vec2d(v))
    }

    fn length(&self, v: Vector2) -> Scalar {
        sc(length(vec2d(v)))
    }

    fn dot(&self, a: Vector2, b: Vector2) -> Scalar {
        sc(dot(vec2d(a), vec2d(b)))
    }
}

/// Counts the calls of each kind, and answers as `Ieee` does.
struct Counting {
    lengths: Cell<usize>,
    dots: Cell<usize>,
    vec_adds: Cell<usize>,
    scales: Cell<usize>,
}

impl Counting {
    fn new() -> Counting {
        Counting {
            lengths: Cell::new(0),
            dots: Cell::new(0),
            vec_adds: Cell::new(0),
            scales: Cell::new(0),
        }
    }
}

impl Arithmetic for Counting {
    fn add(&self, a: Scalar, b: Scalar) -> Scalar {
        Ieee.add(a, b)
    }

    fn mul(&self, a: Scalar, b: Scalar) -> Scalar {
        Ieee.mul(a, b)
    }

    fn div(&self, a: Scalar, b: Scalar) -> Scalar {
        Ieee.div(a, b)
    }

    fn powf(&self, a: Scalar, e: Scalar) -> Scalar {
        Ieee.powf(a, e)
    }

    fn vec_add(&self, a: Vector2, b: Vector2) -> Vector2 {
        self.vec_adds.set(self.vec_adds.get() + 1);
        Ieee.vec_add(a, b)
    }

    fn vec_sub(&self, a: Vector2, b: Vector2) -> Vector2 {
        Ieee.vec_sub(a, b)
    }

    fn vec_mul(&self, v: Vector2, s: Scalar) -> Vector2 {
        Ieee.vec_mul(v, s)
    }

    fn vec_div(&self, v: Vector2, s: Scalar) -> Vector2 {
        Ieee.vec_div(v, s)
    }

    fn scale(&self, s: Scalar, v: Vector2) -> Vector2 {
        self.scales.set(self.scales.get() + 1);
        Ieee.scale(s, v)
    }

    fn length(&self, v: Vector2) -> Scalar {
        self.lengths.set(self.lengths.get() + 1);
        Ieee.length(v)
    }

    fn dot(&self, a: Vector2, b: Vector2) -> Scalar {
        self.dots.set(self.dots.get() + 1);
        Ieee.dot(a, b)
    }
}

fn body(name: &str, mass: f64, position: (f64, f64), velocity: (f64, f64)) -> Body {
    Body {
        name: name.to_owned(),
        mass: sc(mass),
        position: xy(position.0, position.1),
        velocity: xy(velocity.0, velocity.1),
    }
}

fn earth_and_moon() -> System {
    System {
        bodies: vec![
            Body {
                name: "Earth".to_owned(),
                mass: sc(MASS_EARTH),
                position: xy(0.0, 0.0),
                velocity: xy(0.0, 0.0),
            },
            Body {
                name: "Moon".to_owned(),
                mass: sc(MASS_MOON),
                position: xy(4.0e9, 0.0),
                velocity: xy(0.0, -5.0e3),
            },
        ],
    }
}

fn implicit() -> SimulationConfig {
    SimulationConfig { mover_implementation: MoverImplementation::EulerImplicit() }
}

fn explicit() -> SimulationConfig {
    SimulationConfig { mover_implementation: MoverImplementation::EulerExplicit() }
}

fn bits_of(system: &System) -> Vec<(String, u64, u64, u64, u64, u64)> {
    system
        .bodies
        .iter()
        .map(|b| {
            (
                b.name.clone(),
                b.mass.bits,
                b.position.x.bits,
                b.position.y.bits,
                b.velocity.x.bits,
                b.velocity.y.bits,
            )
        })
        .collect()
}

#[test]
fn lib_test_system_timestep() {
    let mut system = earth_and_moon();

    println!("System start\n {:#?}", &system);

    let timestep = 3600.0;
    for _ in 0..100 {
        system = system_timestep(&Ieee, system, sc(timestep), implicit());
    }
    println!("System end\n {:#?}", &system);
    assert_eq!(system.bodies.len(), 2);
}

#[test]
fn mover_test_system_timestep() {
    let mut system = earth_and_moon();

    let timestep = 3600.0;
    for _ in 0..100 {
        system = system_timestep(
            &Ieee,
            system,
            sc(timestep),
            SimulationConfig { mover_implementation: MoverImplementation::EulerImplicit() },
        );
    }
    assert_eq!(system.bodies.len(), 2);
    assert_eq!(system.bodies[0].name, "Earth");
    assert_eq!(system.bodies[1].name, "Moon");
}

#[test]
fn lib_force_between_earth_and_sun() {
    let d = 149597870700.0;

    let result = num(gravity_force(&Ieee, sc(MASS_EARTH), sc(MASS_SUN), sc(d)));
    assert!(3.5423377e22 > result);
    assert!(3.5423376e22 < result);
}

#[test]
fn force_force_between_earth_and_sun() {
    let d = 149597870700.0;

    let result = num(gravity_force(&Ieee, sc(MASS_EARTH), sc(MASS_SUN), sc(d)));
    assert!(3.5423377e22 > result);
    assert!(3.5423376e22 < result);
}

#[test]
fn lib_force_between_earth_and_sun_vector() {
    let body_a = Body {
        mass: sc(5.972e24),
        name: "Earth".to_owned(),
        position: xy(1.495978707e11, 0.0),
        velocity: xy(0.0, 2.98e7),
    };
    let body_b = Body {
        mass: sc(1.989e30),
        name: "Sun".to_owned(),
        position: xy(0.0, 0.0),
        velocity: xy(0.0, 0.0),
    };
    let result = vec2d(gravity_force_vector(&Ieee, &body_a, &body_b));
    let distance_vec = vec2d(body_a.position) - vec2d(body_b.position);
    // The resulting force points toward the other body
    assert!(result.x * distance_vec.y == result.y * distance_vec.x);
}

#[test]
fn force_force_between_earth_and_sun_vector() {
    let body_a = Body {
        mass: sc(5.972e24),
        name: "Earth".to_owned(),
        position: xy(1.495978707e11, 0.0),
        velocity: xy(0.0, 2.98e7),
    };
    let body_b = Body {
        mass: sc(1.989e30),
        name: "Sun".to_owned(),
        position: xy(0.0, 0.0),
        velocity: xy(0.0, 0.0),
    };
    let result = vec2d(gravity_force_vector(&Ieee, &body_a, &body_b));
    let distance_vec = vec2d(body_a.position) - vec2d(body_b.position);
    // The resulting force points towards the other body
    assert!(result.x * distance_vec.y == result.y * distance_vec.x);
}

#[test]
fn earth_sun_force_matches_documented_value() {
    let result = num(gravity_force(&Ieee, sc(MASS_EARTH), sc(MASS_SUN), sc(1.495978707e11)));
    assert!((result - 3.54233765e22).abs() < 1e15);
    assert_eq!(result, G * MASS_EARTH * MASS_SUN / 1.495978707e11f64.powf(2.0));
}

#[test]
fn zero_distance_gives_infinity() {
    let result = num(gravity_force(&Ieee, sc(1.0), sc(1.0), sc(0.0)));
    assert!(result.is_infinite() && result > 0.0);
}

#[test]
fn force_pulls_towards_the_other_body() {
    let a = body("a", 3.0e10, (2.0, 0.0), (0.0, 0.0));
    let b = body("b", 5.0e10, (0.0, 0.0), (0.0, 0.0));
    let on_a = vec2d(gravity_force_vector(&Ieee, &a, &b));
    let on_b = vec2d(gravity_force_vector(&Ieee, &b, &a));
    let size = G * 3.0e10 * 5.0e10 / 4.0;
    assert_eq!(on_a.x, -size);
    assert_eq!(on_a.y, 0.0);
    assert_eq!(on_b.x, size);
    assert_eq!(on_b.y, 0.0);
}

#[test]
fn forces_are_collinear_and_opposite() {
    let a = body("a", 4.0e20, (1.0e6, -3.0e6), (1.0, 2.0));
    let b = body("b", 9.0e21, (-7.0e6, 2.5e6), (0.0, -1.0));
    let on_a = vec2d(gravity_force_vector(&Ieee, &a, &b));
    let on_b = vec2d(gravity_force_vector(&Ieee, &b, &a));
    let apart = vec2d(a.position) - vec2d(b.position);
    let size = length(on_a);
    let cross = on_a.x * apart.y - on_a.y * apart.x;
    assert!(cross.abs() <= 1e-9 * size * length(apart));
    assert!((on_a.x + on_b.x).abs() <= 1e-9 * size);
    assert!((on_a.y + on_b.y).abs() <= 1e-9 * size);
    assert!(dot(on_a, apart) < 0.0);
    assert!(dot(on_b, apart) > 0.0);
}

#[test]
fn self_force_is_exactly_zero() {
    let a = body("a", 4.0e20, (1.0e6, -3.0e6), (1.0, 2.0));
    let force = gravity_force_vector(&Ieee, &a, &a);
    assert_eq!(force.x.bits, 0);
    assert_eq!(force.y.bits, 0);
    let twin = a.clone();
    let force = gravity_force_vector(&Ieee, &a, &twin);
    assert_eq!(force.x.bits, 0);
    assert_eq!(force.y.bits, 0);
}

#[test]
fn body_with_nan_is_no_self() {
    let a = body("a", f64::NAN, (1.0, 1.0), (0.0, 0.0));
    assert!(a != a.clone());
    let force = vec2d(gravity_force_vector(&Ieee, &a, &a));
    assert!(force.x.is_nan());
    let energy = num(calculate_potential_energy(&Ieee, &a, &a));
    assert!(energy.is_nan());
}

#[test]
fn bodies_differing_in_name_only_are_distinct() {
    let a = body("a", 2.0, (1.0, 0.0), (0.0, 0.0));
    let b = body("b", 2.0, (1.0, 0.0), (0.0, 0.0));
    assert!(a != b);
    let force = vec2d(gravity_force_vector(&Ieee, &a, &b));
    assert!(force.x.is_nan());
}

#[test]
fn signed_zeros_are_the_same_body() {
    let a = body("a", 2.0, (0.0, 0.0), (0.0, 0.0));
    let b = body("a", 2.0, (-0.0, 0.0), (0.0, -0.0));
    assert!(a == b);
    let force = gravity_force_vector(&Ieee, &a, &b);
    assert_eq!((force.x.bits, force.y.bits), (0, 0));
    assert_eq!(calculate_potential_energy(&Ieee, &a, &b).bits, 0);
}

#[test]
fn explicit_rule_uses_the_old_velocity() {
    let mut b = body("b", 2.0, (10.0, 20.0), (3.0, -4.0));
    mover_euler_explicit(&Ieee, &mut b, xy(8.0, 6.0), sc(0.5));
    assert_eq!(vec2d(b.position), Vec2d::new(11.5, 18.0));
    assert_eq!(vec2d(b.velocity), Vec2d::new(5.0, -2.5));
    assert_eq!(b.name, "b");
    assert_eq!(num(b.mass), 2.0);
}

#[test]
fn implicit_rule_uses_the_new_velocity() {
    let mut b = body("b", 2.0, (10.0, 20.0), (3.0, -4.0));
    mover_euler_implicit(&Ieee, &mut b, xy(8.0, 6.0), sc(0.5));
    assert_eq!(vec2d(b.velocity), Vec2d::new(5.0, -2.5));
    assert_eq!(vec2d(b.position), Vec2d::new(12.5, 18.75));
    assert_eq!(b.name, "b");
    assert_eq!(num(b.mass), 2.0);
}

#[test]
fn default_configuration_is_explicit() {
    let config = SimulationConfig::default();
    assert_eq!(config.mover_implementation, MoverImplementation::EulerExplicit());
    let mut by_default = system_timestep(&Ieee, earth_and_moon(), sc(3600.0), config);
    let mut by_name = system_timestep(&Ieee, earth_and_moon(), sc(3600.0), explicit());
    assert_eq!(bits_of(&by_default), bits_of(&by_name));
    by_default = system_timestep(&Ieee, by_default, sc(3600.0), implicit());
    by_name = system_timestep(&Ieee, by_name, sc(3600.0), explicit());
    assert_ne!(bits_of(&by_default), bits_of(&by_name));
}

#[test]
fn one_step_of_two_bodies() {
    let system = System {
        bodies: vec![
            body("a", 1.0e10, (0.0, 0.0), (0.0, 1.0)),
            body("b", 2.0e10, (2.0, 0.0), (0.0, -1.0)),
        ],
    };
    let size = G * 1.0e10 * 2.0e10 / 4.0;
    let dt = 0.5;
    let next = system_timestep(&Ieee, system.clone(), sc(dt), explicit());
    assert_eq!(next.bodies.len(), 2);
    assert_eq!(vec2d(next.bodies[0].position), Vec2d::new(0.0, 0.5));
    assert_eq!(vec2d(next.bodies[1].position), Vec2d::new(2.0, -0.5));
    let va = Vec2d::new(0.0, 1.0) + (Vec2d::new(0.0, 0.0) + Vec2d::new(size, 0.0)) / 1.0e10 * dt;
    let vb = Vec2d::new(0.0, -1.0) + (Vec2d::new(-size, 0.0) + Vec2d::new(0.0, 0.0)) / 2.0e10 * dt;
    assert_eq!(vec2d(next.bodies[0].velocity), va);
    assert_eq!(vec2d(next.bodies[1].velocity), vb);

    let next = system_timestep(&Ieee, system, sc(dt), implicit());
    assert_eq!(vec2d(next.bodies[0].velocity), va);
    assert_eq!(vec2d(next.bodies[1].velocity), vb);
    assert_eq!(vec2d(next.bodies[0].position), Vec2d::new(0.0, 0.0) + va * dt);
    assert_eq!(vec2d(next.bodies[1].position), Vec2d::new(2.0, 0.0) + vb * dt);
}

#[test]
fn step_keeps_order_names_and_masses() {
    let system = System {
        bodies: vec![
            body("c", 3.0e10, (0.0, 5.0), (0.0, 1.0)),
            body("a", 1.0e10, (0.0, 0.0), (0.0, 1.0)),
            body("b", 2.0e10, (2.0, 0.0), (0.0, -1.0)),
        ],
    };
    let next = system_timestep(&Ieee, system.clone(), sc(10.0), implicit());
    assert_eq!(next.bodies.len(), 3);
    for (before, after) in system.bodies.iter().zip(next.bodies.iter()) {
        assert_eq!(before.name, after.name);
        assert_eq!(before.mass.bits, after.mass.bits);
    }
}

#[test]
fn step_of_empty_system_is_empty() {
    let next = system_timestep(&Ieee, System { bodies: vec![] }, sc(1.0), explicit());
    assert!(next.bodies.is_empty());
}

#[test]
fn stepping_twice_gives_identical_systems() {
    for config in [explicit(), implicit()] {
        let mut first = earth_and_moon();
        let mut second = earth_and_moon();
        for _ in 0..50 {
            first = system_timestep(&Ieee, first, sc(3600.0), config);
            second = system_timestep(&Ieee, second, sc(3600.0), config);
            assert_eq!(bits_of(&first), bits_of(&second));
        }
    }
}

#[test]
fn single_body_keeps_velocity_and_advances() {
    for config in [explicit(), implicit()] {
        let system = System { bodies: vec![body("lone", 5.0e3, (1.0, 2.0), (3.0, -4.0))] };
        let next = system_timestep(&Ieee, system, sc(2.0), config);
        assert_eq!(next.bodies.len(), 1);
        assert_eq!(vec2d(next.bodies[0].velocity), Vec2d::new(3.0, -4.0));
        assert_eq!(vec2d(next.bodies[0].position), Vec2d::new(7.0, -6.0));
    }
    let system = System { bodies: vec![body("still", 5.0e3, (1.0, 2.0), (0.0, 0.0))] };
    let next = system_timestep(&Ieee, system, sc(2.0), explicit());
    assert_eq!(vec2d(next.bodies[0].velocity), Vec2d::new(0.0, 0.0));
    assert_eq!(vec2d(next.bodies[0].position), Vec2d::new(1.0, 2.0));
}

#[test]
fn zero_mass_is_not_rejected() {
    let system = System {
        bodies: vec![body("a", 0.0, (0.0, 0.0), (0.0, 0.0)), body("b", 1.0, (1.0, 0.0), (0.0, 0.0))],
    };
    let next = system_timestep(&Ieee, system, sc(1.0), explicit());
    assert!(num(next.bodies[0].velocity.x).is_nan());
}

#[test]
fn resultant_force_sums_all_pulls_in_order() {
    let bodies = vec![
        body("a", 1.0e10, (0.0, 0.0), (0.0, 0.0)),
        body("b", 2.0e10, (2.0, 0.0), (0.0, 0.0)),
        body("c", 4.0e10, (0.0, 4.0), (0.0, 0.0)),
    ];
    let total = vec2d(resultant_force(&Ieee, &bodies, 0));
    let expected = Vec2d::new(0.0, 0.0)
        + Vec2d::new(0.0, 0.0)
        + vec2d(gravity_force_vector(&Ieee, &bodies[0], &bodies[1]))
        + vec2d(gravity_force_vector(&Ieee, &bodies[0], &bodies[2]));
    assert_eq!(total, expected);
    assert_eq!(total.x, G * 1.0e10 * 2.0e10 / 4.0);
    assert_eq!(total.y, G * 1.0e10 * 4.0e10 / 16.0);
}

#[test]
fn step_evaluates_every_ordered_pair() {
    let counting = Counting::new();
    let system = System {
        bodies: vec![
            body("a", 1.0e10, (0.0, 0.0), (0.0, 0.0)),
            body("b", 2.0e10, (2.0, 0.0), (0.0, 0.0)),
            body("c", 4.0e10, (0.0, 4.0), (0.0, 0.0)),
            body("d", 4.0e10, (3.0, 4.0), (0.0, 0.0)),
        ],
    };
    system_timestep(&counting, system, sc(1.0), explicit());
    // a length is taken for every pair but the four self-pairs
    assert_eq!(counting.lengths.get(), 4 * 4 - 4);
    // sixteen pulls are summed, and each body gets two Euler additions
    assert_eq!(counting.vec_adds.get(), 4 * 4 + 2 * 4);
}

#[test]
fn kinetic_energy_of_a_body() {
    let b = body("b", 4.0, (0.0, 0.0), (3.0, -4.0));
    assert_eq!(num(calculate_kinetic_energy(&Ieee, &b)), 50.0);
}

#[test]
fn potential_energy_of_a_pair() {
    let a = body("a", 3.0e10, (2.0, 0.0), (0.0, 0.0));
    let b = body("b", 5.0e10, (0.0, 0.0), (0.0, 0.0));
    let expected = (G * 3.0e10 * 5.0e10 / 2.0) * -1.0;
    assert_eq!(num(calculate_potential_energy(&Ieee, &a, &b)), expected);
    assert_eq!(num(calculate_potential_energy(&Ieee, &b, &a)), (G * 5.0e10 * 3.0e10 / 2.0) * -1.0);
    assert_eq!(calculate_potential_energy(&Ieee, &a, &a).bits, 0);
}

#[test]
fn system_energy_counts_each_pair_once() {
    let a = body("a", 1.0e10, (0.0, 0.0), (1.0, 0.0));
    let b = body("b", 2.0e10, (2.0, 0.0), (0.0, 2.0));
    let c = body("c", 4.0e10, (0.0, 4.0), (0.0, 0.0));
    let system = System { bodies: vec![a.clone(), b.clone(), c.clone()] };
    let kinetic = 0.0 + 0.5 * 1.0e10 * 1.0 + 0.5 * 2.0e10 * 4.0 + 0.5 * 4.0e10 * 0.0;
    let potential = 0.0
        + num(calculate_potential_energy(&Ieee, &b, &a))
        + num(calculate_potential_energy(&Ieee, &c, &a))
        + num(calculate_potential_energy(&Ieee, &c, &b));
    let energy = calculate_system_energy(&Ieee, system.clone()).unwrap();
    assert_eq!(num(energy), kinetic + potential);

    let counting = Counting::new();
    calculate_system_energy(&counting, system).unwrap();
    assert_eq!(counting.dots.get(), 3);
    assert_eq!(counting.lengths.get(), 3 * 2 / 2);

    let counting = Counting::new();
    let five = System {
        bodies: (0..5).map(|i| body("n", 1.0 + i as f64, (i as f64, 0.0), (0.0, 0.0))).collect(),
    };
    calculate_system_energy(&counting, five).unwrap();
    assert_eq!(counting.lengths.get(), 5 * 4 / 2);
}

#[test]
fn energy_of_a_single_body_is_kinetic() {
    let system = System { bodies: vec![body("b", 4.0, (0.0, 0.0), (3.0, -4.0))] };
    assert_eq!(num(calculate_system_energy(&Ieee, system).unwrap()), 50.0);
}

#[test]
fn impulse_of_a_body() {
    let b = body("b", 4.0, (0.0, 0.0), (3.0, -4.0));
    assert_eq!(vec2d(calculate_impulse(&Ieee, &b)), Vec2d::new(12.0, -16.0));
}

#[test]
fn total_impulse_sums_all_bodies() {
    let system = System {
        bodies: vec![
            body("a", 4.0, (0.0, 0.0), (3.0, -4.0)),
            body("b", 2.0, (1.0, 0.0), (-1.0, 0.5)),
            body("c", 1.0, (2.0, 0.0), (0.25, 0.0)),
        ],
    };
    let total = calculate_total_impulse(&Ieee, &system).unwrap();
    assert_eq!(vec2d(total), Vec2d::new(10.25, -15.0));
    let counting = Counting::new();
    calculate_total_impulse(&counting, &system).unwrap();
    assert_eq!(counting.scales.get(), 3);
    assert_eq!(counting.vec_adds.get(), 2);
}

#[test]
fn total_impulse_of_one_body_is_its_impulse() {
    let system = System { bodies: vec![body("a", -0.0, (0.0, 0.0), (3.0, 0.0))] };
    let total = calculate_total_impulse(&Ieee, &system).unwrap();
    assert_eq!(total.x.bits, (-0.0f64).to_bits());
}

#[test]
fn center_of_mass_is_normalised() {
    let system = System {
        bodies: vec![
            body("a", 1.0, (0.0, 0.0), (0.0, 0.0)),
            body("b", 3.0, (4.0, 8.0), (0.0, 0.0)),
        ],
    };
    let center = calculcate_center_of_mass(&Ieee, &system).unwrap();
    assert_eq!(vec2d(center), Vec2d::new(3.0, 6.0));
    let single = System { bodies: vec![body("a", 2.0, (5.0, -7.0), (0.0, 0.0))] };
    assert_eq!(vec2d(calculcate_center_of_mass(&Ieee, &single).unwrap()), Vec2d::new(5.0, -7.0));
}

#[test]
fn center_of_zero_total_mass_is_not_rejected() {
    let system = System {
        bodies: vec![
            body("a", 1.0, (1.0, 0.0), (0.0, 0.0)),
            body("b", -1.0, (4.0, 8.0), (0.0, 0.0)),
        ],
    };
    let center = vec2d(calculcate_center_of_mass(&Ieee, &system).unwrap());
    assert!(center.x.is_infinite() && center.y.is_infinite());
}

#[test]
fn aggregates_of_an_empty_system_fail() {
    let empty = System { bodies: vec![] };
    assert_eq!(calculate_total_impulse(&Ieee, &empty).unwrap_err(), SimulationError::EmptySystem);
    assert_eq!(calculcate_center_of_mass(&Ieee, &empty).unwrap_err(), SimulationError::EmptySystem);
    assert_eq!(calculate_system_energy(&Ieee, empty).unwrap_err(), SimulationError::EmptySystem);
}

fn relative_drift(config: SimulationConfig, steps: usize) -> (f64, f64) {
    let mut system = earth_and_moon();
    let energy_start = num(calculate_system_energy(&Ieee, system.clone()).unwrap());
    let impulse_start = vec2d(calculate_total_impulse(&Ieee, &system).unwrap());
    for _ in 0..steps {
        system = system_timestep(&Ieee, system, sc(3600.0), config);
    }
    let energy_end = num(calculate_system_energy(&Ieee, system.clone()).unwrap());
    let impulse_end = vec2d(calculate_total_impulse(&Ieee, &system).unwrap());
    (
        ((energy_end - energy_start) / energy_start).abs(),
        length(impulse_end - impulse_start) / length(impulse_start),
    )
}

#[test]
fn energy_and_momentum_are_conserved() {
    let (energy_implicit, impulse_implicit) = relative_drift(implicit(), 100);
    let (energy_explicit, impulse_explicit) = relative_drift(explicit(), 100);
    assert!(energy_implicit < 1e-3);
    assert!(energy_explicit < 1e-3);
    assert!(impulse_implicit < 1e-3);
    assert!(impulse_explicit < 1e-3);
    assert!(energy_implicit <= energy_explicit);
}

#[test]
fn center_of_mass_rests_without_net_momentum() {
    for config in [explicit(), implicit()] {
        let mut system = System {
            bodies: vec![
                body("heavy", 6.0e24, (0.0, 0.0), (0.0, 10.0)),
                body("light", 6.0e22, (4.0e8, 0.0), (0.0, -1000.0)),
            ],
        };
        let impulse = vec2d(calculate_total_impulse(&Ieee, &system).unwrap());
        assert_eq!(impulse, Vec2d::new(0.0, 0.0));
        let start = vec2d(calculcate_center_of_mass(&Ieee, &system).unwrap());
        for _ in 0..100 {
            system = system_timestep(&Ieee, system, sc(3600.0), config);
        }
        let end = vec2d(calculcate_center_of_mass(&Ieee, &system).unwrap());
        assert!(length(end - start) < 1e-6 * 4.0e8);
    }
}
