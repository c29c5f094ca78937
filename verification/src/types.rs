//! The data model: bodies, systems of bodies and the choice of stepping rule.

use crate::scalar::{same_number, Scalar};
use crate::vector::Vector2;
use vstd::prelude::*;
use vstd::std_specs::cmp::PartialEqSpecImpl;

verus! {

/// A display colour, one byte per channel.
#[derive(Clone, Copy, Debug, PartialEq, Eq, Structural)]
pub struct Color {
    pub r: u8,
    pub g: u8,
    pub b: u8,
}

/// A point mass.
#[derive(Clone, Debug)]
pub struct Body {
    /// Mass in kilograms.
    pub mass: Scalar,
    /// Identifying text; no computation reads it, equality does.
    pub name: String,
    /// Position in metres.
    pub position: Vector2,
    /// Velocity in metres per second.
    pub velocity: Vector2,
}

impl Body {
    /// No field of the body holds a NaN.
    pub open spec fn is_number(&self) -> bool {
        &&& !self.mass.is_nan_spec()
        &&& self.position.is_number()
        &&& self.velocity.is_number()
    }

    /// The two bodies agree bit for bit, and in their names.
    pub open spec fn identical(&self, other: &Body) -> bool {
        &&& self.mass == other.mass
        &&& self.name@ == other.name@
        &&& self.position == other.position
        &&& self.velocity == other.velocity
    }

    /// Field-by-field equality: the names as text, the numbers numerically.
    pub open spec fn same_as(&self, other: &Body) -> bool {
        &&& same_number(self.mass.bits, other.mass.bits)
        &&& self.name@ == other.name@
        &&& self.position.same_as(other.position)
        &&& self.velocity.same_as(other.velocity)
    }
}

impl PartialEq for Body {
    fn eq(&self, other: &Body) -> (r: bool) {
        self.mass == other.mass && self.name == other.name && self.position == other.position
            && self.velocity == other.velocity
    }
}

impl PartialEqSpecImpl for Body {
    open spec fn obeys_eq_spec() -> bool {
        true
    }

    open spec fn eq_spec(&self, other: &Body) -> bool {
        self.same_as(other)
    }
}

/// The bodies at one instant, in a fixed order.
#[derive(Clone, Debug)]
pub struct System {
    pub bodies: Vec<Body>,
}

impl View for System {
    type V = Seq<Body>;

    open spec fn view(&self) -> Seq<Body> {
        self.bodies@
    }
}

impl System {
    /// As many bodies, equal one by one in their order.
    pub open spec fn same_as(&self, other: &System) -> bool {
        &&& self@.len() == other@.len()
        &&& forall|i: int| 0 <= i < self@.len() ==> (#[trigger] self@[i]).same_as(&other@[i])
    }
}

impl PartialEq for System {
    fn eq(&self, other: &System) -> (r: bool) {
        if self.bodies.len() != other.bodies.len() {
            return false;
        }
        let mut i: usize = 0;
        while i < self.bodies.len()
            invariant
                self.bodies.len() == other.bodies.len(),
                i <= self.bodies.len(),
                forall|k: int| 0 <= k < i ==> (#[trigger] self@[k]).same_as(&other@[k]),
            decreases self.bodies.len() - i,
        {
            if self.bodies[i] != other.bodies[i] {
                return false;
            }
            i += 1;
        }
        true
    }
}

impl PartialEqSpecImpl for System {
    open spec fn obeys_eq_spec() -> bool {
        true
    }

    open spec fn eq_spec(&self, other: &System) -> bool {
        self.same_as(other)
    }
}

/// The rule by which a body is moved over one time step.
#[derive(Clone, Copy, Debug, PartialEq, Eq, Structural)]
pub enum MoverImplementation {
    /// Position and velocity both advance from the old velocity.
    EulerExplicit(),
    /// The velocity advances first; the position advances from the new velocity.
    EulerImplicit(),
}

/// Settings of a simulation run.
#[derive(Clone, Copy, Debug, PartialEq, Eq, Structural)]
pub struct SimulationConfig {
    pub mover_implementation: MoverImplementation,
}

impl Default for SimulationConfig {
    /// The explicit rule.
    fn default() -> (r: SimulationConfig)
        ensures
            r.mover_implementation == MoverImplementation::EulerExplicit(),
    {
        SimulationConfig { mover_implementation: MoverImplementation::EulerExplicit() }
    }
}

/// A body that holds no NaN equals itself.
pub proof fn body_equals_itself(body: &Body)
    ensures
        body.same_as(body) <==> body.is_number(),
{
}

/// Equality of bodies is symmetric.
pub proof fn body_equality_symmetric(a: &Body, b: &Body)
    ensures
        a.same_as(b) == b.same_as(a),
{
}

} // verus!
