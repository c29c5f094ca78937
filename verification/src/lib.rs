//! Planar gravitational N-body core.
//!
//! Numbers are IEEE 754 binary64 values held as bit patterns
//! ([`scalar::Scalar`]). Everything that rounds is delegated to an
//! [`arithmetic::Arithmetic`] supplied by the caller. What this crate proves
//! is which operations are applied to which operands, in which order, for
//! every such arithmetic; and, for an arithmetic that is deterministic, that
//! the results are functions of the inputs.

pub mod arithmetic;
pub mod center_of_mass;
pub mod energy;
pub mod error;
pub mod force;
pub mod impulse;
pub mod mover;
pub mod scalar;
pub mod sum;
pub mod types;
pub mod vector;

pub use center_of_mass::calculcate_center_of_mass;
pub use energy::{calculate_kinetic_energy, calculate_potential_energy, calculate_system_energy};
pub use force::{gravity_force, gravity_force_vector};
pub use impulse::{calculate_impulse, calculate_total_impulse};
pub use mover::system_timestep;
pub use types::{Body, System};
