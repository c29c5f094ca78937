//! Why an aggregate over a system can fail.

use vstd::prelude::*;

verus! {

/// A request that the simulation cannot answer.
#[derive(Clone, Copy, Debug, PartialEq, Eq, Structural)]
pub enum SimulationError {
    /// An aggregate was asked of a system without bodies.
    EmptySystem,
}

} // verus!
