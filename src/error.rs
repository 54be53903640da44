//! The errors that the engine reports to its callers.
use vstd::prelude::*;

verus! {

/// Why an operation of the engine was refused.
#[derive(Clone, Copy, Debug, PartialEq, Eq, Structural)]
pub enum EngineError {
    /// A fixed capacity (vertices, indices, instances, descriptor sets, identifiers) would be
    /// exceeded.
    CapacityExceeded,
    /// No mesh, instance, light or renderer has the identifier that was asked for.
    NotFound,
}

} // verus!
