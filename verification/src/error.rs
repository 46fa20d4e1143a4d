//! Why an operation fails.

use vstd::prelude::*;

verus! {

/// Why an operation on the planner did not produce its result.
#[derive(Clone, Copy, Debug, PartialEq, Eq, Structural)]
pub enum PlannerError {
    /// No row matched the key (or pair of keys) the operation was given.
    NotFound,
    /// The storage refused or failed to carry out a statement.
    PersistenceError,
}

} // verus!
