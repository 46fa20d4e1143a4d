//! The status that each result is answered with over HTTP.

use vstd::prelude::*;
use crate::error::PlannerError;

verus! {

/// The status that a failure is answered with: 404 where nothing was
/// found, 500 where the storage failed.
pub open spec fn failure_status(e: PlannerError) -> u16 {
    match e {
        PlannerError::NotFound => 404,
        PlannerError::PersistenceError => 500,
    }
}

/// The status that a result is answered with: `success` where it is a
/// value, and the status of the failure where it is none.
pub open spec fn status_of<T>(r: Result<T, PlannerError>, success: u16) -> u16 {
    match r {
        Ok(_) => success,
        Err(e) => failure_status(e),
    }
}

impl PlannerError {
    /// The status that this failure is answered with.
    pub fn status_code(&self) -> (code: u16)
        ensures
            code == failure_status(*self),
    {
        match self {
            PlannerError::NotFound => 404,
            PlannerError::PersistenceError => 500,
        }
    }
}

/// The status for the result of a listing, a fetch, an update or a search:
/// 200 with the value.
pub fn answer_status<T>(r: &Result<T, PlannerError>) -> (code: u16)
    ensures
        code == status_of(*r, 200),
{
    match r {
        Ok(_) => 200,
        Err(e) => e.status_code(),
    }
}

/// The status for the result of a creation: 201 with what was created.
pub fn creation_status<T>(r: &Result<T, PlannerError>) -> (code: u16)
    ensures
        code == status_of(*r, 201),
{
    match r {
        Ok(_) => 201,
        Err(e) => e.status_code(),
    }
}

/// The status for the result of a removal: 204, without a body.
pub fn removal_status(r: &Result<(), PlannerError>) -> (code: u16)
    ensures
        code == status_of(*r, 204),
{
    match r {
        Ok(_) => 204,
        Err(e) => e.status_code(),
    }
}

} // verus!
