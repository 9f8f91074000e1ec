//! The errors that the dashboard's API answers with.
use vstd::prelude::*;
use crate::text::join3;

verus! {

/// An error of a request to the dashboard's API.
#[derive(Clone, Debug)]
pub enum ApiError {
    /// The request is malformed or asks for something impossible.
    BadRequest(String),
    /// The worker named by the request does not exist.
    NotFound(String),
    /// Something the dashboard depends on failed.
    Internal(String),
}

/// The message for a worker id that names no worker.
pub open spec fn not_found_message(id: Seq<char>) -> Seq<char> {
    "Worker "@ + id + " not found"@
}

/// The error for a worker id that names no worker.
pub fn worker_not_found(id: &str) -> (res: ApiError)
    ensures
        res matches ApiError::NotFound(m) && m@ == not_found_message(id@),
{
    ApiError::NotFound(join3("Worker ", id, " not found"))
}

/// `Ok` when the worker `id` was found, else the not-found error.
pub fn require_found(id: &str, found: bool) -> (res: Result<(), ApiError>)
    ensures
        found <==> res is Ok,
        !found ==> (res matches Err(ApiError::NotFound(m)) && m@ == not_found_message(id@)),
{
    if found {
        Ok(())
    } else {
        Err(worker_not_found(id))
    }
}

} // verus!
