//! The ways in which a request can fail.

use vstd::prelude::*;

verus! {

/// Why a request failed. Every failure ends the request: nothing is tried
/// again.
#[derive(Debug, Clone, Copy, PartialEq, Eq, Structural)]
pub enum AdminError {
    /// The requested file is not in the store, or could not be read.
    NotFound,
    /// A file could not be written or removed.
    WriteError,
    /// The changes could not be staged or pushed.
    SyncError,
}

/// The HTTP status that stands for the outcome of a request.
pub open spec fn status_of(failure: Option<AdminError>) -> u16 {
    match failure {
        None => 200,
        Some(AdminError::NotFound) => 404,
        Some(AdminError::WriteError) => 500,
        Some(AdminError::SyncError) => 500,
    }
}

/// The failure of a result, if it is one.
pub open spec fn failure_of<T>(result: Result<T, AdminError>) -> Option<AdminError> {
    match result {
        Ok(_) => None,
        Err(e) => Some(e),
    }
}

/// The HTTP status to answer a request with: 200 where it succeeded, 404
/// where the post was not found, 500 for every other failure.
pub fn http_status<T>(result: &Result<T, AdminError>) -> (status: u16)
    ensures
        status == status_of(failure_of(*result)),
{
    match result {
        Ok(_) => 200,
        Err(AdminError::NotFound) => 404,
        Err(AdminError::WriteError) => 500,
        Err(AdminError::SyncError) => 500,
    }
}

} // verus!
