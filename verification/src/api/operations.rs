//! Operation rules: listing and cancellation.
use crate::api::error::ApiError;
use vstd::prelude::*;

verus! {

/// How many operations a listing shows.
pub const LIST_LIMIT: u64 = 100;

/// Only a queued operation can be cancelled.
pub fn check_cancellable(status: &str) -> (r: Result<(), ApiError>)
    ensures
        r == if status@ == "queued"@ {
            Ok::<(), ApiError>(())
        } else {
            Err::<(), ApiError>(ApiError::Conflict("only queued operations can be cancelled"))
        },
{
    if crate::text::str_equals(status, "queued") {
        Ok(())
    } else {
        Err(ApiError::Conflict("only queued operations can be cancelled"))
    }
}

/// An operation must exist to be read or cancelled.
pub fn check_operation_found(found: bool) -> (r: Result<(), ApiError>)
    ensures
        r == if found {
            Ok::<(), ApiError>(())
        } else {
            Err::<(), ApiError>(ApiError::BadRequest("operation was not found"))
        },
{
    if found {
        Ok(())
    } else {
        Err(ApiError::BadRequest("operation was not found"))
    }
}

} // verus!
