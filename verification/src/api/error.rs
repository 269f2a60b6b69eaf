//! The errors that API handlers answer with.
use vstd::prelude::*;

verus! {

#[derive(Clone, Copy, Debug)]
pub enum ApiError {
    BadRequest(&'static str),
    Unauthorized,
    Forbidden,
    Conflict(&'static str),
    Unavailable(&'static str),
    Internal,
}

impl ApiError {
    /// The HTTP status, error code and message of the response body.
    pub fn response_parts(self) -> (r: (u16, &'static str, &'static str))
        ensures
            r == match self {
                ApiError::BadRequest(message) => (400u16, "bad_request", message),
                ApiError::Unauthorized => (401u16, "unauthorized", "authentication is required"),
                ApiError::Forbidden => (403u16, "forbidden", "access is denied"),
                ApiError::Conflict(message) => (409u16, "conflict", message),
                ApiError::Unavailable(message) => (503u16, "service_unavailable", message),
                ApiError::Internal => (500u16, "internal_error", "an internal error occurred"),
            },
    {
        match self {
            ApiError::BadRequest(message) => (400, "bad_request", message),
            ApiError::Unauthorized => (401, "unauthorized", "authentication is required"),
            ApiError::Forbidden => (403, "forbidden", "access is denied"),
            ApiError::Conflict(message) => (409, "conflict", message),
            ApiError::Unavailable(message) => (503, "service_unavailable", message),
            ApiError::Internal => (500, "internal_error", "an internal error occurred"),
        }
    }
}

/// Any failure the client cannot act on answers as an internal error; its detail stays with
/// the caller.
pub fn internal<E>(error: E) -> (r: ApiError)
    ensures
        r == ApiError::Internal,
{
    ApiError::Internal
}

} // verus!
