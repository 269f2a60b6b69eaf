//! Platform settings that a platform administrator changes at runtime.
use crate::api::error::ApiError;
use crate::text::str_equals;
use vstd::prelude::*;

verus! {

/// The log levels that can be set at runtime.
pub open spec fn supported_log_level(level: Seq<char>) -> bool {
    level == "error"@ || level == "warn"@ || level == "info"@ || level == "debug"@ || level
        == "trace"@
}

/// Accepts only a plain level: `error`, `warn`, `info`, `debug` or `trace`.
pub fn validate_log_level(level: &str) -> (r: Result<(), ApiError>)
    ensures
        r is Ok <==> supported_log_level(level@),
        r is Err ==> r == Err::<(), ApiError>(ApiError::BadRequest("unsupported log level")),
{
    if str_equals(level, "error") || str_equals(level, "warn") || str_equals(level, "info")
        || str_equals(level, "debug") || str_equals(level, "trace") {
        Ok(())
    } else {
        Err(ApiError::BadRequest("unsupported log level"))
    }
}

/// An administrator must be a platform administrator.
pub fn require_platform_admin(is_platform_admin: bool) -> (r: Result<(), ApiError>)
    ensures
        r == if is_platform_admin {
            Ok::<(), ApiError>(())
        } else {
            Err(ApiError::Forbidden)
        },
{
    if is_platform_admin {
        Ok(())
    } else {
        Err(ApiError::Forbidden)
    }
}

} // verus!
