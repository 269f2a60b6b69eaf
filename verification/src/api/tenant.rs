//! Who is calling, and in which organization: the bearer session and the organization header.
use crate::api::auth::bearer_token;
use crate::api::error::ApiError;
use crate::audit::uuid_parsed;
use crate::text::has_prefix;
use vstd::prelude::*;

verus! {

/// The header that names the organization of a request.
pub const ORGANIZATION_HEADER: &'static str = "x-organization-id";

/// The session token of a request: its `Authorization` header must read `Bearer <token>`.
pub fn request_token(header_value: Option<&str>) -> (r: Result<&str, ApiError>)
    ensures
        r is Ok <==> (header_value matches Some(h) && has_prefix(h@, "Bearer "@) && h@.len() > 7),
        r matches Ok(token) ==> header_value matches Some(h) && token@ == h@.subrange(
            7,
            h@.len() as int,
        ),
        r matches Err(e) ==> e == ApiError::Unauthorized,
{
    proof {
        reveal_strlit("Bearer ");
    }
    match header_value {
        None => Err(ApiError::Unauthorized),
        Some(header) => match bearer_token(header) {
            Some(token) => Ok(token),
            None => Err(ApiError::Unauthorized),
        },
    }
}

/// A session must be open (unrevoked and unexpired) for its token.
pub fn check_session(found: bool) -> (r: Result<(), ApiError>)
    ensures
        r == if found {
            Ok::<(), ApiError>(())
        } else {
            Err::<(), ApiError>(ApiError::Unauthorized)
        },
{
    if found {
        Ok(())
    } else {
        Err(ApiError::Unauthorized)
    }
}

/// The organization that the request header names, as a UUID.
pub fn organization_id(header: Option<&str>) -> (r: Result<u128, ApiError>)
    ensures
        match header {
            Some(text) => match uuid_parsed(text@) {
                Some(id) => r == Ok::<u128, ApiError>(id),
                None => r == Err::<u128, ApiError>(
                    ApiError::BadRequest("x-organization-id is required"),
                ),
            },
            None => r == Err::<u128, ApiError>(ApiError::BadRequest("x-organization-id is required")),
        },
{
    match header {
        Some(text) => match crate::audit::parse_uuid(text) {
            Some(id) => Ok(id),
            None => Err(ApiError::BadRequest("x-organization-id is required")),
        },
        None => Err(ApiError::BadRequest("x-organization-id is required")),
    }
}

/// The caller must be an active member of the organization.
pub fn check_membership(active_membership_found: bool) -> (r: Result<(), ApiError>)
    ensures
        r == if active_membership_found {
            Ok::<(), ApiError>(())
        } else {
            Err::<(), ApiError>(ApiError::Forbidden)
        },
{
    if active_membership_found {
        Ok(())
    } else {
        Err(ApiError::Forbidden)
    }
}

} // verus!
