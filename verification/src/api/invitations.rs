//! Invitation rules: who may be invited, how long an invitation lasts, and who may accept it.
use crate::api::auth::NANOS_PER_DAY;
use crate::api::error::ApiError;
use crate::identity::{normalize_email, valid_email, Email};
use crate::kernel::{Timestamp, MAX_UNIX_NANOS};
use crate::text::ascii_lowercase_seq;
use vstd::prelude::*;

verus! {

/// The email an invitation is sent to must be valid.
pub fn invitation_email(email: &str) -> (r: Result<Email, ApiError>)
    ensures
        r is Ok <==> valid_email(normalize_email(email@)),
        r matches Ok(e) ==> e@ == normalize_email(email@),
        r matches Err(e) ==> e == ApiError::BadRequest("invalid email"),
{
    match Email::parse(email) {
        Ok(e) => Ok(e),
        Err(_) => Err(ApiError::BadRequest("invalid email")),
    }
}

/// When an invitation created at `now` expires: seven days later.
pub fn invitation_expiry(now: Timestamp) -> (r: Timestamp)
    requires
        now.in_range(),
        now.unix_nanos + 7 * NANOS_PER_DAY <= MAX_UNIX_NANOS,
    ensures
        r.unix_nanos == now.unix_nanos + 7 * NANOS_PER_DAY,
{
    Timestamp { unix_nanos: now.unix_nanos + 7 * NANOS_PER_DAY }
}

/// `str::eq_ignore_ascii_case`.
pub fn eq_ignore_ascii_case(a: &str, b: &str) -> (r: bool)
    ensures
        r == (ascii_lowercase_seq(a@) == ascii_lowercase_seq(b@)),
{
    let x = crate::text::to_ascii_lowercase(a);
    let y = crate::text::to_ascii_lowercase(b);
    crate::text::str_equals(x.as_str(), y.as_str())
}

/// The decision on accepting an invitation: it must be open (unaccepted and unexpired), the
/// caller must exist, and the caller's email must be the invited one up to ASCII case. The
/// result says whether a membership (and its member role binding) is to be created.
pub fn decide_acceptance(
    invited_email: Option<&str>,
    user_email: Option<&str>,
    membership_exists: bool,
) -> (r: Result<bool, ApiError>)
    ensures
        match (invited_email, user_email) {
            (None, _) => r == Err::<bool, ApiError>(
                ApiError::BadRequest("invitation is invalid or expired"),
            ),
            (Some(_), None) => r == Err::<bool, ApiError>(ApiError::Unauthorized),
            (Some(invited), Some(own)) => if ascii_lowercase_seq(invited@) != ascii_lowercase_seq(
                own@,
            ) {
                r == Err::<bool, ApiError>(ApiError::Forbidden)
            } else {
                r == Ok::<bool, ApiError>(!membership_exists)
            },
        },
{
    let invited = match invited_email {
        Some(e) => e,
        None => {
            return Err(ApiError::BadRequest("invitation is invalid or expired"));
        },
    };
    let own = match user_email {
        Some(e) => e,
        None => {
            return Err(ApiError::Unauthorized);
        },
    };
    if !eq_ignore_ascii_case(invited, own) {
        return Err(ApiError::Forbidden);
    }
    Ok(!membership_exists)
}

/// A new membership needs the organization's member role.
pub fn require_member_role(found: bool) -> (r: Result<(), ApiError>)
    ensures
        r == if found {
            Ok::<(), ApiError>(())
        } else {
            Err::<(), ApiError>(ApiError::Internal)
        },
{
    if found {
        Ok(())
    } else {
        Err(ApiError::Internal)
    }
}

} // verus!
