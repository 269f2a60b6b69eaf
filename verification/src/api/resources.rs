//! Resource rules: desired-state requests, their versions, and approval of reconciliations.
use crate::api::error::ApiError;
use crate::json::json_object_entries;
use crate::resource::{detect_drift, evaluate_drift, field_names, DesiredState, ObservedState};
use vstd::prelude::*;

verus! {

/// A desired state names at least one managed field and is a JSON object.
pub fn validate_desired_state_request(managed_field_count: usize, state: &serde_json::Value) -> (r:
    Result<(), ApiError>)
    ensures
        r == if managed_field_count == 0 || json_object_entries(*state) is None {
            Err::<(), ApiError>(ApiError::BadRequest("desired state is invalid"))
        } else {
            Ok::<(), ApiError>(())
        },
{
    if managed_field_count == 0 || !crate::json::is_object(state) {
        return Err(ApiError::BadRequest("desired state is invalid"));
    }
    Ok(())
}

/// The version of a new desired state: one after the latest (saturating), or the first.
pub fn next_desired_version(latest: Option<i64>) -> (r: i64)
    ensures
        r == match latest {
            Some(v) => if v == i64::MAX {
                i64::MAX as int
            } else {
                v + 1
            },
            None => 1,
        },
{
    match latest {
        Some(v) => if v == i64::MAX {
            i64::MAX
        } else {
            v + 1
        },
        None => 1,
    }
}

/// A desired state must evaluate against the latest observation, if there is one.
pub fn check_desired_against_observed(desired: &DesiredState, observed: Option<&ObservedState>) -> (r:
    Result<(), ApiError>)
    ensures
        r == match observed {
            Some(o) => if evaluate_drift(
                desired.version,
                field_names(desired.managed_fields@),
                desired.state,
                o.state,
            ) is Ok {
                Ok::<(), ApiError>(())
            } else {
                Err::<(), ApiError>(ApiError::BadRequest("desired state is invalid"))
            },
            None => Ok::<(), ApiError>(()),
        },
{
    match observed {
        Some(o) => match detect_drift(desired, o) {
            Ok(_) => Ok(()),
            Err(_) => Err(ApiError::BadRequest("desired state is invalid")),
        },
        None => Ok(()),
    }
}

/// Only a pending task under manual approval can be approved.
pub fn check_reconciliation_approval(policy: &str, status: &str) -> (r: Result<(), ApiError>)
    ensures
        r == if policy@ != "manual_approval"@ || status@ != "pending"@ {
            Err::<(), ApiError>(ApiError::Conflict("reconciliation task cannot be approved"))
        } else {
            Ok::<(), ApiError>(())
        },
{
    if !crate::text::str_equals(policy, "manual_approval") || !crate::text::str_equals(
        status,
        "pending",
    ) {
        return Err(ApiError::Conflict("reconciliation task cannot be approved"));
    }
    Ok(())
}

} // verus!
