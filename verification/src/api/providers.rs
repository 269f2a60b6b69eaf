//! Provider account rules: names and tokens, kinds, credential versions and connection tests.
use crate::api::error::ApiError;
use crate::json::{json_array_items, json_from_items, json_from_string};
use crate::provider::{capability_name, Capability, ProviderError, ProviderKind};
use crate::text::{byte_len, trim, trim_seq, utf8_len};
use vstd::prelude::*;

verus! {

/// An account name is not blank and at most 160 bytes; a token is not blank and at most 8192
/// bytes.
pub fn validate_name_and_token(name: &str, token: &str) -> (r: Result<(), ApiError>)
    ensures
        r == if trim_seq(name@).len() == 0 || utf8_len(name@) > 160 {
            Err::<(), ApiError>(ApiError::BadRequest("provider account name is invalid"))
        } else if trim_seq(token@).len() == 0 || utf8_len(token@) > 8_192 {
            Err::<(), ApiError>(ApiError::BadRequest("provider API token is invalid"))
        } else {
            Ok::<(), ApiError>(())
        },
{
    if trim(name).unicode_len() == 0 || byte_len(name) > 160 {
        return Err(ApiError::BadRequest("provider account name is invalid"));
    }
    if trim(token).unicode_len() == 0 || byte_len(token) > 8_192 {
        return Err(ApiError::BadRequest("provider API token is invalid"));
    }
    Ok(())
}

/// The provider kind a request names, if it is a valid kind.
pub fn requested_provider_kind(value: &str) -> (r: Result<ProviderKind, ApiError>)
    ensures
        r is Ok <==> crate::provider::valid_provider_kind(value@),
        r matches Ok(kind) ==> kind@ == value@,
        r matches Err(e) ==> e == ApiError::BadRequest("provider kind is invalid"),
{
    match ProviderKind::parse(value) {
        Ok(kind) => Ok(kind),
        Err(_) => Err(ApiError::BadRequest("provider kind is invalid")),
    }
}

/// An account may be created only for a kind that an adapter is registered for.
pub fn check_kind_registered(registered: bool) -> (r: Result<(), ApiError>)
    ensures
        r == if registered {
            Ok::<(), ApiError>(())
        } else {
            Err::<(), ApiError>(ApiError::BadRequest("provider kind is not registered"))
        },
{
    if registered {
        Ok(())
    } else {
        Err(ApiError::BadRequest("provider kind is not registered"))
    }
}

/// The version of a rotated credential: one after the active one.
pub fn next_credential_version(active: i32) -> (r: Result<i32, ApiError>)
    ensures
        active < i32::MAX ==> r == Ok::<i32, ApiError>((active + 1) as i32),
        active == i32::MAX ==> r == Err::<i32, ApiError>(ApiError::Internal),
{
    match active.checked_add(1) {
        Some(v) => Ok(v),
        None => Err(ApiError::Internal),
    }
}

/// The capabilities as the JSON array of their names.
pub open spec fn capabilities_json(capabilities: Seq<Capability>) -> serde_json::Value {
    json_from_items(capabilities.map_values(|c: Capability| json_from_string(capability_name(c))))
}

pub fn capabilities_value(capabilities: &Vec<Capability>) -> (r: serde_json::Value)
    ensures
        r == capabilities_json(capabilities@),
        json_array_items(r) is Some,
{
    let mut items: Vec<serde_json::Value> = Vec::new();
    let mut i: usize = 0;
    while i < capabilities.len()
        invariant
            i <= capabilities.len(),
            items@ == capabilities@.subrange(0, i as int).map_values(
                |c: Capability| json_from_string(capability_name(c)),
            ),
        decreases capabilities.len() - i,
    {
        items.push(crate::json::from_str(capabilities[i].as_str()));
        proof {
            assert(capabilities@.subrange(0, i + 1).map_values(
                |c: Capability| json_from_string(capability_name(c)),
            ) == capabilities@.subrange(0, i as int).map_values(
                |c: Capability| json_from_string(capability_name(c)),
            ).push(json_from_string(capability_name(capabilities@[i as int]))));
        }
        i += 1;
    }
    proof {
        assert(capabilities@.subrange(0, capabilities@.len() as int) == capabilities@);
    }
    crate::json::from_items(items)
}

/// What a connection test records: whether the credential is valid, the capabilities found
/// (none on failure) and the provider's error code.
pub struct ConnectionOutcome {
    pub valid: bool,
    pub capabilities: serde_json::Value,
    pub error_code: Option<String>,
}

impl ConnectionOutcome {
    /// The account status after the test.
    pub fn account_status(&self) -> (r: &'static str)
        ensures
            r@ == if self.valid {
                "active"@
            } else {
                "invalid"@
            },
    {
        if self.valid {
            "active"
        } else {
            "invalid"
        }
    }

    /// The status of the connection-test operation.
    pub fn operation_status(&self) -> (r: &'static str)
        ensures
            r@ == if self.valid {
                "succeeded"@
            } else {
                "failed"@
            },
    {
        if self.valid {
            "succeeded"
        } else {
            "failed"
        }
    }
}

/// The outcome of a connection test from what the adapter answered.
pub fn connection_outcome(result: Result<Vec<Capability>, ProviderError>) -> (r: ConnectionOutcome)
    ensures
        match result {
            Ok(capabilities) => r.valid && r.capabilities == capabilities_json(capabilities@)
                && r.error_code is None,
            Err(e) => !r.valid && r.capabilities == json_from_items(Seq::empty()) && (r.error_code
                matches Some(code) && code@ == e.code@),
        },
{
    match result {
        Ok(capabilities) => ConnectionOutcome {
            valid: true,
            capabilities: capabilities_value(&capabilities),
            error_code: None,
        },
        Err(error) => ConnectionOutcome {
            valid: false,
            capabilities: crate::json::from_items(Vec::new()),
            error_code: Some(error.code),
        },
    }
}

/// A provider failure met while answering a request.
pub fn map_provider_error(error: &ProviderError) -> (r: ApiError)
    ensures
        r == ApiError::BadRequest("provider request failed"),
{
    ApiError::BadRequest("provider request failed")
}

} // verus!
