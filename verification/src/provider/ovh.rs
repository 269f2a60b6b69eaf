//! OVHcloud: signed application requests, VPS inventory and VPS power actions.
//!
//! Every call is signed: `$1$` and the SHA-1 digest, in lowercase hexadecimal, of the application
//! secret, the consumer key, the method, the full URL, the body and the server's timestamp,
//! joined by `+`.
use crate::digest::{lower_hex, sha1_digest};
use crate::json::{
    entry_views, get_str, json_array_items, json_as_str, json_from_entries, json_from_string,
    json_get, json_pointer, json_text, string_member,
};
use crate::provider::http::{invalid_response, is_invalid_response, method_name, HttpMethod};
use crate::provider::{
    decimal, field_or_null, get_or_null, is_configuration_error, Capability, CredentialMaterial,
    CredentialType, InventoryItem, InventoryRequest, ProviderError, ProviderOperationRequest,
    ProviderOperationResult, ValidationResult,
};
use crate::text::{byte_len, chars_of, is_ascii_alphanumeric, str_equals, utf8_len};
use vstd::prelude::*;
use vstd::string::StringSliceAdditionalSpecFns;

verus! {

/// The application key and the consumer key that sign a request.
pub fn signing_keys(credential: &CredentialMaterial) -> (r: Result<(String, String), ProviderError>)
    ensures
        match (credential.identity, credential.consumer_key) {
            (None, _) => r matches Err(e) && is_configuration_error(
                e,
                "ovh_application_key_required"@,
                false,
            ),
            (Some(_), None) => r matches Err(e) && is_configuration_error(
                e,
                "ovh_consumer_key_required"@,
                false,
            ),
            (Some(application), Some(consumer)) => if credential.credential_type
                != CredentialType::OvhApplication {
                r matches Err(e) && is_configuration_error(
                    e,
                    "unsupported_ovh_credential_type"@,
                    false,
                )
            } else {
                r matches Ok((a, c)) && a@ == application@ && c@ == consumer@
            },
        },
{
    let application = match &credential.identity {
        Some(key) => key.clone(),
        None => {
            return Err(ProviderError::configuration("ovh_application_key_required", false));
        },
    };
    let consumer = match &credential.consumer_key {
        Some(key) => key.clone(),
        None => {
            return Err(ProviderError::configuration("ovh_consumer_key_required", false));
        },
    };
    if credential.credential_type != CredentialType::OvhApplication {
        return Err(ProviderError::configuration("unsupported_ovh_credential_type", false));
    }
    Ok((application, consumer))
}

/// The decimal text of a signed integer.
pub open spec fn signed_decimal(n: int) -> Seq<char> {
    if n < 0 {
        "-"@ + decimal((-n) as nat)
    } else {
        decimal(n as nat)
    }
}

/// `i64::to_string`.
pub fn i64_to_decimal(n: i64) -> (r: String)
    ensures
        r@ == signed_decimal(n as int),
{
    if n < 0 {
        let magnitude: u64 = if n == i64::MIN {
            9_223_372_036_854_775_808u64
        } else {
            (-n) as u64
        };
        let mut text = "-".to_owned();
        text.append(crate::provider::u64_to_decimal(magnitude).as_str());
        text
    } else {
        crate::provider::u64_to_decimal(n as u64)
    }
}

/// What a request signature digests.
pub open spec fn signature_source(
    secret: Seq<char>,
    consumer_key: Seq<char>,
    method: Seq<char>,
    target: Seq<char>,
    body: Seq<char>,
    timestamp: int,
) -> Seq<char> {
    secret + "+"@ + consumer_key + "+"@ + method + "+"@ + target + "+"@ + body + "+"@
        + signed_decimal(timestamp)
}

/// The signature of a request: `$1$` and the lowercase hexadecimal SHA-1 digest of its source.
pub open spec fn signature_of(source: Seq<char>) -> Seq<char> {
    "$1$"@ + lower_hex(sha1_digest(vstd::utf8::encode_utf8(source)))
}

/// A request ready to send: where, what body, and the four OVH headers.
#[derive(Debug)]
pub struct SignedRequest {
    pub method: HttpMethod,
    pub target: String,
    pub body: Option<String>,
    pub application_key: String,
    pub consumer_key: String,
    pub timestamp: String,
    pub signature: String,
}

/// Signs a call to `path` under `base_url` at the server's `timestamp`.
pub fn sign_request(
    credential: &CredentialMaterial,
    base_url: &str,
    method: HttpMethod,
    path: &str,
    body: Option<&serde_json::Value>,
    timestamp: i64,
) -> (r: Result<SignedRequest, ProviderError>)
    ensures
        match signing_keys_spec(*credential) {
            Err(code) => r matches Err(e) && is_configuration_error(e, code, false),
            Ok((application, consumer)) => r matches Ok(s) && {
                let body_text = match body {
                    Some(v) => json_text(*v),
                    None => Seq::empty(),
                };
                &&& s.method == method
                &&& s.target@ == base_url@ + path@
                &&& s.application_key@ == application
                &&& s.consumer_key@ == consumer
                &&& s.timestamp@ == signed_decimal(timestamp as int)
                &&& s.signature@ == signature_of(
                    signature_source(
                        credential.secret@,
                        consumer,
                        method_name(method),
                        base_url@ + path@,
                        body_text,
                        timestamp as int,
                    ),
                )
                &&& match body {
                    Some(_) => s.body matches Some(b) && b@ == body_text,
                    None => s.body is None,
                }
            },
        },
{
    let (application_key, consumer_key) = signing_keys(credential)?;
    let target = crate::provider::http::join_url(base_url, path);
    let body_text = match body {
        Some(v) => crate::json::text(v),
        None => String::new(),
    };
    let stamp = i64_to_decimal(timestamp);
    let mut source = credential.secret.clone();
    source.append("+");
    source.append(consumer_key.as_str());
    source.append("+");
    source.append(method.as_str());
    source.append("+");
    source.append(target.as_str());
    source.append("+");
    source.append(body_text.as_str());
    source.append("+");
    source.append(stamp.as_str());
    let digest = crate::digest::sha1(source.as_str().as_bytes());
    let mut signature = "$1$".to_owned();
    signature.append(crate::digest::to_lower_hex(digest.as_slice()).as_str());
    let sent_body = match body {
        Some(_) => Some(body_text),
        None => None,
    };
    Ok(
        SignedRequest {
            method,
            target,
            body: sent_body,
            application_key,
            consumer_key,
            timestamp: stamp,
            signature,
        },
    )
}

/// The signing keys of a credential, or the code of the configuration error.
pub open spec fn signing_keys_spec(credential: CredentialMaterial) -> Result<
    (Seq<char>, Seq<char>),
    Seq<char>,
> {
    match (credential.identity, credential.consumer_key) {
        (None, _) => Err("ovh_application_key_required"@),
        (Some(_), None) => Err("ovh_consumer_key_required"@),
        (Some(application), Some(consumer)) => if credential.credential_type
            != CredentialType::OvhApplication {
            Err("unsupported_ovh_credential_type"@)
        } else {
            Ok((application@, consumer@))
        },
    }
}

/// The identity of an account: its NIC handle (or, without one, its email), if that is a
/// string.
pub open spec fn account_identity(account: serde_json::Value) -> Option<Seq<char>> {
    match json_get(account, "nichandle"@) {
        Some(v) => json_as_str(v),
        None => string_member(account, "email"@),
    }
}

/// A valid credential may read and operate VPS.
pub fn validation_result(account: &serde_json::Value) -> (r: ValidationResult)
    ensures
        r.valid,
        match account_identity(*account) {
            Some(id) => r.identity matches Some(s) && s@ == id,
            None => r.identity is None,
        },
        r.scopes@.len() == 2,
        r.scopes@[0]@ == "vps:read"@,
        r.scopes@[1]@ == "vps:operate"@,
{
    let identity = match crate::json::get(account, "nichandle") {
        Some(v) => crate::json::as_str(&v),
        None => get_str(account, "email"),
    };
    ValidationResult {
        valid: true,
        identity,
        scopes: vec!["vps:read".to_owned(), "vps:operate".to_owned()],
    }
}

/// What a valid OVH credential offers.
pub fn discovered_capabilities() -> (r: Vec<Capability>)
    ensures
        r@ == seq![Capability::Compute],
{
    vec![Capability::Compute]
}

/// Only the whole list of compute instances can be asked for: no parent, no cursor.
pub fn check_inventory_request(request: &InventoryRequest) -> (r: Result<(), ProviderError>)
    ensures
        r is Ok <==> (request.resource_type@ == "compute_instance"@
            && request.parent_external_id is None && request.cursor is None),
        r matches Err(e) ==> is_configuration_error(
            e,
            "unsupported_inventory_resource_type"@,
            false,
        ),
{
    if !str_equals(request.resource_type.as_str(), "compute_instance")
        || request.parent_external_id.is_some() || request.cursor.is_some() {
        return Err(ProviderError::configuration("unsupported_inventory_resource_type", false));
    }
    Ok(())
}

/// The service names that a listing of VPS holds: it must be an array of strings.
pub fn service_names(listing: &serde_json::Value) -> (r: Result<Vec<String>, ProviderError>)
    ensures
        match json_array_items(*listing) {
            None => r matches Err(e) && is_invalid_response(e),
            Some(items) => if forall|i: int|
                0 <= i < items.len() ==> json_as_str(#[trigger] items[i]) is Some {
                r matches Ok(names) && names@.len() == items.len() && forall|i: int|
                    0 <= i < items.len() ==> json_as_str(items[i]) == Some(
                        #[trigger] names@[i]@,
                    )
            } else {
                r matches Err(e) && is_invalid_response(e)
            },
        },
{
    let items = match crate::json::array_items(listing) {
        Some(items) => items,
        None => {
            return Err(invalid_response());
        },
    };
    let mut names: Vec<String> = Vec::new();
    let mut i: usize = 0;
    while i < items.len()
        invariant
            i <= items.len(),
            json_array_items(*listing) == Some(items@),
            names@.len() == i,
            forall|k: int| 0 <= k < i ==> json_as_str(#[trigger] items@[k]) is Some,
            forall|k: int| 0 <= k < i ==> json_as_str(items@[k]) == Some(#[trigger] names@[k]@),
        decreases items.len() - i,
    {
        match crate::json::as_str(&items[i]) {
            Some(name) => {
                names.push(name);
            },
            None => {
                return Err(invalid_response());
            },
        }
        i += 1;
    }
    Ok(names)
}

/// A character of a VPS service name.
pub open spec fn service_name_char(c: char) -> bool {
    is_ascii_alphanumeric(c) || c == '-' || c == '.'
}

/// A service name: 1 to 255 bytes of ASCII letters, digits, `-` and `.`.
pub open spec fn valid_service_name(value: Seq<char>) -> bool {
    &&& value.len() > 0
    &&& utf8_len(value) <= 255
    &&& forall|i: int| 0 <= i < value.len() ==> service_name_char(#[trigger] value[i])
}

pub fn validate_service_name(value: &str) -> (r: Result<(), ProviderError>)
    ensures
        r is Ok <==> valid_service_name(value@),
        r matches Err(e) ==> is_configuration_error(e, "invalid_service_name"@, false),
{
    let chars = chars_of(value);
    let mut i: usize = 0;
    let mut ok = true;
    while i < chars.len()
        invariant
            chars@ == value@,
            i <= chars.len(),
            ok == forall|j: int| 0 <= j < i ==> service_name_char(#[trigger] value@[j]),
        decreases chars.len() - i,
    {
        let c = chars[i];
        if !(('a' <= c && c <= 'z') || ('A' <= c && c <= 'Z') || ('0' <= c && c <= '9') || c
            == '-' || c == '.') {
            ok = false;
        }
        i += 1;
    }
    if chars.len() > 0 && byte_len(value) <= 255 && ok {
        Ok(())
    } else {
        Err(ProviderError::configuration("invalid_service_name", false))
    }
}

/// The name of a VPS: its non-empty display name, else its name, else the service name.
pub open spec fn vps_name(resource: serde_json::Value, service_name: Seq<char>) -> Seq<char> {
    match string_member(resource, "displayName"@) {
        Some(d) => if d.len() > 0 {
            d
        } else {
            match string_member(resource, "name"@) {
                Some(n) => n,
                None => service_name,
            }
        },
        None => match string_member(resource, "name"@) {
            Some(n) => n,
            None => service_name,
        },
    }
}

/// The normalized status of a VPS from its state.
pub open spec fn vps_status(state: Option<Seq<char>>) -> Seq<char> {
    match state {
        Some(s) => if s == "running"@ {
            "running"@
        } else if s == "stopped"@ {
            "stopped"@
        } else if s == "backuping"@ || s == "installing"@ || s == "rebooting"@ || s
            == "stopping"@ || s == "upgrading"@ {
            "provisioning"@
        } else if s == "maintenance"@ || s == "rescued"@ {
            "active"@
        } else if s == "error"@ {
            "error"@
        } else {
            "unknown"@
        },
        None => "unknown"@,
    }
}

/// The entries of a VPS's normalized state.
pub open spec fn vps_entries(resource: serde_json::Value, name: Seq<char>) -> Seq<
    (Seq<char>, serde_json::Value),
> {
    seq![
        ("name"@, json_from_string(name)),
        ("status"@, json_from_string(vps_status(string_member(resource, "state"@)))),
        ("provider_status"@, field_or_null(resource, "state"@)),
        ("region"@, field_or_null(resource, "zone"@)),
        ("cluster"@, field_or_null(resource, "cluster"@)),
        ("offer_type"@, field_or_null(resource, "offerType"@)),
        ("vcpu_count"@, field_or_null(resource, "vcore"@)),
        ("ram"@, field_or_null(resource, "memoryLimit"@)),
        ("disk"@, match json_pointer(resource, "/model/disk"@) {
            Some(v) => v,
            None => crate::json::json_null(),
        }),
        ("model"@, field_or_null(resource, "model"@)),
        ("netboot_mode"@, field_or_null(resource, "netbootMode"@)),
    ]
}

fn status_text(resource: &serde_json::Value) -> (r: &'static str)
    ensures
        r@ == vps_status(string_member(*resource, "state"@)),
{
    match get_str(resource, "state") {
        Some(s) => {
            let s = s.as_str();
            if str_equals(s, "running") {
                "running"
            } else if str_equals(s, "stopped") {
                "stopped"
            } else if str_equals(s, "backuping") || str_equals(s, "installing") || str_equals(
                s,
                "rebooting",
            ) || str_equals(s, "stopping") || str_equals(s, "upgrading") {
                "provisioning"
            } else if str_equals(s, "maintenance") || str_equals(s, "rescued") {
                "active"
            } else if str_equals(s, "error") {
                "error"
            } else {
                "unknown"
            }
        },
        None => "unknown",
    }
}

fn name_text(resource: &serde_json::Value, service_name: &str) -> (r: String)
    ensures
        r@ == vps_name(*resource, service_name@),
{
    let fallback = match get_str(resource, "name") {
        Some(n) => n,
        None => service_name.to_owned(),
    };
    match get_str(resource, "displayName") {
        Some(d) => if d.unicode_len() > 0 {
            d
        } else {
            fallback
        },
        None => fallback,
    }
}

fn state_entries(resource: &serde_json::Value, name: &str) -> (r: Vec<(String, serde_json::Value)>)
    ensures
        entry_views(r@) == vps_entries(*resource, name@),
{
    let disk = match crate::json::pointer(resource, "/model/disk") {
        Some(v) => v,
        None => {
            let n = crate::json::null();
            proof {
                crate::json::lemma_null_is_json_null(n);
            }
            n
        },
    };
    let entries = vec![
        ("name".to_owned(), crate::json::from_str(name)),
        ("status".to_owned(), crate::json::from_str(status_text(resource))),
        ("provider_status".to_owned(), get_or_null(resource, "state")),
        ("region".to_owned(), get_or_null(resource, "zone")),
        ("cluster".to_owned(), get_or_null(resource, "cluster")),
        ("offer_type".to_owned(), get_or_null(resource, "offerType")),
        ("vcpu_count".to_owned(), get_or_null(resource, "vcore")),
        ("ram".to_owned(), get_or_null(resource, "memoryLimit")),
        ("disk".to_owned(), disk),
        ("model".to_owned(), get_or_null(resource, "model")),
        ("netboot_mode".to_owned(), get_or_null(resource, "netbootMode")),
    ];
    proof {
        assert(entry_views(entries@) =~= vps_entries(*resource, name@));
    }
    entries
}

/// A VPS as an inventory item.
pub fn normalize_vps(service_name: &str, resource: serde_json::Value) -> (r: InventoryItem)
    ensures
        r.external_type@ == "compute_instance"@,
        r.external_id@ == service_name@,
        r.name@ == vps_name(resource, service_name@),
        r.state == json_from_entries(vps_entries(resource, r.name@)),
        r.metadata == resource,
{
    let name = name_text(&resource, service_name);
    let entries = state_entries(&resource, name.as_str());
    InventoryItem {
        external_type: "compute_instance".to_owned(),
        external_id: service_name.to_owned(),
        name,
        state: crate::json::from_entries(entries),
        metadata: resource,
    }
}

/// The calls that carry out an action on a VPS.
#[derive(Debug)]
pub enum VpsCalls {
    /// Read the VPS.
    Read(String),
    /// Ask for a power action (the reply is the provider's task), then read the VPS.
    Power(String, String),
}

/// The calls for a lifecycle request on a VPS.
pub fn execute_plan(request: &ProviderOperationRequest) -> (r: Result<
    (String, VpsCalls),
    ProviderError,
>)
    ensures
        if request.resource_type@ != "compute_instance"@ {
            r matches Err(e) && is_configuration_error(
                e,
                "unsupported_operation_resource_type"@,
                false,
            )
        } else {
            match request.external_id {
                None => r matches Err(e) && is_configuration_error(
                    e,
                    "service_name_required"@,
                    false,
                ),
                Some(name) => if !valid_service_name(name@) {
                    r matches Err(e) && is_configuration_error(e, "invalid_service_name"@, false)
                } else if request.action@ == "get"@ {
                    r matches Ok((n, VpsCalls::Read(path))) && n@ == name@ && path@ == "/vps/"@
                        + name@
                } else if request.action@ == "start"@ || request.action@ == "stop"@
                    || request.action@ == "reboot"@ {
                    r matches Ok((n, VpsCalls::Power(action_path, read_path))) && n@ == name@
                        && action_path@ == "/vps/"@ + name@ + "/"@ + request.action@
                        && read_path@ == "/vps/"@ + name@
                } else {
                    r matches Err(e) && is_configuration_error(
                        e,
                        "unsupported_ovh_vps_action"@,
                        false,
                    )
                },
            }
        },
{
    if !str_equals(request.resource_type.as_str(), "compute_instance") {
        return Err(ProviderError::configuration("unsupported_operation_resource_type", false));
    }
    let name = match &request.external_id {
        Some(n) => n.as_str(),
        None => {
            return Err(ProviderError::configuration("service_name_required", false));
        },
    };
    validate_service_name(name)?;
    let mut path = "/vps/".to_owned();
    path.append(name);
    let action = request.action.as_str();
    if str_equals(action, "get") {
        return Ok((name.to_owned(), VpsCalls::Read(path)));
    }
    if str_equals(action, "start") || str_equals(action, "stop") || str_equals(action, "reboot") {
        let mut action_path = path.clone();
        action_path.append("/");
        action_path.append(action);
        return Ok((name.to_owned(), VpsCalls::Power(action_path, path)));
    }
    Err(ProviderError::configuration("unsupported_ovh_vps_action", false))
}

/// The outcome of a VPS action: the normalized VPS, with the provider's task where one was
/// started.
pub fn vps_result(service_name: &str, resource: serde_json::Value, task: Option<serde_json::Value>) -> (r:
    ProviderOperationResult)
    ensures
        r.external_id matches Some(s) && s@ == service_name@,
        match task {
            Some(t) => r.state == json_from_entries(
                vps_entries(resource, vps_name(resource, service_name@)).push(("provider_task"@, t)),
            ),
            None => r.state == json_from_entries(
                vps_entries(resource, vps_name(resource, service_name@)),
            ),
        },
{
    let name = name_text(&resource, service_name);
    let mut entries = state_entries(&resource, name.as_str());
    match task {
        Some(t) => {
            let ghost before = entries@;
            entries.push(("provider_task".to_owned(), t));
            proof {
                assert(entry_views(entries@) =~= entry_views(before).push(("provider_task"@, t)));
            }
        },
        None => {},
    }
    ProviderOperationResult {
        external_id: Some(service_name.to_owned()),
        state: crate::json::from_entries(entries),
    }
}

} // verus!
