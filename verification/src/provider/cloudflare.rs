//! Cloudflare: API-token or global-key authentication, DNS zone and record inventory, and DNS
//! record lifecycle.
use crate::json::{
    entry_views, get_str, json_as_str, json_from_entries, json_from_items, json_from_string,
    json_get, string_member,
};
use crate::provider::http::{HttpMethod, PlannedCall};
use crate::provider::{
    decimal, field_or_null, get_or_null, is_configuration_error, Capability, CredentialMaterial,
    CredentialType, InventoryItem, InventoryRequest, ProviderError, ProviderErrorCategory,
    ProviderOperationRequest, ProviderOperationResult, ValidationResult,
};
use crate::text::{byte_len, chars_of, str_equals, utf8_len};
use vstd::prelude::*;

verus! {

/// How a request authenticates to Cloudflare.
#[derive(Debug)]
pub enum CloudflareAuth {
    /// `Authorization: Bearer <token>`.
    Bearer { token: String },
    /// `X-Auth-Email` and `X-Auth-Key`.
    GlobalKey { email: String, key: String },
}

/// The authentication of a credential: API tokens and opaque secrets as bearer tokens, a global
/// key with its account email; an OVH application credential cannot be used.
pub fn request_auth(credential: &CredentialMaterial) -> (r: Result<CloudflareAuth, ProviderError>)
    ensures
        match credential.credential_type {
            CredentialType::ApiToken | CredentialType::Opaque => r matches Ok(
                CloudflareAuth::Bearer { token },
            ) && token@ == credential.secret@,
            CredentialType::OvhApplication => r matches Err(e) && is_configuration_error(
                e,
                "unsupported_cloudflare_credential_type"@,
                false,
            ),
            CredentialType::GlobalApiKey => match credential.identity {
                Some(email) => r matches Ok(CloudflareAuth::GlobalKey { email: e, key })
                    && e@ == email@ && key@ == credential.secret@,
                None => r matches Err(e) && is_configuration_error(
                    e,
                    "global_api_key_email_required"@,
                    false,
                ),
            },
        },
{
    match credential.credential_type {
        CredentialType::ApiToken | CredentialType::Opaque => Ok(
            CloudflareAuth::Bearer { token: credential.secret.clone() },
        ),
        CredentialType::OvhApplication => Err(
            ProviderError::configuration("unsupported_cloudflare_credential_type", false),
        ),
        CredentialType::GlobalApiKey => match &credential.identity {
            Some(email) => Ok(
                CloudflareAuth::GlobalKey { email: email.clone(), key: credential.secret.clone() },
            ),
            None => Err(ProviderError::configuration("global_api_key_email_required", false)),
        },
    }
}

/// Where a credential is checked: `/user` for a global key, the token verification otherwise.
pub fn validation_path(credential_type: CredentialType) -> (r: &'static str)
    ensures
        r@ == if credential_type == CredentialType::GlobalApiKey {
            "/user"@
        } else {
            "/user/tokens/verify"@
        },
{
    match credential_type {
        CredentialType::GlobalApiKey => "/user",
        _ => "/user/tokens/verify",
    }
}

/// The identity that a `/user` result reports: its `id`, when that is a string.
pub fn user_identity(result: &serde_json::Value) -> (r: Option<String>)
    ensures
        match json_get(*result, "id"@) {
            Some(id) => match json_as_str(id) {
                Some(text) => r matches Some(s) && s@ == text,
                None => r is None,
            },
            None => r is None,
        },
{
    match crate::json::get(result, "id") {
        Some(id) => crate::json::as_str(&id),
        None => None,
    }
}

/// A verified token must be reported as `active`.
pub fn token_active(success: bool, status: &str) -> (r: bool)
    ensures
        r == (success && status@ == "active"@),
{
    success && str_equals(status, "active")
}

/// The outcome of a credential check: an inactive credential is an authentication failure.
pub fn validation_outcome(valid: bool, identity: Option<String>) -> (r: Result<
    ValidationResult,
    ProviderError,
>)
    ensures
        valid ==> (r matches Ok(v) && v.valid && v.identity == identity && v.scopes@.len() == 0),
        !valid ==> (r matches Err(e) && e.category == ProviderErrorCategory::Authentication
            && e.code@ == "inactive_api_token"@ && !e.retryable && e.retry_after_seconds is None
            && e.safe_message@ == "Cloudflare API token is not active"@),
{
    if !valid {
        return Err(
            ProviderError {
                category: ProviderErrorCategory::Authentication,
                code: "inactive_api_token".to_owned(),
                retryable: false,
                retry_after_seconds: None,
                safe_message: "Cloudflare API token is not active".to_owned(),
            },
        );
    }
    Ok(ValidationResult { valid, identity, scopes: Vec::new() })
}

/// The capabilities a credential has: DNS when it can list zones.
pub fn zone_capabilities(zones_listed: bool) -> (r: Vec<Capability>)
    ensures
        r@ == if zones_listed {
            seq![Capability::Dns]
        } else {
            Seq::<Capability>::empty()
        },
{
    if zones_listed {
        vec![Capability::Dns]
    } else {
        Vec::new()
    }
}

/// A character of a Cloudflare identifier.
pub open spec fn external_id_char(c: char) -> bool {
    ('a' <= c && c <= 'z') || ('A' <= c && c <= 'Z') || ('0' <= c && c <= '9') || c == '-' || c
        == '_'
}

/// A Cloudflare identifier: 1 to 128 bytes of ASCII letters, digits, `-` and `_`.
pub open spec fn valid_external_id(value: Seq<char>) -> bool {
    &&& value.len() > 0
    &&& utf8_len(value) <= 128
    &&& forall|i: int| 0 <= i < value.len() ==> external_id_char(#[trigger] value[i])
}

/// Rejects an identifier that could not safely stand in a request path.
pub fn validate_external_id(value: &str) -> (r: Result<(), ProviderError>)
    ensures
        r is Ok <==> valid_external_id(value@),
        r matches Err(e) ==> is_configuration_error(e, "invalid_external_id"@, false),
{
    let chars = chars_of(value);
    let mut i: usize = 0;
    let mut ok = true;
    while i < chars.len()
        invariant
            chars@ == value@,
            i <= chars.len(),
            ok == forall|j: int| 0 <= j < i ==> external_id_char(#[trigger] value@[j]),
        decreases chars.len() - i,
    {
        let c = chars[i];
        if !(('a' <= c && c <= 'z') || ('A' <= c && c <= 'Z') || ('0' <= c && c <= '9') || c
            == '-' || c == '_') {
            ok = false;
        }
        i += 1;
    }
    if chars.len() > 0 && byte_len(value) <= 128 && ok {
        Ok(())
    } else {
        Err(ProviderError::configuration("invalid_external_id", false))
    }
}

/// The DNS record types that are managed.
pub open spec fn supported_record_type(value: Seq<char>) -> bool {
    value == "A"@ || value == "AAAA"@ || value == "CNAME"@ || value == "TXT"@ || value == "MX"@
}

pub fn is_supported_record_type(value: &str) -> (r: bool)
    ensures
        r == supported_record_type(value@),
{
    str_equals(value, "A") || str_equals(value, "AAAA") || str_equals(value, "CNAME")
        || str_equals(value, "TXT") || str_equals(value, "MX")
}

/// The parameters of a record to write: a supported type, a name and a content, all strings.
pub open spec fn dns_record_parameters_ok(parameters: serde_json::Value) -> bool {
    &&& string_member(parameters, "type"@) matches Some(t) && supported_record_type(t)
    &&& string_member(parameters, "name"@) is Some
    &&& string_member(parameters, "content"@) is Some
}

pub fn validate_dns_record_parameters(parameters: &serde_json::Value) -> (r: Result<
    (),
    ProviderError,
>)
    ensures
        r is Ok <==> dns_record_parameters_ok(*parameters),
        r matches Err(e) ==> is_configuration_error(e, "invalid_dns_record_parameters"@, false),
{
    let record_type = get_str(parameters, "type");
    let supported = match &record_type {
        Some(t) => is_supported_record_type(t.as_str()),
        None => false,
    };
    if supported && get_str(parameters, "name").is_some() && get_str(
        parameters,
        "content",
    ).is_some() {
        Ok(())
    } else {
        Err(ProviderError::configuration("invalid_dns_record_parameters", false))
    }
}

pub open spec fn all_digits(s: Seq<char>) -> bool {
    forall|i: int| 0 <= i < s.len() ==> '0' <= #[trigger] s[i] && s[i] <= '9'
}

/// The page an inventory request asks for: its cursor, or the first page.
pub open spec fn requested_page(request: InventoryRequest) -> Seq<char> {
    match request.cursor {
        Some(c) => c@,
        None => "1"@,
    }
}

/// The listing to fetch for an inventory request, and the type of what it lists: zones, or the
/// records of the parent zone, page by page.
pub fn inventory_plan(request: &InventoryRequest) -> (r: Result<(String, &'static str), ProviderError>)
    ensures
        ({
            let page = requested_page(*request);
            if !all_digits(page) {
                r matches Err(e) && is_configuration_error(e, "invalid_inventory_cursor"@, false)
            } else if request.resource_type@ == "dns_zone"@ {
                r matches Ok((path, t)) && path@ == "/zones?per_page=50&page="@ + page && t@
                    == "dns_zone"@
            } else if request.resource_type@ == "dns_record"@ {
                match request.parent_external_id {
                    None => r matches Err(e) && is_configuration_error(
                        e,
                        "dns_zone_id_required"@,
                        false,
                    ),
                    Some(zone) => if !valid_external_id(zone@) {
                        r matches Err(e) && is_configuration_error(e, "invalid_external_id"@, false)
                    } else {
                        r matches Ok((path, t)) && path@ == "/zones/"@ + zone@
                            + "/dns_records?per_page=100&page="@ + page && t@ == "dns_record"@
                    },
                }
            } else {
                r matches Err(e) && is_configuration_error(
                    e,
                    "unsupported_inventory_resource_type"@,
                    false,
                )
            }
        }),
{
    let page: &str = match &request.cursor {
        Some(c) => c.as_str(),
        None => "1",
    };
    let chars = chars_of(page);
    let mut i: usize = 0;
    while i < chars.len()
        invariant
            chars@ == page@,
            page@ == requested_page(*request),
            i <= chars.len(),
            forall|j: int| 0 <= j < i ==> '0' <= #[trigger] page@[j] && page@[j] <= '9',
        decreases chars.len() - i,
    {
        if !('0' <= chars[i] && chars[i] <= '9') {
            return Err(ProviderError::configuration("invalid_inventory_cursor", false));
        }
        i += 1;
    }
    if str_equals(request.resource_type.as_str(), "dns_zone") {
        let mut path = "/zones?per_page=50&page=".to_owned();
        path.append(page);
        Ok((path, "dns_zone"))
    } else if str_equals(request.resource_type.as_str(), "dns_record") {
        let zone = match &request.parent_external_id {
            Some(z) => z.as_str(),
            None => {
                return Err(ProviderError::configuration("dns_zone_id_required", false));
            },
        };
        validate_external_id(zone)?;
        let mut path = "/zones/".to_owned();
        path.append(zone);
        path.append("/dns_records?per_page=100&page=");
        path.append(page);
        Ok((path, "dns_record"))
    } else {
        Err(ProviderError::configuration("unsupported_inventory_resource_type", false))
    }
}

/// Records of unsupported types are left out of the inventory; zones are all kept.
pub open spec fn keeps_resource(external_type: Seq<char>, resource: serde_json::Value) -> bool {
    external_type != "dns_record"@ || (string_member(resource, "type"@) matches Some(t)
        && supported_record_type(t))
}

pub fn keep_resource(external_type: &str, resource: &serde_json::Value) -> (r: bool)
    ensures
        r == keeps_resource(external_type@, *resource),
{
    if !str_equals(external_type, "dns_record") {
        return true;
    }
    match get_str(resource, "type") {
        Some(t) => is_supported_record_type(t.as_str()),
        None => false,
    }
}

/// The normalized state of a zone or record.
pub open spec fn normalized_state(
    external_type: Seq<char>,
    resource: serde_json::Value,
    name: Seq<char>,
) -> serde_json::Value {
    if external_type == "dns_zone"@ {
        json_from_entries(
            seq![
                ("name"@, json_from_string(name)),
                ("status"@, field_or_null(resource, "status"@)),
                ("name_servers"@, match json_get(resource, "name_servers"@) {
                    Some(v) => v,
                    None => json_from_items(Seq::empty()),
                }),
            ],
        )
    } else {
        json_from_entries(
            seq![
                ("type"@, field_or_null(resource, "type"@)),
                ("name"@, json_from_string(name)),
                ("content"@, field_or_null(resource, "content"@)),
                ("ttl"@, field_or_null(resource, "ttl"@)),
                ("priority"@, field_or_null(resource, "priority"@)),
                ("proxied"@, field_or_null(resource, "proxied"@)),
            ],
        )
    }
}

/// `item` is what a resource with the given identifier and name normalizes to.
pub open spec fn normalizes_to(
    external_type: Seq<char>,
    resource: serde_json::Value,
    item: InventoryItem,
) -> bool {
    &&& string_member(resource, "id"@) == Some(item.external_id@)
    &&& string_member(resource, "name"@) == Some(item.name@)
    &&& item.external_type@ == external_type
    &&& item.state == normalized_state(external_type, resource, item.name@)
    &&& item.metadata == resource
}

/// The error code for a resource that cannot be normalized, if any.
pub open spec fn normalize_failure(resource: serde_json::Value) -> Option<Seq<char>> {
    if string_member(resource, "id"@) is None {
        Some("provider_resource_id_missing"@)
    } else if string_member(resource, "name"@) is None {
        Some("provider_resource_name_missing"@)
    } else {
        None
    }
}

/// A zone or record as an inventory item; its identifier and name must be strings.
pub fn normalize_inventory_item(external_type: &str, resource: serde_json::Value) -> (r: Result<
    InventoryItem,
    ProviderError,
>)
    ensures
        match normalize_failure(resource) {
            Some(code) => r matches Err(e) && is_configuration_error(e, code, false),
            None => r matches Ok(item) && normalizes_to(external_type@, resource, item),
        },
{
    let external_id = match get_str(&resource, "id") {
        Some(id) => id,
        None => {
            return Err(ProviderError::configuration("provider_resource_id_missing", false));
        },
    };
    let name = match get_str(&resource, "name") {
        Some(n) => n,
        None => {
            return Err(ProviderError::configuration("provider_resource_name_missing", false));
        },
    };
    let state = if str_equals(external_type, "dns_zone") {
        let name_servers = match crate::json::get(&resource, "name_servers") {
            Some(v) => v,
            None => crate::json::from_items(Vec::new()),
        };
        let entries = vec![
            ("name".to_owned(), crate::json::from_str(name.as_str())),
            ("status".to_owned(), get_or_null(&resource, "status")),
            ("name_servers".to_owned(), name_servers),
        ];
        proof {
            assert(entry_views(entries@) == seq![
                ("name"@, json_from_string(name@)),
                ("status"@, field_or_null(resource, "status"@)),
                ("name_servers"@, match json_get(resource, "name_servers"@) {
                    Some(v) => v,
                    None => json_from_items(Seq::empty()),
                }),
            ]);
        }
        crate::json::from_entries(entries)
    } else {
        let entries = vec![
            ("type".to_owned(), get_or_null(&resource, "type")),
            ("name".to_owned(), crate::json::from_str(name.as_str())),
            ("content".to_owned(), get_or_null(&resource, "content")),
            ("ttl".to_owned(), get_or_null(&resource, "ttl")),
            ("priority".to_owned(), get_or_null(&resource, "priority")),
            ("proxied".to_owned(), get_or_null(&resource, "proxied")),
        ];
        proof {
            assert(entry_views(entries@) == seq![
                ("type"@, field_or_null(resource, "type"@)),
                ("name"@, json_from_string(name@)),
                ("content"@, field_or_null(resource, "content"@)),
                ("ttl"@, field_or_null(resource, "ttl"@)),
                ("priority"@, field_or_null(resource, "priority"@)),
                ("proxied"@, field_or_null(resource, "proxied"@)),
            ]);
        }
        crate::json::from_entries(entries)
    };
    Ok(
        InventoryItem {
            external_type: external_type.to_owned(),
            external_id,
            name,
            state,
            metadata: resource,
        },
    )
}

/// The resources that an inventory keeps, in order.
pub open spec fn kept_resources(external_type: Seq<char>, resources: Seq<serde_json::Value>) -> Seq<
    serde_json::Value,
>
    decreases resources.len(),
{
    if resources.len() == 0 {
        Seq::empty()
    } else {
        let rest = kept_resources(external_type, resources.drop_last());
        if keeps_resource(external_type, resources.last()) {
            rest.push(resources.last())
        } else {
            rest
        }
    }
}

/// The error code of the first of `kept` that cannot be normalized, if any.
pub open spec fn first_failure(kept: Seq<serde_json::Value>) -> Option<Seq<char>>
    decreases kept.len(),
{
    if kept.len() == 0 {
        None
    } else {
        match first_failure(kept.drop_last()) {
            Some(code) => Some(code),
            None => normalize_failure(kept.last()),
        }
    }
}

/// The items of a listing: the kept resources, normalized in order; the first that cannot be
/// normalized fails the whole page.
pub fn inventory_items(external_type: &str, resources: Vec<serde_json::Value>) -> (r: Result<
    Vec<InventoryItem>,
    ProviderError,
>)
    ensures
        ({
            let kept = kept_resources(external_type@, resources@);
            match first_failure(kept) {
                None => r matches Ok(items) && items@.len() == kept.len() && forall|i: int|
                    0 <= i < kept.len() ==> normalizes_to(
                        external_type@,
                        kept[i],
                        #[trigger] items@[i],
                    ),
                Some(code) => r matches Err(e) && is_configuration_error(e, code, false),
            }
        }),
{
    let mut items: Vec<InventoryItem> = Vec::new();
    let mut i: usize = 0;
    let ghost all = resources@;
    while i < resources.len()
        invariant
            resources@ == all,
            i <= resources.len(),
            ({
                let kept = kept_resources(external_type@, all.subrange(0, i as int));
                &&& items@.len() == kept.len()
                &&& forall|k: int|
                    0 <= k < kept.len() ==> normalizes_to(
                        external_type@,
                        kept[k],
                        #[trigger] items@[k],
                    )
                &&& first_failure(kept) is None
            }),
        decreases resources.len() - i,
    {
        let resource = crate::json::duplicate(&resources[i]);
        let ghost prefix = all.subrange(0, i as int);
        let ghost next = all.subrange(0, i + 1);
        proof {
            assert(next.drop_last() == prefix);
            assert(next.last() == all[i as int]);
        }
        if keep_resource(external_type, &resource) {
            let ghost kept_prefix = kept_resources(external_type@, prefix);
            proof {
                assert(kept_resources(external_type@, next) == kept_prefix.push(all[i as int]));
                assert(kept_prefix.push(all[i as int]).drop_last() == kept_prefix);
            }
            match normalize_inventory_item(external_type, resource) {
                Ok(item) => {
                    items.push(item);
                },
                Err(e) => {
                    proof {
                        lemma_failure_persists(external_type@, all, i as int + 1, all.len() as int);
                        assert(all.subrange(0, all.len() as int) == all);
                    }
                    return Err(e);
                },
            }
        }
        i += 1;
    }
    proof {
        assert(all.subrange(0, all.len() as int) == all);
    }
    Ok(items)
}

/// Once a prefix of the listing holds a resource that cannot be normalized, every longer prefix
/// fails with the same code.
proof fn lemma_failure_persists(
    external_type: Seq<char>,
    all: Seq<serde_json::Value>,
    n: int,
    m: int,
)
    requires
        0 <= n <= m <= all.len(),
        first_failure(kept_resources(external_type, all.subrange(0, n))) is Some,
    ensures
        first_failure(kept_resources(external_type, all.subrange(0, m))) == first_failure(
            kept_resources(external_type, all.subrange(0, n)),
        ),
    decreases m - n,
{
    if n < m {
        let t = all.subrange(0, n + 1);
        assert(t.drop_last() == all.subrange(0, n));
        let k = kept_resources(external_type, all.subrange(0, n));
        if keeps_resource(external_type, t.last()) {
            assert(k.push(t.last()).drop_last() == k);
        }
        lemma_failure_persists(external_type, all, n + 1, m);
    }
}

/// The cursor of the next page: the page after the current one, while there is one.
pub fn next_page_cursor(page: Option<u32>, total_pages: Option<u32>) -> (r: Option<String>)
    ensures
        match (page, total_pages) {
            (Some(p), Some(t)) => if p < t {
                r matches Some(s) && s@ == decimal((p + 1) as nat)
            } else {
                r is None
            },
            _ => r is None,
        },
{
    match (page, total_pages) {
        (Some(p), Some(t)) => {
            if p < t {
                Some(crate::provider::u64_to_decimal((p + 1) as u64))
            } else {
                None
            }
        },
        _ => None,
    }
}

/// The call that performs a DNS record operation: create, update or delete a record of the zone
/// named in the parameters.
pub fn execute_plan(request: &ProviderOperationRequest) -> (r: Result<PlannedCall, ProviderError>)
    ensures
        ({
            let zone = string_member(request.parameters, "zone_id"@);
            if request.resource_type@ != "dns_record"@ {
                r matches Err(e) && is_configuration_error(
                    e,
                    "unsupported_operation_resource_type"@,
                    false,
                )
            } else if zone is None {
                r matches Err(e) && is_configuration_error(e, "dns_zone_id_required"@, false)
            } else if !valid_external_id(zone->0) {
                r matches Err(e) && is_configuration_error(e, "invalid_external_id"@, false)
            } else if request.action@ == "create"@ {
                if !dns_record_parameters_ok(request.parameters) {
                    r matches Err(e) && is_configuration_error(
                        e,
                        "invalid_dns_record_parameters"@,
                        false,
                    )
                } else {
                    r matches Ok(call) && call.method == HttpMethod::Post && call.path@ == "/zones/"@
                        + zone->0 + "/dns_records"@ && call.body == Some(request.parameters)
                }
            } else if request.action@ == "update"@ {
                if !dns_record_parameters_ok(request.parameters) {
                    r matches Err(e) && is_configuration_error(
                        e,
                        "invalid_dns_record_parameters"@,
                        false,
                    )
                } else {
                    match request.external_id {
                        None => r matches Err(e) && is_configuration_error(
                            e,
                            "dns_record_id_required"@,
                            false,
                        ),
                        Some(record) => if !valid_external_id(record@) {
                            r matches Err(e) && is_configuration_error(
                                e,
                                "invalid_external_id"@,
                                false,
                            )
                        } else {
                            r matches Ok(call) && call.method == HttpMethod::Put && call.path@
                                == "/zones/"@ + zone->0 + "/dns_records/"@ + record@ && call.body
                                == Some(request.parameters)
                        },
                    }
                }
            } else if request.action@ == "delete"@ {
                match request.external_id {
                    None => r matches Err(e) && is_configuration_error(
                        e,
                        "dns_record_id_required"@,
                        false,
                    ),
                    Some(record) => if !valid_external_id(record@) {
                        r matches Err(e) && is_configuration_error(e, "invalid_external_id"@, false)
                    } else {
                        r matches Ok(call) && call.method == HttpMethod::Delete && call.path@
                            == "/zones/"@ + zone->0 + "/dns_records/"@ + record@ && call.body is None
                    },
                }
            } else {
                r matches Err(e) && is_configuration_error(e, "unsupported_dns_action"@, false)
            }
        }),
{
    if !str_equals(request.resource_type.as_str(), "dns_record") {
        return Err(ProviderError::configuration("unsupported_operation_resource_type", false));
    }
    let zone = match get_str(&request.parameters, "zone_id") {
        Some(z) => z,
        None => {
            return Err(ProviderError::configuration("dns_zone_id_required", false));
        },
    };
    validate_external_id(zone.as_str())?;
    let action = request.action.as_str();
    if str_equals(action, "create") {
        validate_dns_record_parameters(&request.parameters)?;
        let mut path = "/zones/".to_owned();
        path.append(zone.as_str());
        path.append("/dns_records");
        Ok(
            PlannedCall {
                method: HttpMethod::Post,
                path,
                body: Some(crate::json::duplicate(&request.parameters)),
            },
        )
    } else if str_equals(action, "update") {
        validate_dns_record_parameters(&request.parameters)?;
        let record = match &request.external_id {
            Some(r) => r.as_str(),
            None => {
                return Err(ProviderError::configuration("dns_record_id_required", false));
            },
        };
        validate_external_id(record)?;
        let mut path = "/zones/".to_owned();
        path.append(zone.as_str());
        path.append("/dns_records/");
        path.append(record);
        Ok(
            PlannedCall {
                method: HttpMethod::Put,
                path,
                body: Some(crate::json::duplicate(&request.parameters)),
            },
        )
    } else if str_equals(action, "delete") {
        let record = match &request.external_id {
            Some(r) => r.as_str(),
            None => {
                return Err(ProviderError::configuration("dns_record_id_required", false));
            },
        };
        validate_external_id(record)?;
        let mut path = "/zones/".to_owned();
        path.append(zone.as_str());
        path.append("/dns_records/");
        path.append(record);
        Ok(PlannedCall { method: HttpMethod::Delete, path, body: None })
    } else {
        Err(ProviderError::configuration("unsupported_dns_action", false))
    }
}

/// The outcome of a DNS record operation: the record's `id` as reported, or the one requested.
pub fn operation_result(result: serde_json::Value, requested_external_id: &Option<String>) -> (r:
    ProviderOperationResult)
    ensures
        r.state == result,
        match string_member(result, "id"@) {
            Some(id) => r.external_id matches Some(s) && s@ == id,
            None => match requested_external_id {
                Some(given) => r.external_id matches Some(s) && s@ == given@,
                None => r.external_id is None,
            },
        },
{
    let external_id = match get_str(&result, "id") {
        Some(id) => Some(id),
        None => match requested_external_id {
            Some(given) => Some(given.clone()),
            None => None,
        },
    };
    ProviderOperationResult { external_id, state: result }
}

} // verus!
