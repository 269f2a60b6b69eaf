//! Vultr: bearer-token authentication, compute instance inventory and the instance lifecycle.
use crate::json::{
    entry_views, get_str, json_as_str, json_from_entries, json_from_string, json_get, json_is_null,
    string_member,
};
use crate::provider::http::{invalid_response, is_invalid_response, HttpMethod, PlannedCall};
use crate::provider::{
    field_or_null, get_or_null, is_configuration_error, Capability, CredentialMaterial,
    CredentialType, InventoryItem, InventoryPage, InventoryRequest, ProviderError,
    ProviderOperationRequest, ProviderOperationResult, ValidationResult,
};
use crate::text::{byte_len, chars_of, is_ascii_alphanumeric, str_equals, string_from_chars, utf8_len};
use vstd::prelude::*;

verus! {

/// Vultr takes an API token, given as such or as an opaque secret.
pub fn check_credential(credential: &CredentialMaterial) -> (r: Result<(), ProviderError>)
    ensures
        r is Ok <==> (credential.credential_type == CredentialType::ApiToken
            || credential.credential_type == CredentialType::Opaque),
        r matches Err(e) ==> is_configuration_error(e, "unsupported_vultr_credential_type"@, false),
{
    match credential.credential_type {
        CredentialType::ApiToken | CredentialType::Opaque => Ok(()),
        _ => Err(ProviderError::configuration("unsupported_vultr_credential_type", false)),
    }
}

/// A valid credential, identified by the account's email, grants compute.
pub fn validation_result(account: &serde_json::Value) -> (r: ValidationResult)
    ensures
        r.valid,
        match string_member(*account, "email"@) {
            Some(email) => r.identity matches Some(s) && s@ == email,
            None => r.identity is None,
        },
        r.scopes@.len() == 1,
        r.scopes@[0]@ == "compute"@,
{
    ValidationResult {
        valid: true,
        identity: get_str(account, "email"),
        scopes: vec!["compute".to_owned()],
    }
}

/// What a valid Vultr credential offers.
pub fn discovered_capabilities() -> (r: Vec<Capability>)
    ensures
        r@ == seq![Capability::Compute],
{
    vec![Capability::Compute]
}

/// A character of an instance identifier.
pub open spec fn instance_id_char(c: char) -> bool {
    is_ascii_alphanumeric(c) || c == '-'
}

/// An instance identifier: 1 to 128 bytes of ASCII letters, digits and hyphens.
pub open spec fn valid_external_id(value: Seq<char>) -> bool {
    &&& value.len() > 0
    &&& utf8_len(value) <= 128
    &&& forall|i: int| 0 <= i < value.len() ==> instance_id_char(#[trigger] value[i])
}

pub fn validate_external_id(value: &str) -> (r: Result<(), ProviderError>)
    ensures
        r is Ok <==> valid_external_id(value@),
        r matches Err(e) ==> is_configuration_error(e, "invalid_external_id"@, false),
{
    let chars = chars_of(value);
    let mut i: usize = 0;
    let mut ok = true;
    while i < chars.len()
        invariant
            chars@ == value@,
            i <= chars.len(),
            ok == forall|j: int| 0 <= j < i ==> instance_id_char(#[trigger] value@[j]),
        decreases chars.len() - i,
    {
        let c = chars[i];
        if !(('a' <= c && c <= 'z') || ('A' <= c && c <= 'Z') || ('0' <= c && c <= '9') || c
            == '-') {
            ok = false;
        }
        i += 1;
    }
    if chars.len() > 0 && byte_len(value) <= 128 && ok {
        Ok(())
    } else {
        Err(ProviderError::configuration("invalid_external_id", false))
    }
}

/// A character of a listing cursor.
pub open spec fn cursor_char(c: char) -> bool {
    is_ascii_alphanumeric(c) || c == '-' || c == '_' || c == '='
}

/// A listing cursor: 1 to 512 bytes of ASCII letters, digits, `-`, `_` and `=`.
pub open spec fn valid_cursor(value: Seq<char>) -> bool {
    &&& value.len() > 0
    &&& utf8_len(value) <= 512
    &&& forall|i: int| 0 <= i < value.len() ==> cursor_char(#[trigger] value[i])
}

pub fn validate_cursor(value: &str) -> (r: Result<(), ProviderError>)
    ensures
        r is Ok <==> valid_cursor(value@),
        r matches Err(e) ==> is_configuration_error(e, "invalid_inventory_cursor"@, false),
{
    let chars = chars_of(value);
    let mut i: usize = 0;
    let mut ok = true;
    while i < chars.len()
        invariant
            chars@ == value@,
            i <= chars.len(),
            ok == forall|j: int| 0 <= j < i ==> cursor_char(#[trigger] value@[j]),
        decreases chars.len() - i,
    {
        let c = chars[i];
        if !(('a' <= c && c <= 'z') || ('A' <= c && c <= 'Z') || ('0' <= c && c <= '9') || c
            == '-' || c == '_' || c == '=') {
            ok = false;
        }
        i += 1;
    }
    if chars.len() > 0 && byte_len(value) <= 512 && ok {
        Ok(())
    } else {
        Err(ProviderError::configuration("invalid_inventory_cursor", false))
    }
}

/// The listing to fetch for an inventory request: compute instances only, a hundred a page,
/// from the cursor if one is given.
pub fn inventory_path(request: &InventoryRequest) -> (r: Result<String, ProviderError>)
    ensures
        if request.resource_type@ != "compute_instance"@ || request.parent_external_id is Some {
            r matches Err(e) && is_configuration_error(
                e,
                "unsupported_inventory_resource_type"@,
                false,
            )
        } else {
            match request.cursor {
                Some(c) => if valid_cursor(c@) {
                    r matches Ok(path) && path@ == "/instances?per_page=100&cursor="@ + c@
                } else {
                    r matches Err(e) && is_configuration_error(
                        e,
                        "invalid_inventory_cursor"@,
                        false,
                    )
                },
                None => r matches Ok(path) && path@ == "/instances?per_page=100"@,
            }
        },
{
    if !str_equals(request.resource_type.as_str(), "compute_instance")
        || request.parent_external_id.is_some() {
        return Err(ProviderError::configuration("unsupported_inventory_resource_type", false));
    }
    match &request.cursor {
        Some(cursor) => {
            validate_cursor(cursor.as_str())?;
            let mut path = "/instances?per_page=100&cursor=".to_owned();
            path.append(cursor.as_str());
            Ok(path)
        },
        None => Ok("/instances?per_page=100".to_owned()),
    }
}

/// The position of the first `c` in `s`, or the length of `s` where there is none.
pub open spec fn find_char(s: Seq<char>, c: char) -> int
    decreases s.len(),
{
    if s.len() == 0 {
        0
    } else if s[0] == c {
        0
    } else {
        1 + find_char(s.drop_first(), c)
    }
}

pub proof fn lemma_find_char_bounds(s: Seq<char>, c: char)
    ensures
        0 <= find_char(s, c) <= s.len(),
        find_char(s, c) < s.len() ==> s[find_char(s, c)] == c,
    decreases s.len(),
{
    if s.len() > 0 && s[0] != c {
        lemma_find_char_bounds(s.drop_first(), c);
    }
}

proof fn lemma_find_char(s: Seq<char>, c: char, k: int)
    requires
        0 <= k <= s.len(),
        forall|j: int| 0 <= j < k ==> s[j] != c,
        k == s.len() || s[k] == c,
    ensures
        find_char(s, c) == k,
    decreases k,
{
    if k > 0 {
        let t = s.drop_first();
        assert forall|j: int| 0 <= j < k - 1 implies t[j] != c by {
            assert(t[j] == s[j + 1]);
        }
        if k < s.len() {
            assert(t[k - 1] == s[k]);
        }
        lemma_find_char(t, c, k - 1);
    }
}

/// The cursor that one `key=value` pair of a query carries, if it is `cursor` with a valid
/// value.
pub open spec fn pair_cursor(pair: Seq<char>) -> Option<Seq<char>> {
    let eq = find_char(pair, '=');
    if eq < pair.len() && pair.subrange(0, eq) == "cursor"@ && valid_cursor(
        pair.subrange(eq + 1, pair.len() as int),
    ) {
        Some(pair.subrange(eq + 1, pair.len() as int))
    } else {
        None
    }
}

/// The first cursor among the `&`-separated pairs of a query.
pub open spec fn query_cursor(query: Seq<char>) -> Option<Seq<char>>
    decreases query.len(),
{
    let end = find_char(query, '&');
    match pair_cursor(query.subrange(0, end)) {
        Some(c) => Some(c),
        None => if end >= query.len() {
            None
        } else {
            proof {
                lemma_find_char_bounds(query, '&');
            }
            query_cursor(query.subrange(end + 1, query.len() as int))
        },
    }
}

/// The query of a link: what follows its first `?`, or the whole link.
pub open spec fn link_query(next: Seq<char>) -> Seq<char> {
    let q = find_char(next, '?');
    if q < next.len() {
        next.subrange(q + 1, next.len() as int)
    } else {
        next
    }
}

/// The first position at or after `from` that holds `c`, or the length.
fn find_from(chars: &Vec<char>, from: usize, c: char) -> (r: usize)
    requires
        from <= chars@.len(),
    ensures
        r == from + find_char(chars@.subrange(from as int, chars@.len() as int), c),
        from <= r <= chars@.len(),
{
    let mut i = from;
    while i < chars.len() && chars[i] != c
        invariant
            from <= i <= chars@.len(),
            forall|j: int| from <= j < i ==> chars@[j] != c,
        decreases chars.len() - i,
    {
        i += 1;
    }
    proof {
        let s = chars@.subrange(from as int, chars@.len() as int);
        assert forall|j: int| 0 <= j < i - from implies s[j] != c by {
            assert(s[j] == chars@[from + j]);
        }
        if i < chars@.len() {
            assert(s[i - from] == chars@[i as int]);
        }
        lemma_find_char(s, c, i - from);
    }
    i
}

fn chars_between(chars: &Vec<char>, from: usize, to: usize) -> (r: Vec<char>)
    requires
        from <= to <= chars@.len(),
    ensures
        r@ == chars@.subrange(from as int, to as int),
{
    let mut out: Vec<char> = Vec::new();
    let mut i = from;
    while i < to
        invariant
            from <= i <= to,
            to <= chars@.len(),
            out@ == chars@.subrange(from as int, i as int),
        decreases to - i,
    {
        out.push(chars[i]);
        proof {
            assert(chars@.subrange(from as int, i + 1) == chars@.subrange(from as int, i as int).push(
                chars@[i as int],
            ));
        }
        i += 1;
    }
    out
}

/// The cursor of the next page, read from the `next` link of a listing: the value of its first
/// `cursor` pair, if that value is a valid cursor.
pub fn extract_cursor(next: &str) -> (r: Option<String>)
    ensures
        match query_cursor(link_query(next@)) {
            Some(c) => r matches Some(s) && s@ == c,
            None => r is None,
        },
{
    let all = chars_of(next);
    let q = find_from(&all, 0, '?');
    proof {
        assert(all@.subrange(0, all@.len() as int) == next@);
    }
    let start = if q < all.len() {
        q + 1
    } else {
        0
    };
    let ghost query = all@.subrange(start as int, all@.len() as int);
    proof {
        if q >= all.len() {
            assert(query == next@);
        }
        assert(query == link_query(next@));
    }
    let mut pos = start;
    loop
        invariant
            start <= pos <= all@.len(),
            query == all@.subrange(start as int, all@.len() as int),
            query_cursor(query) == query_cursor(all@.subrange(pos as int, all@.len() as int)),
            query == link_query(next@),
        decreases all@.len() - pos,
    {
        let rest = Ghost(all@.subrange(pos as int, all@.len() as int));
        let end = find_from(&all, pos, '&');
        let pair = chars_between(&all, pos, end);
        proof {
            assert(pair@ == rest@.subrange(0, end - pos));
        }
        let eq = find_from(&pair, 0, '=');
        proof {
            assert(pair@.subrange(0, pair@.len() as int) == pair@);
        }
        if eq < pair.len() {
            let key = string_from_chars(&chars_between(&pair, 0, eq));
            let value = string_from_chars(&chars_between(&pair, eq + 1, pair.len()));
            if str_equals(key.as_str(), "cursor") && validate_cursor(value.as_str()).is_ok() {
                return Some(value);
            }
        }
        if end >= all.len() {
            return None;
        }
        proof {
            assert(all@.subrange(end + 1, all@.len() as int) == rest@.subrange(
                end - pos + 1,
                rest@.len() as int,
            ));
        }
        pos = end + 1;
    }
}

/// The name of an instance: its label (or, without one, its hostname) if that is a string, or
/// its identifier.
pub open spec fn instance_name(instance: serde_json::Value, id: Seq<char>) -> Seq<char> {
    let named = match json_get(instance, "label"@) {
        Some(v) => Some(v),
        None => json_get(instance, "hostname"@),
    };
    match named {
        Some(v) => match json_as_str(v) {
            Some(s) => s,
            None => id,
        },
        None => id,
    }
}

/// The normalized status of an instance, from its power status and its status.
pub open spec fn instance_status(instance: serde_json::Value) -> Seq<char> {
    let power = string_member(instance, "power_status"@);
    let status = string_member(instance, "status"@);
    if power == Some("running"@) || status == Some("active"@) {
        "running"@
    } else if power == Some("stopped"@) || status == Some("suspended"@) {
        "stopped"@
    } else if status == Some("pending"@) {
        "provisioning"@
    } else {
        "unknown"@
    }
}

/// The normalized state of an instance.
pub open spec fn instance_state(instance: serde_json::Value, name: Seq<char>) -> serde_json::Value {
    json_from_entries(
        seq![
            ("name"@, json_from_string(name)),
            ("status"@, json_from_string(instance_status(instance))),
            ("provider_status"@, field_or_null(instance, "status"@)),
            ("power_status"@, field_or_null(instance, "power_status"@)),
            ("server_status"@, field_or_null(instance, "server_status"@)),
            ("region"@, field_or_null(instance, "region"@)),
            ("plan"@, field_or_null(instance, "plan"@)),
            ("os"@, field_or_null(instance, "os"@)),
            ("vcpu_count"@, field_or_null(instance, "vcpu_count"@)),
            ("ram"@, field_or_null(instance, "ram"@)),
            ("disk"@, field_or_null(instance, "disk"@)),
            ("main_ip"@, field_or_null(instance, "main_ip"@)),
            ("v6_main_ip"@, field_or_null(instance, "v6_main_ip"@)),
        ],
    )
}

/// `item` is what `instance` normalizes to.
pub open spec fn normalizes_to(instance: serde_json::Value, item: InventoryItem) -> bool {
    &&& string_member(instance, "id"@) == Some(item.external_id@)
    &&& item.external_type@ == "compute_instance"@
    &&& item.name@ == instance_name(instance, item.external_id@)
    &&& item.state == instance_state(instance, item.name@)
    &&& item.metadata == instance
}

fn status_text(instance: &serde_json::Value) -> (r: &'static str)
    ensures
        r@ == instance_status(*instance),
{
    let power = get_str(instance, "power_status");
    let status = get_str(instance, "status");
    let power_is = |text: &str| -> (b: bool)
        ensures
            b == (string_member(*instance, "power_status"@) == Some(text@)),
        {
            match &power {
                Some(p) => str_equals(p.as_str(), text),
                None => false,
            }
        };
    let status_is = |text: &str| -> (b: bool)
        ensures
            b == (string_member(*instance, "status"@) == Some(text@)),
        {
            match &status {
                Some(s) => str_equals(s.as_str(), text),
                None => false,
            }
        };
    if power_is("running") || status_is("active") {
        "running"
    } else if power_is("stopped") || status_is("suspended") {
        "stopped"
    } else if status_is("pending") {
        "provisioning"
    } else {
        "unknown"
    }
}

/// An instance as an inventory item; it must carry a string identifier.
pub fn normalize_instance(instance: serde_json::Value) -> (r: Result<InventoryItem, ProviderError>)
    ensures
        match string_member(instance, "id"@) {
            Some(_) => r matches Ok(item) && normalizes_to(instance, item),
            None => r matches Err(e) && is_invalid_response(e),
        },
{
    let id = match get_str(&instance, "id") {
        Some(id) => id,
        None => {
            return Err(invalid_response());
        },
    };
    let named = match crate::json::get(&instance, "label") {
        Some(v) => Some(v),
        None => crate::json::get(&instance, "hostname"),
    };
    let name = match named {
        Some(v) => match crate::json::as_str(&v) {
            Some(s) => s,
            None => id.clone(),
        },
        None => id.clone(),
    };
    let status = status_text(&instance);
    let entries = vec![
        ("name".to_owned(), crate::json::from_str(name.as_str())),
        ("status".to_owned(), crate::json::from_str(status)),
        ("provider_status".to_owned(), get_or_null(&instance, "status")),
        ("power_status".to_owned(), get_or_null(&instance, "power_status")),
        ("server_status".to_owned(), get_or_null(&instance, "server_status")),
        ("region".to_owned(), get_or_null(&instance, "region")),
        ("plan".to_owned(), get_or_null(&instance, "plan")),
        ("os".to_owned(), get_or_null(&instance, "os")),
        ("vcpu_count".to_owned(), get_or_null(&instance, "vcpu_count")),
        ("ram".to_owned(), get_or_null(&instance, "ram")),
        ("disk".to_owned(), get_or_null(&instance, "disk")),
        ("main_ip".to_owned(), get_or_null(&instance, "main_ip")),
        ("v6_main_ip".to_owned(), get_or_null(&instance, "v6_main_ip")),
    ];
    proof {
        assert(entry_views(entries@) == seq![
            ("name"@, json_from_string(name@)),
            ("status"@, json_from_string(instance_status(instance))),
            ("provider_status"@, field_or_null(instance, "status"@)),
            ("power_status"@, field_or_null(instance, "power_status"@)),
            ("server_status"@, field_or_null(instance, "server_status"@)),
            ("region"@, field_or_null(instance, "region"@)),
            ("plan"@, field_or_null(instance, "plan"@)),
            ("os"@, field_or_null(instance, "os"@)),
            ("vcpu_count"@, field_or_null(instance, "vcpu_count"@)),
            ("ram"@, field_or_null(instance, "ram"@)),
            ("disk"@, field_or_null(instance, "disk"@)),
            ("main_ip"@, field_or_null(instance, "main_ip"@)),
            ("v6_main_ip"@, field_or_null(instance, "v6_main_ip"@)),
        ]);
    }
    let state = crate::json::from_entries(entries);
    Ok(
        InventoryItem {
            external_type: "compute_instance".to_owned(),
            external_id: id,
            name,
            state,
            metadata: instance,
        },
    )
}

/// A page of instances: each normalized in order (one without an identifier fails the page),
/// and the cursor of the next page from the listing's `next` link.
pub fn inventory_page(instances: Vec<serde_json::Value>, next: Option<String>) -> (r: Result<
    InventoryPage,
    ProviderError,
>)
    ensures
        (forall|i: int|
            0 <= i < instances@.len() ==> string_member(#[trigger] instances@[i], "id"@) is Some)
            ==> (r matches Ok(page) && page.items@.len() == instances@.len() && (forall|i: int|
            0 <= i < instances@.len() ==> normalizes_to(instances@[i], #[trigger] page.items@[i]))
            && match next {
            Some(link) => match query_cursor(link_query(link@)) {
                Some(c) => page.next_cursor matches Some(s) && s@ == c,
                None => page.next_cursor is None,
            },
            None => page.next_cursor is None,
        }),
        !(forall|i: int|
            0 <= i < instances@.len() ==> string_member(#[trigger] instances@[i], "id"@) is Some)
            ==> (r matches Err(e) && is_invalid_response(e)),
{
    let mut items: Vec<InventoryItem> = Vec::new();
    let mut i: usize = 0;
    while i < instances.len()
        invariant
            i <= instances.len(),
            items@.len() == i,
            forall|k: int| 0 <= k < i ==> string_member(#[trigger] instances@[k], "id"@) is Some,
            forall|k: int| 0 <= k < i ==> normalizes_to(instances@[k], #[trigger] items@[k]),
        decreases instances.len() - i,
    {
        let instance = crate::json::duplicate(&instances[i]);
        match normalize_instance(instance) {
            Ok(item) => {
                items.push(item);
            },
            Err(e) => {
                return Err(e);
            },
        }
        i += 1;
    }
    let next_cursor = match &next {
        Some(link) => extract_cursor(link.as_str()),
        None => None,
    };
    Ok(InventoryPage { items, next_cursor })
}

/// An instance to create names a region and a plan (strings) and a source: an OS, snapshot,
/// ISO, application or image that is present and not `null`.
pub open spec fn create_parameters_ok(parameters: serde_json::Value) -> bool {
    let present = |key: Seq<char>|
        json_get(parameters, key) matches Some(v) && !json_is_null(v);
    &&& string_member(parameters, "region"@) is Some
    &&& string_member(parameters, "plan"@) is Some
    &&& (present("os_id"@) || present("snapshot_id"@) || present("iso_id"@) || present(
        "app_id"@,
    ) || present("image_id"@))
}

fn present_not_null(value: &serde_json::Value, key: &str) -> (r: bool)
    ensures
        r == (json_get(*value, key@) matches Some(v) && !json_is_null(v)),
{
    match crate::json::get(value, key) {
        Some(v) => !crate::json::is_null(&v),
        None => false,
    }
}

pub fn validate_create_parameters(parameters: &serde_json::Value) -> (r: Result<(), ProviderError>)
    ensures
        r is Ok <==> create_parameters_ok(*parameters),
        r matches Err(e) ==> is_configuration_error(
            e,
            "invalid_compute_instance_parameters"@,
            false,
        ),
{
    let has_source = present_not_null(parameters, "os_id") || present_not_null(
        parameters,
        "snapshot_id",
    ) || present_not_null(parameters, "iso_id") || present_not_null(parameters, "app_id")
        || present_not_null(parameters, "image_id");
    if get_str(parameters, "region").is_some() && get_str(parameters, "plan").is_some()
        && has_source {
        Ok(())
    } else {
        Err(ProviderError::configuration("invalid_compute_instance_parameters", false))
    }
}

/// The calls that carry out a lifecycle action on an instance.
#[derive(Debug)]
pub enum InstanceCalls {
    /// Create the instance; the reply holds it.
    Create(PlannedCall),
    /// Read the instance.
    Read(PlannedCall),
    /// Change its power state, then read it again.
    Power(PlannedCall, PlannedCall),
    /// Delete it; the result reports it deleted.
    Delete(PlannedCall, String),
}

pub open spec fn is_call(call: PlannedCall, method: HttpMethod, path: Seq<char>) -> bool {
    call.method == method && call.path@ == path && call.body is None
}

/// The power endpoint of an action.
pub open spec fn power_suffix(action: Seq<char>) -> Option<Seq<char>> {
    if action == "start"@ {
        Some("start"@)
    } else if action == "stop"@ {
        Some("halt"@)
    } else if action == "reboot"@ {
        Some("reboot"@)
    } else {
        None
    }
}

/// A power action reaches the endpoint of that same action: `start` and `reboot` their own
/// names and `stop` Vultr's `halt`; only these three actions have one, and distinct actions reach
/// distinct endpoints.
pub proof fn power_actions_reach_their_own_endpoint(action: Seq<char>, other: Seq<char>)
    ensures
        power_suffix(action) is Some <==> (action == "start"@ || action == "stop"@ || action
            == "reboot"@),
        power_suffix(action) matches Some(endpoint) ==> (endpoint == action || (action == "stop"@
            && endpoint == "halt"@)),
        power_suffix(action) is Some && power_suffix(action) == power_suffix(other) ==> action
            == other,
{
    reveal_strlit("start");
    reveal_strlit("stop");
    reveal_strlit("reboot");
    reveal_strlit("halt");
    assert("start"@[2] != "stop"@[2]);
    assert("start"@[0] != "reboot"@[0] && "stop"@[0] != "reboot"@[0]);
    assert("halt"@[0] != "start"@[0] && "halt"@[0] != "reboot"@[0]);
}

/// The calls for a lifecycle request on a compute instance.
pub fn execute_plan(request: &ProviderOperationRequest) -> (r: Result<InstanceCalls, ProviderError>)
    ensures
        if request.resource_type@ != "compute_instance"@ {
            r matches Err(e) && is_configuration_error(
                e,
                "unsupported_operation_resource_type"@,
                false,
            )
        } else if request.action@ == "create"@ {
            if create_parameters_ok(request.parameters) {
                r matches Ok(InstanceCalls::Create(call)) && call.method == HttpMethod::Post
                    && call.path@ == "/instances"@ && call.body == Some(request.parameters)
            } else {
                r matches Err(e) && is_configuration_error(
                    e,
                    "invalid_compute_instance_parameters"@,
                    false,
                )
            }
        } else {
            match request.external_id {
                None => r matches Err(e) && is_configuration_error(
                    e,
                    "instance_id_required"@,
                    false,
                ),
                Some(id) => {
                    let path = "/instances/"@ + id@;
                    if !valid_external_id(id@) {
                        r matches Err(e) && is_configuration_error(e, "invalid_external_id"@, false)
                    } else if request.action@ == "get"@ {
                        r matches Ok(InstanceCalls::Read(call)) && is_call(
                            call,
                            HttpMethod::Get,
                            path,
                        )
                    } else if request.action@ == "delete"@ {
                        r matches Ok(InstanceCalls::Delete(call, deleted)) && is_call(
                            call,
                            HttpMethod::Delete,
                            path,
                        ) && deleted@ == id@
                    } else {
                        match power_suffix(request.action@) {
                            Some(suffix) => r matches Ok(InstanceCalls::Power(power, read))
                                && is_call(power, HttpMethod::Post, path + "/"@ + suffix) && is_call(
                                read,
                                HttpMethod::Get,
                                path,
                            ),
                            None => r matches Err(e) && is_configuration_error(
                                e,
                                "unsupported_compute_action"@,
                                false,
                            ),
                        }
                    }
                },
            }
        },
{
    if !str_equals(request.resource_type.as_str(), "compute_instance") {
        return Err(ProviderError::configuration("unsupported_operation_resource_type", false));
    }
    let action = request.action.as_str();
    if str_equals(action, "create") {
        validate_create_parameters(&request.parameters)?;
        return Ok(
            InstanceCalls::Create(
                PlannedCall {
                    method: HttpMethod::Post,
                    path: "/instances".to_owned(),
                    body: Some(crate::json::duplicate(&request.parameters)),
                },
            ),
        );
    }
    let id = match &request.external_id {
        Some(id) => id.as_str(),
        None => {
            return Err(ProviderError::configuration("instance_id_required", false));
        },
    };
    validate_external_id(id)?;
    let mut path = "/instances/".to_owned();
    path.append(id);
    if str_equals(action, "get") {
        return Ok(InstanceCalls::Read(PlannedCall { method: HttpMethod::Get, path, body: None }));
    }
    if str_equals(action, "delete") {
        return Ok(
            InstanceCalls::Delete(
                PlannedCall { method: HttpMethod::Delete, path, body: None },
                id.to_owned(),
            ),
        );
    }
    let suffix = if str_equals(action, "start") {
        "start"
    } else if str_equals(action, "stop") {
        "halt"
    } else if str_equals(action, "reboot") {
        "reboot"
    } else {
        return Err(ProviderError::configuration("unsupported_compute_action", false));
    };
    let mut power_path = path.clone();
    power_path.append("/");
    power_path.append(suffix);
    Ok(
        InstanceCalls::Power(
            PlannedCall { method: HttpMethod::Post, path: power_path, body: None },
            PlannedCall { method: HttpMethod::Get, path, body: None },
        ),
    )
}

/// The outcome of an action that reports the instance: the normalized instance.
pub fn instance_result(instance: serde_json::Value) -> (r: Result<
    ProviderOperationResult,
    ProviderError,
>)
    ensures
        match string_member(instance, "id"@) {
            Some(id) => r matches Ok(result) && result.external_id matches Some(s) && s@ == id
                && result.state == instance_state(instance, instance_name(instance, id)),
            None => r matches Err(e) && is_invalid_response(e),
        },
{
    let item = normalize_instance(instance)?;
    Ok(ProviderOperationResult { external_id: Some(item.external_id), state: item.state })
}

/// The outcome of a deletion: the instance, reported deleted.
pub fn deleted_result(instance_id: String) -> (r: ProviderOperationResult)
    ensures
        r.external_id == Some(instance_id),
        r.state == json_from_entries(seq![("status"@, json_from_string("deleted"@))]),
{
    let entries = vec![("status".to_owned(), crate::json::from_str("deleted"))];
    proof {
        assert(entry_views(entries@) == seq![("status"@, json_from_string("deleted"@))]);
    }
    ProviderOperationResult { external_id: Some(instance_id), state: crate::json::from_entries(entries) }
}

} // verus!
