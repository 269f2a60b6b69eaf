//! Cloud providers behind one capability-oriented adapter model.
//!
//! The HTTP exchanges of the adapters happen outside the library; what they send, and what they
//! make of each reply, is decided here.
pub mod cloudflare;
pub mod crypto;
pub mod fake;
pub mod http;
pub mod ovh;
pub mod vultr;

use crate::json::{json_get, json_null};
use crate::text::{byte_len, chars_of, push_char, utf8_len};
use vstd::prelude::*;

verus! {

#[derive(Clone, Copy, Debug, PartialEq, Eq, Structural)]
pub enum ProviderErrorCategory {
    Authentication,
    Authorization,
    RateLimited,
    NotFound,
    Conflict,
    InvalidRequest,
    Unavailable,
    Configuration,
    Unknown,
}

/// A provider failure, normalized across providers.
#[derive(Debug)]
pub struct ProviderError {
    pub category: ProviderErrorCategory,
    pub code: String,
    pub retryable: bool,
    pub retry_after_seconds: Option<u64>,
    pub safe_message: String,
}

/// `e` is the configuration error `code`.
pub open spec fn is_configuration_error(e: ProviderError, code: Seq<char>, retryable: bool) -> bool {
    &&& e.category == ProviderErrorCategory::Configuration
    &&& e.code@ == code
    &&& e.retryable == retryable
    &&& e.retry_after_seconds is None
    &&& e.safe_message@ == "provider configuration is invalid"@
}

impl ProviderError {
    /// An error in how the provider is configured or called.
    pub fn configuration(code: &str, retryable: bool) -> (r: ProviderError)
        ensures
            is_configuration_error(r, code@, retryable),
    {
        ProviderError {
            category: ProviderErrorCategory::Configuration,
            code: code.to_owned(),
            retryable,
            retry_after_seconds: None,
            safe_message: "provider configuration is invalid".to_owned(),
        }
    }
}

/// A character of a provider kind.
pub open spec fn provider_kind_char(c: char) -> bool {
    ('a' <= c && c <= 'z') || c == '-'
}

/// A provider kind: 1 to 64 bytes of lowercase letters and hyphens.
pub open spec fn valid_provider_kind(value: Seq<char>) -> bool {
    &&& value.len() > 0
    &&& utf8_len(value) <= 64
    &&& forall|i: int| 0 <= i < value.len() ==> provider_kind_char(#[trigger] value[i])
}

/// The stable lowercase identifier of an adapter.
#[derive(Debug)]
pub struct ProviderKind(String);

impl View for ProviderKind {
    type V = Seq<char>;

    closed spec fn view(&self) -> Seq<char> {
        self.0@
    }
}

impl Clone for ProviderKind {
    fn clone(&self) -> (r: Self)
        ensures
            r@ == self@,
    {
        ProviderKind(self.0.clone())
    }
}

impl ProviderKind {
    /// Parses the stable lowercase adapter identifier.
    pub fn parse(value: &str) -> (r: Result<ProviderKind, ProviderError>)
        ensures
            r is Ok <==> valid_provider_kind(value@),
            r matches Ok(kind) ==> kind@ == value@,
            r matches Err(e) ==> is_configuration_error(e, "invalid_provider_kind"@, false),
    {
        let chars = chars_of(value);
        let mut all_allowed = true;
        let mut i: usize = 0;
        while i < chars.len()
            invariant
                chars@ == value@,
                i <= chars.len(),
                all_allowed == forall|j: int|
                    0 <= j < i ==> provider_kind_char(#[trigger] value@[j]),
            decreases chars.len() - i,
        {
            let c = chars[i];
            if !(('a' <= c && c <= 'z') || c == '-') {
                all_allowed = false;
            }
            i += 1;
        }
        let len = byte_len(value);
        if chars.len() > 0 && len <= 64 && all_allowed {
            Ok(ProviderKind(value.to_owned()))
        } else {
            Err(ProviderError::configuration("invalid_provider_kind", false))
        }
    }

    pub fn as_str(&self) -> (r: &str)
        ensures
            r@ == self@,
    {
        self.0.as_str()
    }
}

/// The error for a kind that no adapter is registered for: `unsupported_provider_<kind>`.
pub fn unsupported_provider(kind: &ProviderKind) -> (r: ProviderError)
    ensures
        is_configuration_error(r, "unsupported_provider_"@ + kind@, false),
{
    let mut code = "unsupported_provider_".to_owned();
    code.append(kind.as_str());
    ProviderError {
        category: ProviderErrorCategory::Configuration,
        code,
        retryable: false,
        retry_after_seconds: None,
        safe_message: "provider configuration is invalid".to_owned(),
    }
}

#[derive(Clone, Copy, Debug, PartialEq, Eq, Structural)]
pub enum Capability {
    Compute,
    Dns,
    Firewall,
    Certificate,
}

pub open spec fn capability_name(c: Capability) -> Seq<char> {
    match c {
        Capability::Compute => "compute"@,
        Capability::Dns => "dns"@,
        Capability::Firewall => "firewall"@,
        Capability::Certificate => "certificate"@,
    }
}

impl Capability {
    /// The wire name of the capability.
    pub fn as_str(self) -> (r: &'static str)
        ensures
            r@ == capability_name(self),
    {
        match self {
            Capability::Compute => "compute",
            Capability::Dns => "dns",
            Capability::Firewall => "firewall",
            Capability::Certificate => "certificate",
        }
    }
}

pub open spec fn category_name(c: ProviderErrorCategory) -> Seq<char> {
    match c {
        ProviderErrorCategory::Authentication => "authentication"@,
        ProviderErrorCategory::Authorization => "authorization"@,
        ProviderErrorCategory::RateLimited => "rate_limited"@,
        ProviderErrorCategory::NotFound => "not_found"@,
        ProviderErrorCategory::Conflict => "conflict"@,
        ProviderErrorCategory::InvalidRequest => "invalid_request"@,
        ProviderErrorCategory::Unavailable => "unavailable"@,
        ProviderErrorCategory::Configuration => "configuration"@,
        ProviderErrorCategory::Unknown => "unknown"@,
    }
}

impl ProviderErrorCategory {
    /// The wire name of the category.
    pub fn as_str(self) -> (r: &'static str)
        ensures
            r@ == category_name(self),
    {
        match self {
            ProviderErrorCategory::Authentication => "authentication",
            ProviderErrorCategory::Authorization => "authorization",
            ProviderErrorCategory::RateLimited => "rate_limited",
            ProviderErrorCategory::NotFound => "not_found",
            ProviderErrorCategory::Conflict => "conflict",
            ProviderErrorCategory::InvalidRequest => "invalid_request",
            ProviderErrorCategory::Unavailable => "unavailable",
            ProviderErrorCategory::Configuration => "configuration",
            ProviderErrorCategory::Unknown => "unknown",
        }
    }
}

/// How a credential authenticates.
#[derive(Clone, Copy, Debug, PartialEq, Eq, Structural)]
pub enum CredentialType {
    ApiToken,
    Opaque,
    OvhApplication,
    GlobalApiKey,
}

/// The secret material of a provider account.
pub struct CredentialMaterial {
    pub credential_type: CredentialType,
    pub identity: Option<String>,
    pub secret: String,
    pub consumer_key: Option<String>,
}

/// The outcome of a credential check.
#[derive(Debug)]
pub struct ValidationResult {
    pub valid: bool,
    pub identity: Option<String>,
    pub scopes: Vec<String>,
}

/// A resource as a provider reports it.
#[derive(Debug)]
pub struct InventoryItem {
    pub external_type: String,
    pub external_id: String,
    pub name: String,
    pub state: serde_json::Value,
    pub metadata: serde_json::Value,
}

/// A request for one page of a provider's inventory.
#[derive(Debug)]
pub struct InventoryRequest {
    pub resource_type: String,
    pub parent_external_id: Option<String>,
    pub cursor: Option<String>,
}

/// One page of a provider's inventory.
#[derive(Debug)]
pub struct InventoryPage {
    pub items: Vec<InventoryItem>,
    pub next_cursor: Option<String>,
}

/// A lifecycle action to perform at a provider.
#[derive(Debug)]
pub struct ProviderOperationRequest {
    pub action: String,
    pub resource_type: String,
    pub external_id: Option<String>,
    pub parameters: serde_json::Value,
    pub idempotency_key: String,
}

/// What a lifecycle action produced.
#[derive(Debug)]
pub struct ProviderOperationResult {
    pub external_id: Option<String>,
    pub state: serde_json::Value,
}

/// The member `key` of `value`, or `null`.
pub open spec fn field_or_null(value: serde_json::Value, key: Seq<char>) -> serde_json::Value {
    match json_get(value, key) {
        Some(v) => v,
        None => json_null(),
    }
}

/// The member `key` of `value`, or `null` (`value.get(key).cloned().unwrap_or(Value::Null)`).
pub fn get_or_null(value: &serde_json::Value, key: &str) -> (r: serde_json::Value)
    ensures
        r == field_or_null(*value, key@),
{
    match crate::json::get(value, key) {
        Some(v) => v,
        None => {
            let n = crate::json::null();
            proof {
                crate::json::lemma_null_is_json_null(n);
            }
            n
        },
    }
}

/// The decimal text of `n`.
pub open spec fn decimal(n: nat) -> Seq<char>
    decreases n,
{
    if n < 10 {
        seq![digit_char(n)]
    } else {
        decimal(n / 10).push(digit_char(n % 10))
    }
}

pub open spec fn digit_char(d: nat) -> char {
    ((d + 48) as u8) as char
}

/// The decimal text of `n` (`u64::to_string`).
pub fn u64_to_decimal(n: u64) -> (r: String)
    ensures
        r@ == decimal(n as nat),
    decreases n,
{
    if n < 10 {
        let mut s = String::new();
        let c = ((n + 48) as u8) as char;
        push_char(&mut s, c);
        proof {
            assert(s@ == seq![digit_char(n as nat)]);
        }
        s
    } else {
        let mut s = u64_to_decimal(n / 10);
        let c = ((n % 10 + 48) as u8) as char;
        push_char(&mut s, c);
        s
    }
}

} // verus!
