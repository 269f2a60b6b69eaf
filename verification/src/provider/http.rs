//! How the adapters read HTTP replies: status codes, `Retry-After` and base URLs.
use crate::provider::{ProviderError, ProviderErrorCategory};
use crate::text::{chars_of, string_from_chars};
use vstd::prelude::*;

verus! {

/// The decimal value of a run of ASCII digits.
pub open spec fn digits_value(s: Seq<char>) -> nat
    decreases s.len(),
{
    if s.len() == 0 {
        0
    } else {
        digits_value(s.drop_last()) * 10 + ((s.last() as u32) - 48) as nat
    }
}

pub open spec fn all_ascii_digits(s: Seq<char>) -> bool {
    forall|i: int| 0 <= i < s.len() ==> '0' <= #[trigger] s[i] && s[i] <= '9'
}

/// The digits of a `u64` text: an optional leading `+`, then at least one digit.
pub open spec fn unsigned_digits(s: Seq<char>) -> Seq<char> {
    if s.len() > 0 && s[0] == '+' {
        s.drop_first()
    } else {
        s
    }
}

/// What `str::parse::<u64>` gives back: the value of `[+]digits`, when it fits.
pub open spec fn parse_u64_spec(s: Seq<char>) -> Option<u64> {
    let d = unsigned_digits(s);
    if d.len() > 0 && all_ascii_digits(d) && digits_value(d) <= u64::MAX {
        Some(digits_value(d) as u64)
    } else {
        None
    }
}

proof fn lemma_digits_value_grows(s: Seq<char>, i: int)
    requires
        0 <= i <= s.len(),
        all_ascii_digits(s),
    ensures
        digits_value(s.subrange(0, i)) <= digits_value(s),
    decreases s.len() - i,
{
    if i < s.len() {
        lemma_digits_value_grows(s, i + 1);
        let t = s.subrange(0, i + 1);
        assert(t.drop_last() == s.subrange(0, i));
    } else {
        assert(s.subrange(0, i) == s);
    }
}

/// `str::parse::<u64>`.
pub fn parse_u64(text: &str) -> (r: Option<u64>)
    ensures
        r == parse_u64_spec(text@),
{
    let chars = chars_of(text);
    let start: usize = if chars.len() > 0 && chars[0] == '+' {
        1
    } else {
        0
    };
    let ghost d = unsigned_digits(text@);
    proof {
        assert(d == text@.subrange(start as int, text@.len() as int));
    }
    if start == chars.len() {
        return None;
    }
    let mut value: u64 = 0;
    let mut i: usize = start;
    while i < chars.len()
        invariant
            chars@ == text@,
            start <= i <= chars.len(),
            d == unsigned_digits(text@),
            d == text@.subrange(start as int, text@.len() as int),
            all_ascii_digits(d.subrange(0, i - start)),
            value == digits_value(d.subrange(0, i - start)),
        decreases chars.len() - i,
    {
        let c = chars[i];
        let ghost prefix = d.subrange(0, i - start);
        let ghost next = d.subrange(0, i - start + 1);
        proof {
            assert(next.drop_last() == prefix);
            assert(next.last() == c);
        }
        if !('0' <= c && c <= '9') {
            proof {
                assert(d[i - start] == c);
            }
            return None;
        }
        let digit = (c as u32 - 48) as u64;
        if value > (u64::MAX - digit) / 10 {
            proof {
                assert(value * 10 + digit > u64::MAX) by (nonlinear_arith)
                    requires
                        value > (u64::MAX - digit) / 10,
                        digit <= 9,
                ;
                assert(digits_value(next) > u64::MAX);
                assert forall|j: int| 0 <= j < next.len() implies '0' <= #[trigger] next[j]
                    && next[j] <= '9' by {
                    if j < prefix.len() {
                        assert(next[j] == prefix[j]);
                    }
                }
                if all_ascii_digits(d) {
                    lemma_digits_value_grows(d, i - start + 1);
                }
            }
            return None;
        }
        value = value * 10 + digit;
        proof {
            assert forall|j: int| 0 <= j < next.len() implies '0' <= #[trigger] next[j] && next[j]
                <= '9' by {
                if j < prefix.len() {
                    assert(next[j] == prefix[j]);
                }
            }
        }
        i += 1;
    }
    proof {
        assert(d.subrange(0, d.len() as int) == d);
    }
    Some(value)
}

/// The category, code and retryability of a failed HTTP status.
pub open spec fn http_failure(status: u16) -> (ProviderErrorCategory, Seq<char>, bool) {
    if status == 401 {
        (ProviderErrorCategory::Authentication, "authentication_failed"@, false)
    } else if status == 403 {
        (ProviderErrorCategory::Authorization, "permission_denied"@, false)
    } else if status == 404 {
        (ProviderErrorCategory::NotFound, "not_found"@, false)
    } else if status == 409 {
        (ProviderErrorCategory::Conflict, "conflict"@, false)
    } else if status == 429 {
        (ProviderErrorCategory::RateLimited, "rate_limited"@, true)
    } else if 500 <= status <= 599 {
        (ProviderErrorCategory::Unavailable, "provider_unavailable"@, true)
    } else {
        (ProviderErrorCategory::InvalidRequest, "provider_request_rejected"@, false)
    }
}

/// The error for a failed HTTP reply, with the `Retry-After` seconds when the header holds a
/// number.
pub fn normalize_http_error(status: u16, retry_after: Option<&str>) -> (r: ProviderError)
    ensures
        (r.category, r.code@, r.retryable) == http_failure(status),
        r.retry_after_seconds == match retry_after {
            Some(text) => parse_u64_spec(text@),
            None => None,
        },
        r.safe_message@ == "provider request failed"@,
{
    let (category, code, retryable) = if status == 401 {
        (ProviderErrorCategory::Authentication, "authentication_failed", false)
    } else if status == 403 {
        (ProviderErrorCategory::Authorization, "permission_denied", false)
    } else if status == 404 {
        (ProviderErrorCategory::NotFound, "not_found", false)
    } else if status == 409 {
        (ProviderErrorCategory::Conflict, "conflict", false)
    } else if status == 429 {
        (ProviderErrorCategory::RateLimited, "rate_limited", true)
    } else if 500 <= status && status <= 599 {
        (ProviderErrorCategory::Unavailable, "provider_unavailable", true)
    } else {
        (ProviderErrorCategory::InvalidRequest, "provider_request_rejected", false)
    };
    let retry_after_seconds = match retry_after {
        Some(text) => parse_u64(text),
        None => None,
    };
    ProviderError {
        category,
        code: code.to_owned(),
        retryable,
        retry_after_seconds,
        safe_message: "provider request failed".to_owned(),
    }
}

/// A rate-limited or failing provider may be retried; a rejected request may not.
pub proof fn only_transient_failures_are_retryable(status: u16)
    ensures
        http_failure(status).2 <==> (status == 429 || 500 <= status <= 599),
{
}

/// Each documented HTTP status has its own category, and each category its own code: 401 alone
/// is an authentication failure (`authentication_failed`), 403 alone an authorization failure
/// (`permission_denied`), 404 alone not found (`not_found`), 409 alone a conflict (`conflict`),
/// 429 alone rate limiting (`rate_limited`), the 5xx statuses alone an unavailable provider
/// (`provider_unavailable`), and every other status a rejected request
/// (`provider_request_rejected`). Only rate limiting and unavailability may be retried.
pub proof fn each_status_has_its_own_category(status: u16)
    ensures
        (http_failure(status).0 == ProviderErrorCategory::Authentication) <==> status == 401,
        (http_failure(status).0 == ProviderErrorCategory::Authorization) <==> status == 403,
        (http_failure(status).0 == ProviderErrorCategory::NotFound) <==> status == 404,
        (http_failure(status).0 == ProviderErrorCategory::Conflict) <==> status == 409,
        (http_failure(status).0 == ProviderErrorCategory::RateLimited) <==> status == 429,
        (http_failure(status).0 == ProviderErrorCategory::Unavailable) <==> 500 <= status <= 599,
        (http_failure(status).0 == ProviderErrorCategory::InvalidRequest) <==> !(status == 401
            || status == 403 || status == 404 || status == 409 || status == 429 || 500 <= status
            <= 599),
        http_failure(status).1 == match http_failure(status).0 {
            ProviderErrorCategory::Authentication => "authentication_failed"@,
            ProviderErrorCategory::Authorization => "permission_denied"@,
            ProviderErrorCategory::NotFound => "not_found"@,
            ProviderErrorCategory::Conflict => "conflict"@,
            ProviderErrorCategory::RateLimited => "rate_limited"@,
            ProviderErrorCategory::Unavailable => "provider_unavailable"@,
            _ => "provider_request_rejected"@,
        },
        http_failure(status).2 <==> (http_failure(status).0 == ProviderErrorCategory::RateLimited
            || http_failure(status).0 == ProviderErrorCategory::Unavailable),
{
}

/// The error when the provider cannot be reached.
pub fn unavailable_error() -> (r: ProviderError)
    ensures
        r.category == ProviderErrorCategory::Unavailable,
        r.code@ == "provider_unavailable"@,
        r.retryable,
        r.retry_after_seconds is None,
        r.safe_message@ == "provider is temporarily unavailable"@,
{
    ProviderError {
        category: ProviderErrorCategory::Unavailable,
        code: "provider_unavailable".to_owned(),
        retryable: true,
        retry_after_seconds: None,
        safe_message: "provider is temporarily unavailable".to_owned(),
    }
}

/// `e` is the error for a reply that could not be read.
pub open spec fn is_invalid_response(e: ProviderError) -> bool {
    &&& e.category == ProviderErrorCategory::Unknown
    &&& e.code@ == "invalid_provider_response"@
    &&& !e.retryable
    &&& e.retry_after_seconds is None
    &&& e.safe_message@ == "provider returned an invalid response"@
}

/// The error for a reply that could not be read.
pub fn invalid_response() -> (r: ProviderError)
    ensures
        is_invalid_response(r),
{
    ProviderError {
        category: ProviderErrorCategory::Unknown,
        code: "invalid_provider_response".to_owned(),
        retryable: false,
        retry_after_seconds: None,
        safe_message: "provider returned an invalid response".to_owned(),
    }
}

/// The text without its trailing slashes.
pub open spec fn without_trailing_slashes(s: Seq<char>) -> Seq<char>
    decreases s.len(),
{
    if s.len() > 0 && s.last() == '/' {
        without_trailing_slashes(s.drop_last())
    } else {
        s
    }
}

/// A base URL without trailing slashes (`trim_end_matches('/')`).
pub fn normalize_base_url(base_url: &str) -> (r: String)
    ensures
        r@ == without_trailing_slashes(base_url@),
{
    let mut chars = chars_of(base_url);
    while chars.len() > 0 && chars[chars.len() - 1] == '/'
        invariant
            without_trailing_slashes(base_url@) == without_trailing_slashes(chars@),
        decreases chars.len(),
    {
        let ghost before = chars@;
        chars.pop();
        proof {
            assert(chars@ == before.drop_last());
        }
    }
    string_from_chars(&chars)
}

/// The HTTP methods the adapters use.
#[derive(Clone, Copy, Debug, PartialEq, Eq, Structural)]
pub enum HttpMethod {
    Get,
    Post,
    Put,
    Delete,
}

impl HttpMethod {
    /// The method's name on the wire.
    pub fn as_str(self) -> (r: &'static str)
        ensures
            r@ == method_name(self),
    {
        match self {
            HttpMethod::Get => "GET",
            HttpMethod::Post => "POST",
            HttpMethod::Put => "PUT",
            HttpMethod::Delete => "DELETE",
        }
    }
}

pub open spec fn method_name(method: HttpMethod) -> Seq<char> {
    match method {
        HttpMethod::Get => "GET"@,
        HttpMethod::Post => "POST"@,
        HttpMethod::Put => "PUT"@,
        HttpMethod::Delete => "DELETE"@,
    }
}

/// One HTTP call that an adapter is to make.
#[derive(Debug)]
pub struct PlannedCall {
    pub method: HttpMethod,
    pub path: String,
    pub body: Option<serde_json::Value>,
}

/// The URL of `path` under `base`.
pub fn join_url(base: &str, path: &str) -> (r: String)
    ensures
        r@ == base@ + path@,
{
    let mut url = base.to_owned();
    url.append(path);
    url
}

} // verus!
