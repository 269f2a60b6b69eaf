//! Organization creation rules.
use crate::api::error::ApiError;
use crate::text::{all_ascii, ascii_lowercase_char, byte_len, to_lowercase, trim, trim_seq, unicode_lowercase, utf8_len};
use vstd::prelude::*;
use vstd::string::StringSliceAdditionalSpecFns;

verus! {

pub open spec fn byte_lowercase(b: u8) -> bool {
    97 <= b <= 122
}

pub open spec fn byte_digit(b: u8) -> bool {
    48 <= b <= 57
}

pub open spec fn byte_alphanumeric(b: u8) -> bool {
    byte_lowercase(b) || byte_digit(b) || (65 <= b <= 90)
}

/// A slug: 3 to 80 bytes of lowercase letters, digits and hyphens, starting and ending with a
/// letter or digit.
pub open spec fn slug_bytes(b: Seq<u8>) -> bool {
    &&& 3 <= b.len() <= 80
    &&& byte_alphanumeric(b[0])
    &&& byte_alphanumeric(b.last())
    &&& forall|i: int| 0 <= i < b.len() ==> byte_lowercase(#[trigger] b[i]) || byte_digit(b[i])
        || b[i] == 45
}

/// Whether `value` is a valid organization slug.
pub fn valid_slug(value: &str) -> (r: bool)
    ensures
        r == slug_bytes(value.spec_bytes()),
{
    let bytes = value.as_bytes();
    let n = bytes.len();
    if n < 3 || n > 80 {
        return false;
    }
    let first = bytes[0];
    let last = bytes[n - 1];
    if !((97 <= first && first <= 122) || (48 <= first && first <= 57) || (65 <= first && first
        <= 90)) {
        return false;
    }
    if !((97 <= last && last <= 122) || (48 <= last && last <= 57) || (65 <= last && last <= 90)) {
        return false;
    }
    let mut i: usize = 0;
    while i < n
        invariant
            n == bytes@.len(),
            bytes@ == value.spec_bytes(),
            i <= n,
            forall|j: int|
                0 <= j < i ==> byte_lowercase(#[trigger] bytes@[j]) || byte_digit(bytes@[j])
                    || bytes@[j] == 45,
        decreases n - i,
    {
        let b = bytes[i];
        if !((97 <= b && b <= 122) || (48 <= b && b <= 57) || b == 45) {
            return false;
        }
        i += 1;
    }
    true
}

/// The slug a request asks for, trimmed and lowercased.
pub open spec fn requested_slug(slug: Seq<char>) -> Seq<char> {
    unicode_lowercase(trim_seq(slug))
}

/// A new organization: a valid slug once trimmed and lowercased, and a trimmed name of 1 to 160
/// bytes. Gives back the slug and name to store.
pub fn validate_new_organization(slug: &str, name: &str) -> (r: Result<(String, String), ApiError>)
    ensures
        match r {
            Ok((s, n)) => {
                &&& s@ == requested_slug(slug@)
                &&& n@ == trim_seq(name@)
                &&& slug_bytes(vstd::utf8::encode_utf8(s@))
                &&& 0 < utf8_len(n@) <= 160
            },
            Err(e) => e == if !slug_bytes(vstd::utf8::encode_utf8(requested_slug(slug@))) {
                ApiError::BadRequest("invalid organization slug")
            } else {
                ApiError::BadRequest("invalid organization name")
            },
        },
        r is Ok <==> slug_bytes(vstd::utf8::encode_utf8(requested_slug(slug@))) && 0 < utf8_len(
            trim_seq(name@),
        ) <= 160,
        all_ascii(trim_seq(slug@)) ==> requested_slug(slug@) == trim_seq(slug@).map_values(
            |c: char| ascii_lowercase_char(c),
        ),
{
    let slug = to_lowercase(trim(slug));
    if !valid_slug(slug.as_str()) {
        return Err(ApiError::BadRequest("invalid organization slug"));
    }
    let name = trim(name);
    let len = byte_len(name);
    if len == 0 || len > 160 {
        proof {
            if len == 0 {
                vstd::utf8::encode_utf8_valid_utf8(name@);
            }
        }
        return Err(ApiError::BadRequest("invalid organization name"));
    }
    Ok((slug, name.to_owned()))
}

} // verus!
