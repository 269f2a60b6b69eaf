//! Rules of custom roles and role bindings.
use crate::api::error::ApiError;
use crate::api::organizations::{byte_alphanumeric, byte_digit, byte_lowercase};
use crate::kernel::UserId;
use crate::text::{all_ascii, ascii_lowercase_char, byte_len, str_equals, to_lowercase, trim, trim_seq, unicode_lowercase, utf8_len};
use vstd::prelude::*;
use vstd::string::StringSliceAdditionalSpecFns;

verus! {

/// A custom role key: 3 to 80 bytes of lowercase letters, digits and hyphens, starting with a
/// letter and ending with a letter or digit.
pub open spec fn role_key_bytes(b: Seq<u8>) -> bool {
    &&& 3 <= b.len() <= 80
    &&& byte_lowercase(b[0])
    &&& byte_alphanumeric(b.last())
    &&& forall|i: int| 0 <= i < b.len() ==> byte_lowercase(#[trigger] b[i]) || byte_digit(b[i])
        || b[i] == 45
}

/// Whether `value` is a valid custom role key.
pub fn valid_role_key(value: &str) -> (r: bool)
    ensures
        r == role_key_bytes(value.spec_bytes()),
{
    let bytes = value.as_bytes();
    let n = bytes.len();
    if n < 3 || n > 80 {
        return false;
    }
    let first = bytes[0];
    let last = bytes[n - 1];
    if !(97 <= first && first <= 122) {
        return false;
    }
    if !((97 <= last && last <= 122) || (48 <= last && last <= 57) || (65 <= last && last <= 90)) {
        return false;
    }
    let mut i: usize = 0;
    while i < n
        invariant
            n == bytes@.len(),
            bytes@ == value.spec_bytes(),
            i <= n,
            forall|j: int|
                0 <= j < i ==> byte_lowercase(#[trigger] bytes@[j]) || byte_digit(bytes@[j])
                    || bytes@[j] == 45,
        decreases n - i,
    {
        let b = bytes[i];
        if !((97 <= b && b <= 122) || (48 <= b && b <= 57) || b == 45) {
            return false;
        }
        i += 1;
    }
    true
}

/// The keys of the system roles, which custom roles may not take.
pub open spec fn reserved_role_key(key: Seq<char>) -> bool {
    key == "owner"@ || key == "admin"@ || key == "member"@ || key == "viewer"@
}

/// The key a request asks for, trimmed and lowercased.
pub open spec fn requested_role_key(key: Seq<char>) -> Seq<char> {
    unicode_lowercase(trim_seq(key))
}

/// A custom role definition: a valid, unreserved key once trimmed and lowercased, a trimmed
/// name of 1 to 120 bytes, and at least one permission. Gives back the key and name to store.
pub fn validate_role_definition(key: &str, name: &str, permission_count: usize) -> (r: Result<
    (String, String),
    ApiError,
>)
    ensures
        ({
            let k = requested_role_key(key@);
            let n = trim_seq(name@);
            r == if !role_key_bytes(vstd::utf8::encode_utf8(k)) || reserved_role_key(k) {
                Err(ApiError::BadRequest("invalid or reserved role key"))
            } else if utf8_len(n) == 0 || utf8_len(n) > 120 || permission_count == 0 {
                Err(ApiError::BadRequest("invalid role definition"))
            } else {
                Ok((r->Ok_0.0, r->Ok_0.1))
            }
        }),
        r matches Ok((k, n)) ==> k@ == requested_role_key(key@) && n@ == trim_seq(name@),
        all_ascii(trim_seq(key@)) ==> requested_role_key(key@) == trim_seq(key@).map_values(
            |c: char| ascii_lowercase_char(c),
        ),
{
    let key = to_lowercase(trim(key));
    let k = key.as_str();
    if !valid_role_key(k) || str_equals(k, "owner") || str_equals(k, "admin") || str_equals(
        k,
        "member",
    ) || str_equals(k, "viewer") {
        return Err(ApiError::BadRequest("invalid or reserved role key"));
    }
    let name = trim(name);
    let len = byte_len(name);
    if len == 0 || len > 120 || permission_count == 0 {
        return Err(ApiError::BadRequest("invalid role definition"));
    }
    Ok((key, name.to_owned()))
}

/// Every requested permission must be a distinct, known one: the catalog lookup finds as many
/// permissions as were asked for.
pub fn check_permission_lookup(found: usize, requested: usize) -> (r: Result<(), ApiError>)
    ensures
        r == if found == requested {
            Ok::<(), ApiError>(())
        } else {
            Err(ApiError::BadRequest("unknown or duplicate permission"))
        },
{
    if found != requested {
        Err(ApiError::BadRequest("unknown or duplicate permission"))
    } else {
        Ok(())
    }
}

/// A binding needs a role of the organization and an active member to bind it to.
pub fn check_binding_targets(role_exists: bool, member_exists: bool) -> (r: Result<(), ApiError>)
    ensures
        r == if role_exists && member_exists {
            Ok::<(), ApiError>(())
        } else {
            Err(ApiError::BadRequest("role or member was not found"))
        },
{
    if !role_exists || !member_exists {
        Err(ApiError::BadRequest("role or member was not found"))
    } else {
        Ok(())
    }
}

/// Nobody removes their own owner binding.
pub fn check_binding_removal(role_key: &str, subject: UserId, requester: UserId) -> (r: Result<
    (),
    ApiError,
>)
    ensures
        r == if role_key@ == "owner"@ && subject == requester {
            Err(ApiError::BadRequest("cannot remove your own owner binding"))
        } else {
            Ok::<(), ApiError>(())
        },
{
    if str_equals(role_key, "owner") && subject.0 == requester.0 {
        Err(ApiError::BadRequest("cannot remove your own owner binding"))
    } else {
        Ok(())
    }
}

/// Whether one of the granted keys is the required one.
pub fn permission_granted(granted: &Vec<String>, required: &str) -> (r: bool)
    ensures
        r == exists|i: int| 0 <= i < granted@.len() && (#[trigger] granted@[i])@ == required@,
{
    let mut i: usize = 0;
    while i < granted.len()
        invariant
            i <= granted.len(),
            forall|j: int| 0 <= j < i ==> (#[trigger] granted@[j])@ != required@,
        decreases granted.len() - i,
    {
        if str_equals(granted[i].as_str(), required) {
            return true;
        }
        i += 1;
    }
    false
}

/// Access is granted exactly when the required permission is among the granted ones.
pub fn authorize(granted: &Vec<String>, required: &str) -> (r: Result<(), ApiError>)
    ensures
        r is Ok <==> exists|i: int| 0 <= i < granted@.len() && (#[trigger] granted@[i])@ == required@,
        r is Err ==> r == Err::<(), ApiError>(ApiError::Forbidden),
{
    if permission_granted(granted, required) {
        Ok(())
    } else {
        Err(ApiError::Forbidden)
    }
}

} // verus!
