//! Registration, sign-in and bearer-token rules, and the secrets that sessions and invitations
//! hand out.
use crate::api::error::ApiError;
use crate::digest::sha256_digest;
use crate::kernel::{Timestamp, MAX_UNIX_NANOS};
use argon2::password_hash::SaltString;
use argon2::{PasswordHasher, PasswordVerifier};
use base64::Engine;
use rand::RngCore;
use vstd::string::StringSliceAdditionalSpecFns;
use crate::identity::{normalize_email, valid_email, Email};
use crate::text::{byte_len, has_prefix, starts_with, trim, trim_seq, utf8_len};
use vstd::prelude::*;

verus! {

/// Public registration opens only once the platform has an administrator and an administrator
/// has enabled it.
pub fn check_registration_open(initialized: bool, registration_enabled: bool) -> (r: Result<
    (),
    ApiError,
>)
    ensures
        r == if !initialized {
            Err(ApiError::Unavailable(
                "platform administrator must be initialized before public registration",
            ))
        } else if !registration_enabled {
            Err(ApiError::Forbidden)
        } else {
            Ok::<(), ApiError>(())
        },
{
    if !initialized {
        return Err(
            ApiError::Unavailable(
                "platform administrator must be initialized before public registration",
            ),
        );
    }
    if !registration_enabled {
        return Err(ApiError::Forbidden);
    }
    Ok(())
}

/// Registration is reported as enabled only on an initialized platform.
pub fn effective_registration_enabled(initialized: bool, stored_enabled: bool) -> (r: bool)
    ensures
        r == (initialized && stored_enabled),
{
    initialized && stored_enabled
}

/// A registration request: a valid email, a password of at least 12 bytes and a trimmed display
/// name of 1 to 120 bytes. Gives back the normalized email and the display name to store.
pub fn validate_registration(email: &str, password: &str, display_name: &str) -> (r: Result<
    (Email, String),
    ApiError,
>)
    ensures
        r is Ok <==> valid_email(normalize_email(email@)) && utf8_len(password@) >= 12 && 0
            < utf8_len(trim_seq(display_name@)) <= 120,
        r matches Ok((e, n)) ==> e@ == normalize_email(email@) && n@ == trim_seq(display_name@),
        r is Err ==> r->Err_0 == if !valid_email(normalize_email(email@)) {
            ApiError::BadRequest("invalid email")
        } else if utf8_len(password@) < 12 {
            ApiError::BadRequest("password must contain at least 12 characters")
        } else {
            ApiError::BadRequest("invalid display name")
        },
{
    let email = match Email::parse(email) {
        Ok(e) => e,
        Err(_) => {
            return Err(ApiError::BadRequest("invalid email"));
        },
    };
    if byte_len(password) < 12 {
        return Err(ApiError::BadRequest("password must contain at least 12 characters"));
    }
    let display_name = trim(display_name);
    let len = byte_len(display_name);
    if len == 0 || len > 120 {
        return Err(ApiError::BadRequest("invalid display name"));
    }
    Ok((email, display_name.to_owned()))
}

/// Sign-in accepts only a well-formed email of an active user; every refusal looks the same.
pub fn check_sign_in(email: &str, user_active: bool) -> (r: Result<Email, ApiError>)
    ensures
        r is Ok <==> valid_email(normalize_email(email@)) && user_active,
        r matches Ok(e) ==> e@ == normalize_email(email@),
        r is Err ==> r->Err_0 == ApiError::Unauthorized,
{
    let email = match Email::parse(email) {
        Ok(e) => e,
        Err(_) => {
            return Err(ApiError::Unauthorized);
        },
    };
    if !user_active {
        return Err(ApiError::Unauthorized);
    }
    Ok(email)
}

/// The token of an `Authorization: Bearer <token>` header, if there is a non-empty one.
pub fn bearer_token(authorization: &str) -> (r: Option<&str>)
    ensures
        match r {
            Some(token) => has_prefix(authorization@, "Bearer "@) && token@ == authorization@.subrange(
                7,
                authorization@.len() as int,
            ) && token@.len() > 0,
            None => !has_prefix(authorization@, "Bearer "@) || authorization@.len() == 7,
        },
{
    proof {
        reveal_strlit("Bearer ");
    }
    if !starts_with(authorization, "Bearer ") {
        return None;
    }
    let len = authorization.unicode_len();
    if len == 7 {
        return None;
    }
    Some(authorization.substring_char(7, len))
}

/// Nanoseconds in a day.
pub const NANOS_PER_DAY: i128 = 86_400_000_000_000;

/// `n` bytes from the thread's random generator (`rand::rng().fill_bytes`). Nothing is said of
/// their value.
#[verifier::external_body]
pub fn random_bytes(n: usize) -> (r: Vec<u8>)
    ensures
        r@.len() == n,
{
    let mut bytes = vec![0_u8; n];
    rand::rng().fill_bytes(&mut bytes);
    bytes
}

/// The character of a six-bit value in the URL-safe base64 alphabet (`A-Z`, `a-z`, `0-9`, `-`,
/// `_`).
pub open spec fn base64_url_char(n: int) -> char {
    if n < 26 {
        ('A' as int + n) as char
    } else if n < 52 {
        ('a' as int + n - 26) as char
    } else if n < 62 {
        ('0' as int + n - 52) as char
    } else if n == 62 {
        '-'
    } else {
        '_'
    }
}

/// The URL-safe base64 text of some bytes, without padding: each group of three bytes becomes
/// four characters, a final group of two bytes three characters, and of one byte two.
pub open spec fn base64_url_unpadded(bytes: Seq<u8>) -> Seq<char>
    decreases bytes.len(),
{
    if bytes.len() == 0 {
        Seq::empty()
    } else if bytes.len() == 1 {
        seq![base64_url_char((bytes[0] / 4) as int), base64_url_char((bytes[0] % 4) * 16)]
    } else if bytes.len() == 2 {
        seq![
            base64_url_char((bytes[0] / 4) as int),
            base64_url_char((bytes[0] % 4) * 16 + bytes[1] / 16),
            base64_url_char((bytes[1] % 16) * 4),
        ]
    } else {
        seq![
            base64_url_char((bytes[0] / 4) as int),
            base64_url_char((bytes[0] % 4) * 16 + bytes[1] / 16),
            base64_url_char((bytes[1] % 16) * 4 + bytes[2] / 64),
            base64_url_char((bytes[2] % 64) as int),
        ] + base64_url_unpadded(bytes.subrange(3, bytes.len() as int))
    }
}

/// `URL_SAFE_NO_PAD.encode`.
#[verifier::external_body]
fn encode_url_safe(bytes: &[u8]) -> (r: String)
    ensures
        r@ == base64_url_unpadded(bytes@),
{
    base64::engine::general_purpose::URL_SAFE_NO_PAD.encode(bytes)
}

/// A new secret token: 32 random bytes in URL-safe base64.
pub fn new_secret_token() -> (r: String)
    ensures
        exists|bytes: Seq<u8>| bytes.len() == 32 && r@ == base64_url_unpadded(bytes),
{
    let bytes = random_bytes(32);
    encode_url_safe(bytes.as_slice())
}

/// What is stored of a token: the SHA-256 digest of its bytes.
pub fn token_hash(token: &str) -> (r: Vec<u8>)
    ensures
        r@ == sha256_digest(token.spec_bytes()),
{
    crate::digest::sha256(token.as_bytes())
}

/// When a session opened at `now` expires: thirty days later.
pub fn session_expiry(now: Timestamp) -> (r: Timestamp)
    requires
        now.in_range(),
        now.unix_nanos + 30 * NANOS_PER_DAY <= MAX_UNIX_NANOS,
    ensures
        r.unix_nanos == now.unix_nanos + 30 * NANOS_PER_DAY,
{
    Timestamp { unix_nanos: now.unix_nanos + 30 * NANOS_PER_DAY }
}

/// `Argon2::default().hash_password` with a salt: the PHC string of a password, or `None`
/// where the salt cannot be encoded or hashing fails.
pub uninterp spec fn argon2_phc(password: Seq<u8>, salt: Seq<u8>) -> Option<Seq<char>>;

/// The longest password Argon2 hashes, in bytes (`argon2::MAX_PWD_LEN`).
pub const MAX_PASSWORD_LENGTH: u64 = 0xFFFF_FFFF;

/// Hashes `password` with the default Argon2 parameters under `salt`. A 16-byte salt always
/// encodes to a valid salt string, and Argon2 then refuses only a password longer than
/// `MAX_PWD_LEN` bytes. The PHC string it gives reads back, and the same password verifies
/// against it.
#[verifier::external_body]
fn argon2_hash(password: &[u8], salt: &[u8]) -> (r: Option<String>)
    ensures
        match argon2_phc(password@, salt@) {
            Some(phc) => r matches Some(s) && s@ == phc,
            None => r is None,
        },
        salt@.len() == 16 ==> (r is Some <==> password@.len() <= MAX_PASSWORD_LENGTH),
        r matches Some(s) ==> argon2_verifies(password@, s@) == Some(true),
{
    let salt = SaltString::encode_b64(salt).ok()?;
    argon2::Argon2::default().hash_password(password, &salt).ok().map(|hash| hash.to_string())
}

/// The stored hash of a new password, under a fresh 16-byte random salt. It succeeds on every
/// password of at most `MAX_PASSWORD_LENGTH` bytes.
pub fn hash_password(password: &str) -> (r: Result<String, ApiError>)
    ensures
        r is Ok <==> password.spec_bytes().len() <= MAX_PASSWORD_LENGTH,
        r matches Ok(phc) ==> argon2_verifies(password.spec_bytes(), phc@) == Some(true),
        r matches Ok(phc) ==> exists|salt: Seq<u8>|
            salt.len() == 16 && argon2_phc(password.spec_bytes(), salt) == Some(phc@),
        r matches Err(e) ==> e == ApiError::Internal,
{
    let salt = random_bytes(16);
    match argon2_hash(password.as_bytes(), salt.as_slice()) {
        Some(phc) => Ok(phc),
        None => Err(ApiError::Internal),
    }
}

/// `Argon2::default().verify_password` against a stored PHC string: whether the password
/// matches, or `None` where the stored hash cannot be read.
pub uninterp spec fn argon2_verifies(password: Seq<u8>, phc: Seq<char>) -> Option<bool>;

#[verifier::external_body]
fn argon2_verify(password: &[u8], phc: &str) -> (r: Option<bool>)
    ensures
        r == argon2_verifies(password@, phc@),
{
    let parsed = argon2::PasswordHash::new(phc).ok()?;
    Some(argon2::Argon2::default().verify_password(password, &parsed).is_ok())
}

/// The outcome of checking `password` against a stored hash at sign-in.
pub open spec fn sign_in_check(password: Seq<u8>, stored_hash: Seq<char>) -> Result<(), ApiError> {
    match argon2_verifies(password, stored_hash) {
        None => Err(ApiError::Internal),
        Some(true) => Ok(()),
        Some(false) => Err(ApiError::Unauthorized),
    }
}

/// Checks a password at sign-in: an unreadable stored hash is an internal error, a mismatch
/// looks like any other refused sign-in.
pub fn check_password(password: &str, stored_hash: &str) -> (r: Result<(), ApiError>)
    ensures
        r == sign_in_check(password.spec_bytes(), stored_hash@),
{
    match argon2_verify(password.as_bytes(), stored_hash) {
        None => Err(ApiError::Internal),
        Some(true) => Ok(()),
        Some(false) => Err(ApiError::Unauthorized),
    }
}

/// A password signs in against the hash that `hash_password` stored for it: whatever
/// `hash_password` returns verifies the same password, so the sign-in check passes.
pub proof fn stored_password_signs_in(password: Seq<u8>, stored_hash: Seq<char>)
    requires
        argon2_verifies(password, stored_hash) == Some(true),
    ensures
        sign_in_check(password, stored_hash) == Ok::<(), ApiError>(()),
{
}

} // verus!
