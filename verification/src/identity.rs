//! Users, sessions and normalized email addresses.
use crate::kernel::{OrganizationId, SessionId, Timestamp, UserId};
use crate::text::{all_ascii, ascii_lowercase_char, byte_len, chars_of, to_lowercase, trim, trim_seq, unicode_lowercase, utf8_len};
use vstd::prelude::*;

verus! {

/// What `Email::parse` keeps of its input: trimmed, then lowercased.
pub open spec fn normalize_email(value: Seq<char>) -> Seq<char> {
    unicode_lowercase(trim_seq(value))
}

/// `at` is the position of the first `@` in `s`.
pub open spec fn first_at_sign(s: Seq<char>, at: int) -> bool {
    &&& 0 <= at < s.len()
    &&& s[at] == '@'
    &&& forall|j: int| 0 <= j < at ==> s[j] != '@'
}

/// A normalized address of at most 320 bytes with a non-empty local part before its first `@`
/// and a `.` somewhere in the domain after it.
pub open spec fn valid_email(s: Seq<char>) -> bool {
    &&& utf8_len(s) <= 320
    &&& exists|at: int|
        #![trigger first_at_sign(s, at)]
        first_at_sign(s, at) && at > 0 && s.subrange(at + 1, s.len() as int).contains('.')
}

#[derive(Clone, Copy, Debug, PartialEq, Eq, Structural)]
pub enum IdentityError {
    InvalidEmail,
    UserNotFound,
    InvalidSession,
    Persistence,
}

/// A normalized email address.
#[derive(Debug)]
pub struct Email(String);

impl View for Email {
    type V = Seq<char>;

    closed spec fn view(&self) -> Seq<char> {
        self.0@
    }
}

impl Clone for Email {
    fn clone(&self) -> (r: Self)
        ensures
            r@ == self@,
    {
        Email(self.0.clone())
    }
}

impl Email {
    /// Creates a normalized email value, or `InvalidEmail` for malformed input.
    pub fn parse(value: &str) -> (r: Result<Email, IdentityError>)
        ensures
            r is Ok <==> valid_email(normalize_email(value@)),
            r matches Ok(email) ==> email@ == normalize_email(value@),
            r is Err ==> r == Err::<Email, IdentityError>(IdentityError::InvalidEmail),
            all_ascii(trim_seq(value@)) ==> normalize_email(value@) == trim_seq(value@).map_values(
                |c: char| ascii_lowercase_char(c),
            ),
    {
        let normalized = to_lowercase(trim(value));
        let chars = chars_of(normalized.as_str());
        let ghost s = normalized@;
        proof {
            assert(s == normalize_email(value@));
        }
        if byte_len(normalized.as_str()) > 320 {
            return Err(IdentityError::InvalidEmail);
        }
        let mut at: usize = 0;
        while at < chars.len() && chars[at] != '@'
            invariant
                chars@ == s,
                at <= chars.len(),
                forall|j: int| 0 <= j < at ==> s[j] != '@',
            decreases chars.len() - at,
        {
            at += 1;
        }
        if at == chars.len() {
            proof {
                assert forall|k: int| !first_at_sign(s, k) by {
                    if 0 <= k < s.len() && s[k] == '@' {
                        assert(s[k] != '@');
                    }
                }
            }
            return Err(IdentityError::InvalidEmail);
        }
        proof {
            assert(first_at_sign(s, at as int));
            assert forall|k: int| first_at_sign(s, k) implies k == at by {
                if k < at {
                    assert(s[k] != '@');
                } else if k > at {
                    assert(s[at as int] != '@');
                }
            }
        }
        if at == 0 {
            return Err(IdentityError::InvalidEmail);
        }
        let mut i: usize = at + 1;
        while i < chars.len()
            invariant
                chars@ == s,
                s == normalized@,
                s == normalize_email(value@),
                all_ascii(trim_seq(value@)) ==> s == trim_seq(value@).map_values(
                    |c: char| ascii_lowercase_char(c),
                ),
                utf8_len(s) <= 320,
                first_at_sign(s, at as int),
                at > 0,
                at < chars.len(),
                at + 1 <= i <= chars.len(),
                forall|j: int| at + 1 <= j < i ==> s[j] != '.',
            decreases chars.len() - i,
        {
            if chars[i] == '.' {
                proof {
                    let domain = s.subrange(at + 1, s.len() as int);
                    assert(domain[i - at - 1] == '.');
                }
                return Ok(Email(normalized));
            }
            i += 1;
        }
        proof {
            let domain = s.subrange(at + 1, s.len() as int);
            assert forall|j: int| 0 <= j < domain.len() implies domain[j] != '.' by {
                assert(s[at + 1 + j] != '.');
            }
        }
        Err(IdentityError::InvalidEmail)
    }

    pub fn as_str(&self) -> (r: &str)
        ensures
            r@ == self@,
    {
        self.0.as_str()
    }
}

#[derive(Clone, Copy, Debug, PartialEq, Eq, Structural)]
pub enum UserStatus {
    Active,
    Suspended,
}

#[derive(Clone, Debug)]
pub struct User {
    pub id: UserId,
    pub email: Email,
    pub display_name: String,
    pub status: UserStatus,
    pub email_verified_at: Option<Timestamp>,
    pub created_at: Timestamp,
}

#[derive(Clone, Copy, Debug)]
pub struct Session {
    pub id: SessionId,
    pub user_id: UserId,
    pub organization_id: Option<OrganizationId>,
    pub expires_at: Timestamp,
    pub revoked_at: Option<Timestamp>,
}

impl Session {
    /// A session is usable while it is not revoked and has not expired.
    pub fn is_active_at(&self, now: Timestamp) -> (r: bool)
        ensures
            r == (self.revoked_at is None && self.expires_at.unix_nanos > now.unix_nanos),
    {
        self.revoked_at.is_none() && self.expires_at.is_after(now)
    }
}

} // verus!
