//! The rules of the local administration utility: bootstrapping the first administrator and
//! organization, and recovering owner access to an organization.
use crate::api::organizations::{slug_bytes, valid_slug};
use crate::identity::{normalize_email, valid_email, Email};
use crate::text::{ascii_lowercase_seq, byte_len, trim, trim_seq, utf8_len};
use vstd::prelude::*;

verus! {

/// Why an administration command refuses to go on.
#[derive(Clone, Copy, Debug, PartialEq, Eq, Structural)]
pub enum AdminError {
    NotInteractive,
    AlreadyInitialized,
    InvalidEmail,
    /// A text field is blank or longer than its limit in bytes.
    FieldLength(usize),
    InvalidSlug,
    PasswordTooShort,
    NoUsers,
    NoMembership,
}

impl AdminError {
    /// The message of the error (for a field length, its limit completes it).
    pub fn message(&self) -> (r: &'static str)
        ensures
            r@ == match *self {
                AdminError::NotInteractive => "this command requires an interactive terminal so secrets cannot be passed as arguments"@,
                AdminError::AlreadyInitialized => "MultiCloud is already initialized; use recover-access for an existing user"@,
                AdminError::InvalidEmail => "invalid email address"@,
                AdminError::FieldLength(_) => "must contain 1-"@,
                AdminError::InvalidSlug => "organization slug must be 3-80 lowercase letters, digits, or internal hyphens"@,
                AdminError::PasswordTooShort => "password must contain at least 12 characters"@,
                AdminError::NoUsers => "no users exist; run init first"@,
                AdminError::NoMembership => "the user has no membership; rerun with --organization <UUID> to explicitly grant access"@,
            },
    {
        match self {
            AdminError::NotInteractive => "this command requires an interactive terminal so secrets cannot be passed as arguments",
            AdminError::AlreadyInitialized => "MultiCloud is already initialized; use recover-access for an existing user",
            AdminError::InvalidEmail => "invalid email address",
            AdminError::FieldLength(_) => "must contain 1-",
            AdminError::InvalidSlug => "organization slug must be 3-80 lowercase letters, digits, or internal hyphens",
            AdminError::PasswordTooShort => "password must contain at least 12 characters",
            AdminError::NoUsers => "no users exist; run init first",
            AdminError::NoMembership => "the user has no membership; rerun with --organization <UUID> to explicitly grant access",
        }
    }
}

/// Secrets are typed, never passed as arguments: both ends must be a terminal.
pub fn check_interactive(stdin_is_terminal: bool, stdout_is_terminal: bool) -> (r: Result<
    (),
    AdminError,
>)
    ensures
        r == if stdin_is_terminal && stdout_is_terminal {
            Ok::<(), AdminError>(())
        } else {
            Err::<(), AdminError>(AdminError::NotInteractive)
        },
{
    if !stdin_is_terminal || !stdout_is_terminal {
        return Err(AdminError::NotInteractive);
    }
    Ok(())
}

/// Initialization runs only on a platform without users.
pub fn check_uninitialized(any_user_exists: bool) -> (r: Result<(), AdminError>)
    ensures
        r == if any_user_exists {
            Err::<(), AdminError>(AdminError::AlreadyInitialized)
        } else {
            Ok::<(), AdminError>(())
        },
{
    if any_user_exists {
        return Err(AdminError::AlreadyInitialized);
    }
    Ok(())
}

/// The normalized form of an email, if it is valid.
pub fn normalized_email(value: &str) -> (r: Result<String, AdminError>)
    ensures
        r is Ok <==> valid_email(normalize_email(value@)),
        r matches Ok(e) ==> e@ == normalize_email(value@),
        r matches Err(e) ==> e == AdminError::InvalidEmail,
{
    match Email::parse(value) {
        Ok(email) => Ok(crate::text::owned(email.as_str())),
        Err(_) => Err(AdminError::InvalidEmail),
    }
}

/// A text field, trimmed: it must hold 1 to `max` bytes.
pub fn nonempty(value: &str, max: usize) -> (r: Result<String, AdminError>)
    ensures
        r is Ok <==> 0 < utf8_len(trim_seq(value@)) <= max,
        r matches Ok(s) ==> s@ == trim_seq(value@),
        r matches Err(e) ==> e == AdminError::FieldLength(max),
{
    let value = trim(value);
    let len = byte_len(value);
    if len == 0 || len > max {
        proof {
            if len == 0 {
                vstd::utf8::encode_utf8_valid_utf8(value@);
            }
        }
        return Err(AdminError::FieldLength(max));
    }
    Ok(value.to_owned())
}

/// The organization slug the administrator typed: trimmed, ASCII-lowercased and valid.
pub fn organization_slug(value: &str) -> (r: Result<String, AdminError>)
    ensures
        r is Ok <==> slug_bytes(vstd::utf8::encode_utf8(ascii_lowercase_seq(trim_seq(value@)))),
        r matches Ok(s) ==> s@ == ascii_lowercase_seq(trim_seq(value@)),
        r matches Err(e) ==> e == AdminError::InvalidSlug,
{
    let slug = crate::text::to_ascii_lowercase(trim(value));
    if !valid_slug(slug.as_str()) {
        return Err(AdminError::InvalidSlug);
    }
    Ok(slug)
}

/// A new password holds at least twelve characters.
pub fn check_password_length(password: &str) -> (r: Result<(), AdminError>)
    ensures
        r == if password@.len() < 12 {
            Err::<(), AdminError>(AdminError::PasswordTooShort)
        } else {
            Ok::<(), AdminError>(())
        },
{
    if password.unicode_len() < 12 {
        return Err(AdminError::PasswordTooShort);
    }
    Ok(())
}

/// Which organization access is recovered in.
#[derive(Clone, Copy, Debug, PartialEq, Eq, Structural)]
pub enum OrganizationChoice {
    /// This one.
    Chosen(u128),
    /// The administrator picks one of the user's memberships.
    Ask,
}

/// The organization given on the command line; else the user's only membership; else, among
/// several, the administrator's pick. A user without membership needs one given explicitly.
pub fn choose_organization(explicit: Option<u128>, memberships: &Vec<u128>) -> (r: Result<
    OrganizationChoice,
    AdminError,
>)
    ensures
        r == match explicit {
            Some(id) => Ok::<OrganizationChoice, AdminError>(OrganizationChoice::Chosen(id)),
            None => if memberships@.len() == 0 {
                Err::<OrganizationChoice, AdminError>(AdminError::NoMembership)
            } else if memberships@.len() == 1 {
                Ok::<OrganizationChoice, AdminError>(OrganizationChoice::Chosen(memberships@[0]))
            } else {
                Ok::<OrganizationChoice, AdminError>(OrganizationChoice::Ask)
            },
        },
{
    match explicit {
        Some(id) => Ok(OrganizationChoice::Chosen(id)),
        None => if memberships.len() == 0 {
            Err(AdminError::NoMembership)
        } else if memberships.len() == 1 {
            Ok(OrganizationChoice::Chosen(memberships[0]))
        } else {
            Ok(OrganizationChoice::Ask)
        },
    }
}

/// A user to recover must be picked among existing ones.
pub fn check_users_exist(count: usize) -> (r: Result<(), AdminError>)
    ensures
        r == if count == 0 {
            Err::<(), AdminError>(AdminError::NoUsers)
        } else {
            Ok::<(), AdminError>(())
        },
{
    if count == 0 {
        return Err(AdminError::NoUsers);
    }
    Ok(())
}

/// The identifier that the permission catalog gives a key: with repeated keys, the last one.
pub open spec fn catalog_id(catalog: Seq<(Seq<char>, u128)>, key: Seq<char>) -> Option<u128>
    decreases catalog.len(),
{
    if catalog.len() == 0 {
        None
    } else if catalog.last().0 == key {
        Some(catalog.last().1)
    } else {
        catalog_id(catalog.drop_last(), key)
    }
}

pub open spec fn catalog_view(catalog: Seq<(String, u128)>) -> Seq<(Seq<char>, u128)> {
    catalog.map_values(|e: (String, u128)| (e.0@, e.1))
}

/// Looks a permission key up in the catalog.
pub fn catalog_lookup(catalog: &Vec<(String, u128)>, key: &str) -> (r: Option<u128>)
    ensures
        r == catalog_id(catalog_view(catalog@), key@),
{
    let mut i = catalog.len();
    proof {
        assert(catalog_view(catalog@).subrange(0, i as int) == catalog_view(catalog@));
    }
    while i > 0
        invariant
            i <= catalog.len(),
            catalog_id(catalog_view(catalog@), key@) == catalog_id(
                catalog_view(catalog@).subrange(0, i as int),
                key@,
            ),
        decreases i,
    {
        let ghost prefix = catalog_view(catalog@).subrange(0, i as int);
        proof {
            assert(prefix.drop_last() == catalog_view(catalog@).subrange(0, i - 1));
            assert(prefix.last() == (catalog@[i - 1].0@, catalog@[i - 1].1));
        }
        if crate::text::str_equals(catalog[i - 1].0.as_str(), key) {
            return Some(catalog[i - 1].1);
        }
        i -= 1;
    }
    proof {
        assert(catalog_view(catalog@).subrange(0, 0) == Seq::<(Seq<char>, u128)>::empty());
    }
    None
}

} // verus!
