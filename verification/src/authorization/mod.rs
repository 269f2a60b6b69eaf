//! Organization-scoped role-based access control.
pub mod permissions;

use crate::kernel::{OrganizationId, UserId};
use crate::text::{count_char, str_equals};
use permissions::{
    catalog_keys, AUDIT_EXPORT, AUDIT_READ, AUDIT_RETENTION_MANAGE, BINDING_MANAGE,
    INVITATION_MANAGE, MEMBER_MANAGE, MEMBER_READ, OPERATION_CANCEL, OPERATION_READ,
    ORGANIZATION_READ, ORGANIZATION_UPDATE, PROVIDER_ACCOUNT_MANAGE, PROVIDER_ACCOUNT_READ,
    PROVIDER_CONNECTION_TEST, RECONCILIATION_MANAGE, RESOURCE_MANAGE, RESOURCE_READ,
    RESOURCE_SYNC, ROLE_MANAGE, ROLE_READ, TICKET_COMMENT, TICKET_CREATE, TICKET_MANAGE,
    TICKET_READ, TICKET_SLA_MANAGE,
};
use vstd::prelude::*;

verus! {

/// A built-in role that every organization receives.
pub struct SystemRoleSpec {
    pub key: &'static str,
    pub name: &'static str,
    pub description: &'static str,
    pub permission_keys: &'static [&'static str],
}

/// The permissions of the owner and admin roles: the whole catalog.
pub open spec fn owner_admin_keys() -> Seq<&'static str> {
    catalog_keys()
}

/// The permissions of the member role.
pub open spec fn member_keys() -> Seq<&'static str> {
    seq![
        ORGANIZATION_READ,
        MEMBER_READ,
        OPERATION_READ,
        PROVIDER_ACCOUNT_READ,
        RESOURCE_READ,
        TICKET_READ,
        TICKET_CREATE,
        TICKET_COMMENT,
    ]
}

/// The permissions of the viewer role.
pub open spec fn viewer_keys() -> Seq<&'static str> {
    seq![ORGANIZATION_READ, PROVIDER_ACCOUNT_READ, RESOURCE_READ, TICKET_READ]
}

/// The four system roles: owner, admin, member and viewer, in that order.
pub fn system_role_specs() -> (r: [SystemRoleSpec; 4])
    ensures
        r[0].key == "owner",
        r[1].key == "admin",
        r[2].key == "member",
        r[3].key == "viewer",
        r[0].name == "Owner",
        r[1].name == "Admin",
        r[2].name == "Member",
        r[3].name == "Viewer",
        r[0].description == "Full organization access",
        r[1].description == "Organization administration access",
        r[2].description == "Standard organization access",
        r[3].description == "Read-only organization access",
        r[0].permission_keys@ == owner_admin_keys(),
        r[1].permission_keys@ == owner_admin_keys(),
        r[2].permission_keys@ == member_keys(),
        r[3].permission_keys@ == viewer_keys(),
{
    let owner_admin: &'static [&'static str] = &[
        ORGANIZATION_READ,
        ORGANIZATION_UPDATE,
        MEMBER_READ,
        MEMBER_MANAGE,
        INVITATION_MANAGE,
        ROLE_READ,
        ROLE_MANAGE,
        BINDING_MANAGE,
        OPERATION_READ,
        OPERATION_CANCEL,
        PROVIDER_ACCOUNT_READ,
        PROVIDER_ACCOUNT_MANAGE,
        PROVIDER_CONNECTION_TEST,
        RESOURCE_READ,
        RESOURCE_MANAGE,
        RESOURCE_SYNC,
        RECONCILIATION_MANAGE,
        AUDIT_READ,
        AUDIT_EXPORT,
        AUDIT_RETENTION_MANAGE,
        TICKET_READ,
        TICKET_CREATE,
        TICKET_COMMENT,
        TICKET_MANAGE,
        TICKET_SLA_MANAGE,
    ];
    let member: &'static [&'static str] = &[
        ORGANIZATION_READ,
        MEMBER_READ,
        OPERATION_READ,
        PROVIDER_ACCOUNT_READ,
        RESOURCE_READ,
        TICKET_READ,
        TICKET_CREATE,
        TICKET_COMMENT,
    ];
    let viewer: &'static [&'static str] = &[
        ORGANIZATION_READ,
        PROVIDER_ACCOUNT_READ,
        RESOURCE_READ,
        TICKET_READ,
    ];
    proof {
        assert(owner_admin@ == owner_admin_keys());
        assert(member@ == member_keys());
        assert(viewer@ == viewer_keys());
    }
    [
        SystemRoleSpec {
            key: "owner",
            name: "Owner",
            description: "Full organization access",
            permission_keys: owner_admin,
        },
        SystemRoleSpec {
            key: "admin",
            name: "Admin",
            description: "Organization administration access",
            permission_keys: owner_admin,
        },
        SystemRoleSpec {
            key: "member",
            name: "Member",
            description: "Standard organization access",
            permission_keys: member,
        },
        SystemRoleSpec {
            key: "viewer",
            name: "Viewer",
            description: "Read-only organization access",
            permission_keys: viewer,
        },
    ]
}

/// Every member permission is also an owner/admin permission, and every viewer permission is
/// also a member permission: the system roles are nested.
pub proof fn system_roles_are_nested()
    ensures
        forall|k: &'static str| member_keys().contains(k) ==> owner_admin_keys().contains(k),
        forall|k: &'static str| viewer_keys().contains(k) ==> member_keys().contains(k),
{
    let o = owner_admin_keys();
    let m = member_keys();
    let v = viewer_keys();
    assert forall|k: &'static str| m.contains(k) implies o.contains(k) by {
        let i = choose|i: int| 0 <= i < m.len() && m[i] == k;
        if i == 0 {
            assert(o[0] == k);
        } else if i == 1 {
            assert(o[2] == k);
        } else if i == 2 {
            assert(o[8] == k);
        } else if i == 3 {
            assert(o[10] == k);
        } else if i == 4 {
            assert(o[13] == k);
        } else if i == 5 {
            assert(o[20] == k);
        } else if i == 6 {
            assert(o[21] == k);
        } else {
            assert(o[22] == k);
        }
    }
    assert forall|k: &'static str| v.contains(k) implies m.contains(k) by {
        let i = choose|i: int| 0 <= i < v.len() && v[i] == k;
        if i == 0 {
            assert(m[0] == k);
        } else if i == 1 {
            assert(m[3] == k);
        } else if i == 2 {
            assert(m[4] == k);
        } else {
            assert(m[5] == k);
        }
    }
}

/// A character allowed in a permission key.
pub open spec fn permission_key_char(c: char) -> bool {
    ('a' <= c && c <= 'z') || ('0' <= c && c <= '9') || c == '.' || c == '_' || c == '-'
}

/// No `.` of `value` starts it, ends it, or follows another `.`: every `.`-separated segment
/// has at least one character.
pub open spec fn segments_nonempty(value: Seq<char>) -> bool {
    &&& value.len() > 0
    &&& value[0] != '.'
    &&& value[value.len() - 1] != '.'
    &&& forall|i: int| 0 < i < value.len() && #[trigger] value[i] == '.' ==> value[i - 1] != '.'
}

/// A well-formed permission key in `domain.resource.action` form: three non-empty
/// `.`-separated segments of `[a-z0-9._-]` characters.
pub open spec fn valid_permission_key(value: Seq<char>) -> bool {
    &&& count_char(value, '.') == 2
    &&& segments_nonempty(value)
    &&& forall|i: int| 0 <= i < value.len() ==> permission_key_char(#[trigger] value[i])
}

#[derive(Clone, Copy, Debug, PartialEq, Eq, Structural)]
pub enum AuthorizationError {
    InvalidPermissionKey,
    Denied,
    RoleNotFound,
    Persistence,
}

/// A validated permission key.
#[derive(Debug, Eq, Hash)]
pub struct PermissionKey(String);

impl View for PermissionKey {
    type V = Seq<char>;

    closed spec fn view(&self) -> Seq<char> {
        self.0@
    }
}

impl Clone for PermissionKey {
    fn clone(&self) -> (r: Self)
        ensures
            r@ == self@,
    {
        PermissionKey(self.0.clone())
    }
}

impl PartialEq for PermissionKey {
    fn eq(&self, other: &Self) -> (r: bool) {
        self.0 == other.0
    }
}

impl vstd::std_specs::cmp::PartialEqSpecImpl for PermissionKey {
    open spec fn obeys_eq_spec() -> bool {
        true
    }

    open spec fn eq_spec(&self, other: &Self) -> bool {
        self@ == other@
    }
}

proof fn lemma_count_char_step(s: Seq<char>, i: int, c: char)
    requires
        0 <= i < s.len(),
    ensures
        count_char(s.subrange(0, i + 1), c) == count_char(s.subrange(0, i), c) + if s[i] == c {
            1nat
        } else {
            0nat
        },
{
    assert(s.subrange(0, i + 1).drop_last() == s.subrange(0, i));
}

impl PermissionKey {
    /// Parses a permission key in `domain.resource.action` form.
    pub fn parse(value: &str) -> (r: Result<PermissionKey, AuthorizationError>)
        ensures
            r is Ok <==> valid_permission_key(value@),
            r matches Ok(key) ==> key@ == value@,
            r is Err ==> r == Err::<PermissionKey, AuthorizationError>(
                AuthorizationError::InvalidPermissionKey,
            ),
    {
        let chars = crate::text::chars_of(value);
        let ghost s = value@;
        let mut dots: usize = 0;
        let mut all_allowed = true;
        let mut no_adjacent_dots = true;
        let mut index: usize = 0;
        while index < chars.len()
            invariant
                chars@ == s,
                s == value@,
                index <= chars.len(),
                dots <= index,
                dots == count_char(s.subrange(0, index as int), '.'),
                all_allowed == (forall|j: int|
                    0 <= j < index ==> permission_key_char(#[trigger] s[j])),
                no_adjacent_dots == (forall|j: int|
                    0 < j < index && #[trigger] s[j] == '.' ==> s[j - 1] != '.'),
            decreases chars.len() - index,
        {
            let c = chars[index];
            proof {
                lemma_count_char_step(s, index as int, '.');
            }
            if c == '.' {
                dots += 1;
                if index > 0 && chars[index - 1] == '.' {
                    no_adjacent_dots = false;
                }
            }
            if !(('a' <= c && c <= 'z') || ('0' <= c && c <= '9') || c == '.' || c == '_' || c
                == '-') {
                all_allowed = false;
            }
            index += 1;
        }
        proof {
            assert(s.subrange(0, s.len() as int) == s);
        }
        let nonempty_ends = chars.len() > 0 && chars[0] != '.' && chars[chars.len() - 1] != '.';
        if dots == 2 && all_allowed && no_adjacent_dots && nonempty_ends {
            Ok(PermissionKey(value.to_owned()))
        } else {
            Err(AuthorizationError::InvalidPermissionKey)
        }
    }

    pub fn as_str(&self) -> (r: &str)
        ensures
            r@ == self@,
    {
        self.0.as_str()
    }
}

/// Some key of `keys` has the text `k`.
pub open spec fn key_among(keys: Seq<PermissionKey>, k: Seq<char>) -> bool {
    exists|i: int| 0 <= i < keys.len() && keys[i]@ == k
}

/// A set of granted permission keys; no key occurs twice.
#[derive(Debug)]
pub struct PermissionSet {
    keys: Vec<PermissionKey>,
}

impl View for PermissionSet {
    type V = Set<Seq<char>>;

    closed spec fn view(&self) -> Set<Seq<char>> {
        Set::new(|k: Seq<char>| key_among(self.keys@, k))
    }
}

impl PermissionSet {
    /// No key occurs twice.
    pub closed spec fn wf(&self) -> bool {
        forall|i: int, j: int|
            0 <= i < j < self.keys@.len() ==> self.keys@[i]@ != self.keys@[j]@
    }

    /// The set of the given keys.
    pub fn new(values: Vec<PermissionKey>) -> (r: PermissionSet)
        ensures
            r.wf(),
            forall|k: Seq<char>| r@.contains(k) <==> #[trigger] key_among(values@, k),
    {
        let mut keys: Vec<PermissionKey> = Vec::new();
        let mut i: usize = 0;
        while i < values.len()
            invariant
                i <= values.len(),
                forall|a: int, b: int| 0 <= a < b < keys@.len() ==> keys@[a]@ != keys@[b]@,
                forall|k: Seq<char>|
                    #[trigger] key_among(keys@, k) <==> key_among(values@.subrange(0, i as int), k),
            decreases values.len() - i,
        {
            let candidate = &values[i];
            let mut present = false;
            let mut j: usize = 0;
            while j < keys.len()
                invariant
                    j <= keys.len(),
                    present == exists|a: int| 0 <= a < j && keys@[a]@ == candidate@,
                decreases keys.len() - j,
            {
                if str_equals(keys[j].as_str(), candidate.as_str()) {
                    present = true;
                }
                j += 1;
            }
            let ghost before = keys@;
            let ghost prefix = values@.subrange(0, i as int);
            let ghost next = values@.subrange(0, i + 1);
            proof {
                assert(next == prefix.push(values@[i as int]));
            }
            if !present {
                keys.push(candidate.clone());
                proof {
                    assert forall|k: Seq<char>|
                        #[trigger] key_among(keys@, k) <==> key_among(next, k) by {
                        if key_among(next, k) {
                            let b = choose|b: int| 0 <= b < next.len() && next[b]@ == k;
                            if b == i {
                                assert(keys@[before.len() as int]@ == k);
                            } else {
                                assert(prefix[b]@ == k);
                                assert(key_among(prefix, k));
                                assert(key_among(before, k));
                                let a = choose|a: int| 0 <= a < before.len() && before[a]@ == k;
                                assert(keys@[a]@ == k);
                            }
                        }
                        if key_among(keys@, k) {
                            let a = choose|a: int| 0 <= a < keys@.len() && keys@[a]@ == k;
                            if a == before.len() {
                                assert(next[i as int]@ == k);
                            } else {
                                assert(before[a]@ == k);
                                assert(key_among(before, k));
                                assert(key_among(prefix, k));
                                let b = choose|b: int| 0 <= b < prefix.len() && prefix[b]@ == k;
                                assert(next[b]@ == k);
                            }
                        }
                    }
                }
            } else {
                proof {
                    let a0 = choose|a: int| 0 <= a < j && keys@[a]@ == candidate@;
                    assert forall|k: Seq<char>|
                        #[trigger] key_among(keys@, k) <==> key_among(next, k) by {
                        if key_among(next, k) {
                            let b = choose|b: int| 0 <= b < next.len() && next[b]@ == k;
                            if b == i {
                                assert(keys@[a0]@ == k);
                            } else {
                                assert(prefix[b]@ == k);
                                assert(key_among(prefix, k));
                            }
                        }
                        if key_among(keys@, k) {
                            assert(key_among(prefix, k));
                            let b = choose|b: int| 0 <= b < prefix.len() && prefix[b]@ == k;
                            assert(next[b]@ == k);
                        }
                    }
                }
            }
            i += 1;
        }
        proof {
            assert(values@.subrange(0, values@.len() as int) == values@);
        }
        PermissionSet { keys }
    }

    /// Whether the set grants `required`.
    pub fn allows(&self, required: &PermissionKey) -> (r: bool)
        ensures
            r == self@.contains(required@),
    {
        let mut j: usize = 0;
        while j < self.keys.len()
            invariant
                j <= self.keys@.len(),
                forall|a: int| 0 <= a < j ==> self.keys@[a]@ != required@,
            decreases self.keys.len() - j,
        {
            if str_equals(self.keys[j].as_str(), required.as_str()) {
                proof {
                    assert(key_among(self.keys@, required@));
                }
                return true;
            }
            j += 1;
        }
        false
    }

    /// The granted keys, each once.
    pub fn values(&self) -> (r: &[PermissionKey])
        requires
            self.wf(),
        ensures
            forall|k: Seq<char>| self@.contains(k) <==> #[trigger] key_among(r@, k),
            forall|i: int, j: int| 0 <= i < j < r@.len() ==> r@[i]@ != r@[j]@,
    {
        self.keys.as_slice()
    }
}

#[derive(Clone, Copy, Debug, PartialEq, Eq, Structural)]
pub enum SubjectType {
    User,
}

#[derive(Clone, Copy, Debug, PartialEq, Eq, Structural)]
pub enum ScopeType {
    Organization,
}

/// A role granted to a user within an organization.
#[derive(Clone, Copy, Debug)]
pub struct RoleBinding {
    pub id: u128,
    pub organization_id: OrganizationId,
    pub role_id: u128,
    pub subject_type: SubjectType,
    pub subject_id: UserId,
    pub scope_type: ScopeType,
    pub scope_id: OrganizationId,
}

} // verus!
