//! Organizations (tenants), memberships and invitations.
use crate::kernel::{InvitationId, MembershipId, OrganizationId, Timestamp, UserId};
use vstd::prelude::*;

verus! {

#[derive(Clone, Copy, Debug, PartialEq, Eq, Structural)]
pub enum OrganizationStatus {
    Active,
    Suspended,
}

#[derive(Clone, Debug)]
pub struct Organization {
    pub id: OrganizationId,
    pub slug: String,
    pub name: String,
    pub status: OrganizationStatus,
    pub created_at: Timestamp,
}

#[derive(Clone, Copy, Debug, PartialEq, Eq, Structural)]
pub enum MembershipStatus {
    Active,
    Suspended,
}

#[derive(Clone, Copy, Debug)]
pub struct Membership {
    pub id: MembershipId,
    pub organization_id: OrganizationId,
    pub user_id: UserId,
    pub status: MembershipStatus,
    pub joined_at: Timestamp,
}

#[derive(Clone, Debug)]
pub struct Invitation {
    pub id: InvitationId,
    pub organization_id: OrganizationId,
    pub email: String,
    pub invited_by: UserId,
    pub expires_at: Timestamp,
    pub accepted_at: Option<Timestamp>,
}

impl Invitation {
    /// An invitation can be accepted once, before it expires.
    pub fn can_be_accepted_at(&self, now: Timestamp) -> (r: bool)
        ensures
            r == (self.accepted_at is None && self.expires_at.unix_nanos > now.unix_nanos),
    {
        self.accepted_at.is_none() && self.expires_at.is_after(now)
    }
}

impl Membership {
    /// Only an active membership grants access to its organization.
    pub fn grants_access(&self) -> (r: bool)
        ensures
            r == (self.status == MembershipStatus::Active),
    {
        match self.status {
            MembershipStatus::Active => true,
            MembershipStatus::Suspended => false,
        }
    }
}

#[derive(Clone, Copy, Debug, PartialEq, Eq, Structural)]
pub enum OrganizationError {
    NotFound,
    MembershipRequired,
    Unavailable,
    Persistence,
}

} // verus!
