use multicloud::authorization::permissions;
use multicloud::authorization::{PermissionKey, PermissionSet};
use multicloud::identity::{Email, IdentityError};
use multicloud::kernel::{
    InvitationId, MembershipId, OrganizationId, Span, Timestamp, UserId, NANOS_PER_MINUTE,
};
use multicloud::operation::{OperationStatus, RetryPolicy};
use multicloud::organization::{Invitation, Membership, MembershipStatus};
use multicloud::ticket::{sla_target, TicketStatus};

#[test]
fn permission_key_requires_three_segments() {
    assert!(PermissionKey::parse("organization.member.read").is_ok());
    assert!(PermissionKey::parse("member.read").is_err());
    assert!(PermissionKey::parse("Organization.member.read").is_err());
}

#[test]
fn permission_set_denies_missing_permission() {
    let granted = PermissionKey::parse(permissions::ORGANIZATION_READ).expect("valid key");
    let required = PermissionKey::parse(permissions::ROLE_MANAGE).expect("valid key");
    let set = PermissionSet::new(vec![granted]);
    assert!(!set.allows(&required));
}

#[test]
fn permission_set_allows_granted_permission() {
    let granted = PermissionKey::parse(permissions::ROLE_MANAGE).expect("valid key");
    let required = PermissionKey::parse(permissions::ROLE_MANAGE).expect("valid key");
    let set = PermissionSet::new(vec![granted]);
    assert!(set.allows(&required));
}

#[test]
fn email_is_normalized() {
    let email = Email::parse("  User@Example.COM ").expect("valid email");
    assert_eq!(email.as_str(), "user@example.com");
}

#[test]
fn malformed_email_is_rejected() {
    assert!(matches!(Email::parse("invalid"), Err(IdentityError::InvalidEmail)));
}

#[test]
fn retry_delay_is_exponential_and_capped() {
    let policy = RetryPolicy::default();
    assert_eq!(policy.delay_for_attempt(1), Span::seconds(1));
    assert_eq!(policy.delay_for_attempt(4), Span::seconds(8));
    assert_eq!(policy.delay_for_attempt(20), Span::minutes(5));
}

#[test]
fn retry_policy_dead_letters_after_ten_attempts() {
    let policy = RetryPolicy::default();
    assert!(!policy.should_dead_letter(9));
    assert!(policy.should_dead_letter(10));
}

#[test]
fn terminal_statuses_are_explicit() {
    assert!(!OperationStatus::Running.is_terminal());
    assert!(OperationStatus::Succeeded.is_terminal());
    assert!(OperationStatus::TimedOut.is_terminal());
}

#[test]
fn only_active_membership_grants_access() {
    let membership = Membership {
        id: MembershipId(1),
        organization_id: OrganizationId(2),
        user_id: UserId(3),
        status: MembershipStatus::Suspended,
        joined_at: Timestamp { unix_nanos: 1_700_000_000_000_000_000 },
    };

    assert!(!membership.grants_access());
}

#[test]
fn active_membership_grants_access() {
    let membership = Membership {
        id: MembershipId(1),
        organization_id: OrganizationId(2),
        user_id: UserId(3),
        status: MembershipStatus::Active,
        joined_at: Timestamp { unix_nanos: 1_700_000_000_000_000_000 },
    };
    assert!(membership.grants_access());
}

#[test]
fn expired_invitation_cannot_be_accepted() {
    let now = Timestamp { unix_nanos: 1_700_000_000_000_000_000 };
    let invitation = Invitation {
        id: InvitationId(1),
        organization_id: OrganizationId(2),
        email: "user@example.com".to_owned(),
        invited_by: UserId(3),
        expires_at: Timestamp { unix_nanos: now.unix_nanos - NANOS_PER_MINUTE },
        accepted_at: None,
    };

    assert!(!invitation.can_be_accepted_at(now));
}

#[test]
fn open_invitation_can_be_accepted_until_it_expires() {
    let now = Timestamp { unix_nanos: 1_700_000_000_000_000_000 };
    let invitation = Invitation {
        id: InvitationId(1),
        organization_id: OrganizationId(2),
        email: "user@example.com".to_owned(),
        invited_by: UserId(3),
        expires_at: Timestamp { unix_nanos: now.unix_nanos + NANOS_PER_MINUTE },
        accepted_at: None,
    };
    assert!(invitation.can_be_accepted_at(now));
    let accepted = Invitation { accepted_at: Some(now), ..invitation };
    assert!(!accepted.can_be_accepted_at(now));
}

#[test]
fn closed_ticket_must_reopen_before_work_resumes() {
    assert!(TicketStatus::Closed.transition_to(TicketStatus::Open).is_ok());
    assert!(TicketStatus::Closed.transition_to(TicketStatus::InProgress).is_err());
}

#[test]
fn sla_deadlines_are_deterministic() {
    let now = Timestamp::unix_epoch();
    let target = sla_target(now, 30, 240);
    assert_eq!(target.response_due_at, now.plus(Span::minutes(30)));
    assert_eq!(target.resolution_due_at, now.plus(Span::minutes(4 * 60)));
}

#[test]
fn ticket_status_round_trips_through_its_text() {
    for status in [
        TicketStatus::Open,
        TicketStatus::InProgress,
        TicketStatus::WaitingOnCustomer,
        TicketStatus::Resolved,
        TicketStatus::Closed,
    ] {
        assert_eq!(TicketStatus::parse(status.as_str()), Ok(status));
    }
}

#[test]
fn keeping_a_status_is_always_allowed() {
    for status in [
        TicketStatus::Open,
        TicketStatus::InProgress,
        TicketStatus::WaitingOnCustomer,
        TicketStatus::Resolved,
        TicketStatus::Closed,
    ] {
        assert!(status.transition_to(status).is_ok());
        assert!(status.transition_to(TicketStatus::Closed).is_ok());
    }
}

#[test]
fn system_roles_are_nested() {
    let specs = multicloud::authorization::system_role_specs();
    let owner = specs[0].permission_keys;
    let member = specs[2].permission_keys;
    let viewer = specs[3].permission_keys;
    assert_eq!(specs[0].key, "owner");
    assert!(member.iter().all(|key| owner.contains(key)));
    assert!(viewer.iter().all(|key| member.contains(key)));
    assert!(viewer.len() < member.len());
}

#[test]
fn permission_key_segments_must_not_be_empty() {
    assert!(PermissionKey::parse("..").is_err());
    assert!(PermissionKey::parse("organization..read").is_err());
    assert!(PermissionKey::parse(".member.read").is_err());
    assert!(PermissionKey::parse("organization.member.").is_err());
    assert!(PermissionKey::parse("a.b.c").is_ok());
}
