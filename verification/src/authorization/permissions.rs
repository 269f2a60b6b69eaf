//! The permission catalog: every key in `domain.resource.action` form.
use vstd::prelude::*;

verus! {

pub const ORGANIZATION_READ: &'static str = "organization.organization.read";
pub const ORGANIZATION_UPDATE: &'static str = "organization.organization.update";
pub const MEMBER_READ: &'static str = "organization.member.read";
pub const MEMBER_MANAGE: &'static str = "organization.member.manage";
pub const INVITATION_MANAGE: &'static str = "organization.invitation.manage";
pub const ROLE_READ: &'static str = "authorization.role.read";
pub const ROLE_MANAGE: &'static str = "authorization.role.manage";
pub const BINDING_MANAGE: &'static str = "authorization.binding.manage";
pub const OPERATION_READ: &'static str = "operation.operation.read";
pub const OPERATION_CANCEL: &'static str = "operation.operation.cancel";
pub const PROVIDER_ACCOUNT_READ: &'static str = "provider.account.read";
pub const PROVIDER_ACCOUNT_MANAGE: &'static str = "provider.account.manage";
pub const PROVIDER_CONNECTION_TEST: &'static str = "provider.connection.test";
pub const RESOURCE_READ: &'static str = "resource.resource.read";
pub const RESOURCE_MANAGE: &'static str = "resource.resource.manage";
pub const RESOURCE_SYNC: &'static str = "resource.sync.execute";
pub const RECONCILIATION_MANAGE: &'static str = "resource.reconciliation.manage";
pub const AUDIT_READ: &'static str = "audit.log.read";
pub const AUDIT_EXPORT: &'static str = "audit.log.export";
pub const AUDIT_RETENTION_MANAGE: &'static str = "audit.retention.manage";
pub const TICKET_READ: &'static str = "ticket.ticket.read";
pub const TICKET_CREATE: &'static str = "ticket.ticket.create";
pub const TICKET_COMMENT: &'static str = "ticket.comment.create";
pub const TICKET_MANAGE: &'static str = "ticket.ticket.manage";
pub const TICKET_SLA_MANAGE: &'static str = "ticket.sla.manage";

/// Every permission key of the catalog, in catalog order.
pub open spec fn catalog_keys() -> Seq<&'static str> {
    seq![
        ORGANIZATION_READ,
        ORGANIZATION_UPDATE,
        MEMBER_READ,
        MEMBER_MANAGE,
        INVITATION_MANAGE,
        ROLE_READ,
        ROLE_MANAGE,
        BINDING_MANAGE,
        OPERATION_READ,
        OPERATION_CANCEL,
        PROVIDER_ACCOUNT_READ,
        PROVIDER_ACCOUNT_MANAGE,
        PROVIDER_CONNECTION_TEST,
        RESOURCE_READ,
        RESOURCE_MANAGE,
        RESOURCE_SYNC,
        RECONCILIATION_MANAGE,
        AUDIT_READ,
        AUDIT_EXPORT,
        AUDIT_RETENTION_MANAGE,
        TICKET_READ,
        TICKET_CREATE,
        TICKET_COMMENT,
        TICKET_MANAGE,
        TICKET_SLA_MANAGE,
    ]
}

/// The catalog: each permission key with its description.
pub fn all() -> (r: Vec<(&'static str, &'static str)>)
    ensures
        r@.len() == catalog_keys().len(),
        forall|i: int| 0 <= i < r@.len() ==> (#[trigger] r@[i]).0 == catalog_keys()[i],
{
    let r = vec![
        (ORGANIZATION_READ, "Read organization details"),
        (ORGANIZATION_UPDATE, "Update organization settings"),
        (MEMBER_READ, "Read organization members"),
        (MEMBER_MANAGE, "Manage organization members"),
        (INVITATION_MANAGE, "Create and revoke invitations"),
        (ROLE_READ, "Read roles and permissions"),
        (ROLE_MANAGE, "Create and update custom roles"),
        (BINDING_MANAGE, "Assign and remove role bindings"),
        (OPERATION_READ, "Read operation status"),
        (OPERATION_CANCEL, "Cancel queued operations"),
        (PROVIDER_ACCOUNT_READ, "Read provider accounts"),
        (PROVIDER_ACCOUNT_MANAGE, "Manage provider accounts and credentials"),
        (PROVIDER_CONNECTION_TEST, "Validate provider credentials and discover capabilities"),
        (RESOURCE_READ, "Read canonical resources and state"),
        (RESOURCE_MANAGE, "Manage resource desired state and lifecycle"),
        (RESOURCE_SYNC, "Execute provider inventory synchronization"),
        (RECONCILIATION_MANAGE, "Approve and manage reconciliation tasks"),
        (AUDIT_READ, "Read tenant audit logs"),
        (AUDIT_EXPORT, "Export tenant audit logs"),
        (AUDIT_RETENTION_MANAGE, "Manage tenant audit retention"),
        (TICKET_READ, "Read organization tickets"),
        (TICKET_CREATE, "Create support tickets"),
        (TICKET_COMMENT, "Comment on support tickets"),
        (TICKET_MANAGE, "Assign and transition tickets"),
        (TICKET_SLA_MANAGE, "Manage ticket SLA policies"),
    ];
    r
}

} // verus!
