//! The decisions of inventory synchronization: how one normalized provider item updates the
//! canonical resource, its observed state and the drift and reconciliation records.
//!
//! The records themselves live in the database; these functions say what to write and what to
//! count, given what the database already holds.
use crate::digest::{lower_hex, sha256_digest};
use crate::json::{get_str, json_encoding, string_member};
use crate::resource::{DriftStatus, ResourceLifecycle};
use vstd::prelude::*;

verus! {

/// How drift on a resource is answered.
#[derive(Clone, Copy, Debug, PartialEq, Eq, Structural)]
pub enum ReconciliationPolicy {
    /// Record the drift and nothing more.
    ObserveOnly,
    /// Open a reconciliation task that waits for approval.
    ManualApproval,
    /// Open a reconciliation task that is approved at once.
    Automatic,
}

impl ReconciliationPolicy {
    pub fn as_str(self) -> (r: &'static str)
        ensures
            r@ == policy_name(self),
    {
        match self {
            ReconciliationPolicy::ObserveOnly => "observe_only",
            ReconciliationPolicy::ManualApproval => "manual_approval",
            ReconciliationPolicy::Automatic => "automatic",
        }
    }
}

pub open spec fn policy_name(policy: ReconciliationPolicy) -> Seq<char> {
    match policy {
        ReconciliationPolicy::ObserveOnly => "observe_only"@,
        ReconciliationPolicy::ManualApproval => "manual_approval"@,
        ReconciliationPolicy::Automatic => "automatic"@,
    }
}

/// What a synchronization pass did.
#[derive(Clone, Copy, Debug, PartialEq, Eq, Structural)]
pub struct SyncOutcome {
    pub created: usize,
    pub updated: usize,
    pub drifted: usize,
    pub reconciliation_tasks: usize,
}

impl Default for SyncOutcome {
    fn default() -> (r: SyncOutcome)
        ensures
            r == (SyncOutcome { created: 0, updated: 0, drifted: 0, reconciliation_tasks: 0 }),
    {
        SyncOutcome { created: 0, updated: 0, drifted: 0, reconciliation_tasks: 0 }
    }
}

/// The lifecycle that a provider's `status` member names.
pub open spec fn lifecycle_of(status: Option<Seq<char>>) -> ResourceLifecycle {
    match status {
        Some(s) => if s == "active"@ || s == "running"@ || s == "ready"@ {
            ResourceLifecycle::Active
        } else if s == "stopped"@ || s == "off"@ {
            ResourceLifecycle::Stopped
        } else if s == "pending"@ || s == "provisioning"@ {
            ResourceLifecycle::Provisioning
        } else if s == "error"@ || s == "failed"@ {
            ResourceLifecycle::Error
        } else {
            ResourceLifecycle::Unknown
        },
        None => ResourceLifecycle::Unknown,
    }
}

/// The lifecycle of a resource, read from the `status` member of its normalized state.
pub fn normalize_lifecycle(state: &serde_json::Value) -> (r: ResourceLifecycle)
    ensures
        r == lifecycle_of(string_member(*state, "status"@)),
{
    let status = get_str(state, "status");
    match status {
        Some(s) => {
            let s = s.as_str();
            if crate::text::str_equals(s, "active") || crate::text::str_equals(s, "running")
                || crate::text::str_equals(s, "ready") {
                ResourceLifecycle::Active
            } else if crate::text::str_equals(s, "stopped") || crate::text::str_equals(s, "off") {
                ResourceLifecycle::Stopped
            } else if crate::text::str_equals(s, "pending") || crate::text::str_equals(
                s,
                "provisioning",
            ) {
                ResourceLifecycle::Provisioning
            } else if crate::text::str_equals(s, "error") || crate::text::str_equals(s, "failed") {
                ResourceLifecycle::Error
            } else {
                ResourceLifecycle::Unknown
            }
        },
        None => ResourceLifecycle::Unknown,
    }
}

/// The lowercase hexadecimal SHA-256 digest of the JSON encoding of a state.
pub fn hash_json(value: &serde_json::Value) -> (r: String)
    ensures
        r@ == lower_hex(sha256_digest(json_encoding(*value))),
{
    let encoded = crate::json::encode(value);
    match encoded {
        Some(bytes) => {
            let digest = crate::digest::sha256(bytes.as_slice());
            crate::digest::to_lower_hex(digest.as_slice())
        },
        None => {
            vstd::pervasive::unreached()
        },
    }
}

/// The region that a provider item's metadata names, if it names one as a string.
pub fn region_of(metadata: &serde_json::Value) -> (r: Option<String>)
    ensures
        match string_member(*metadata, "region"@) {
            Some(text) => r matches Some(s) && s@ == text,
            None => r is None,
        },
{
    get_str(metadata, "region")
}

/// The version of a new observation: one after the latest, or the first.
pub fn next_observed_version(latest: Option<i64>) -> (r: i64)
    requires
        latest matches Some(v) ==> v < i64::MAX,
    ensures
        r == match latest {
            Some(v) => v + 1,
            None => 1,
        },
{
    match latest {
        Some(v) => v + 1,
        None => 1,
    }
}

/// Counts an item against the resource it maps to: an existing mapping is an update, a new one a
/// creation. The result says whether the resource was discovered now (and so announced).
pub fn record_mapping(outcome: &mut SyncOutcome, mapping_existed: bool) -> (discovered: bool)
    requires
        old(outcome).created < usize::MAX,
        old(outcome).updated < usize::MAX,
    ensures
        discovered == !mapping_existed,
        final(outcome).updated == old(outcome).updated + if mapping_existed {
            1int
        } else {
            0int
        },
        final(outcome).created == old(outcome).created + if mapping_existed {
            0int
        } else {
            1int
        },
        final(outcome).drifted == old(outcome).drifted,
        final(outcome).reconciliation_tasks == old(outcome).reconciliation_tasks,
{
    if mapping_existed {
        outcome.updated = outcome.updated + 1;
    } else {
        outcome.created = outcome.created + 1;
    }
    !mapping_existed
}

/// The status of a reconciliation task when it opens.
#[derive(Clone, Copy, Debug, PartialEq, Eq, Structural)]
pub enum TaskOpening {
    /// Waits for an operator's approval.
    Pending,
    /// Approved by the policy itself.
    Approved,
}

impl TaskOpening {
    pub fn as_str(self) -> (r: &'static str)
        ensures
            r@ == match self {
                TaskOpening::Pending => "pending"@,
                TaskOpening::Approved => "approved"@,
            },
    {
        match self {
            TaskOpening::Pending => "pending",
            TaskOpening::Approved => "approved",
        }
    }
}

/// What to write in answer to a drift evaluation.
#[derive(Clone, Copy, Debug, PartialEq, Eq, Structural)]
pub struct DriftResponse {
    /// Record a new drift (no unresolved drift with this fingerprint is on record).
    pub record_drift: bool,
    /// Open a reconciliation task, in this status.
    pub open_task: Option<TaskOpening>,
    /// Announce the drift.
    pub announce: bool,
}

/// The answer to a drift evaluation of a resource under a policy.
pub open spec fn drift_response(
    status: DriftStatus,
    open_drift_exists: bool,
    policy: ReconciliationPolicy,
    active_task_exists: bool,
) -> DriftResponse {
    if status != DriftStatus::Drifted {
        DriftResponse { record_drift: false, open_task: None, announce: false }
    } else {
        DriftResponse {
            record_drift: !open_drift_exists,
            open_task: if policy == ReconciliationPolicy::ObserveOnly || active_task_exists {
                None
            } else if policy == ReconciliationPolicy::Automatic {
                Some(TaskOpening::Approved)
            } else {
                Some(TaskOpening::Pending)
            },
            announce: true,
        }
    }
}

/// Decides how to answer a drift evaluation and counts what is newly recorded: a drift is
/// recorded once per fingerprint while it is unresolved, and a task is opened unless the policy
/// only observes or a task for the same drift is still pending, approved or running.
pub fn respond_to_drift(
    outcome: &mut SyncOutcome,
    status: DriftStatus,
    open_drift_exists: bool,
    policy: ReconciliationPolicy,
    active_task_exists: bool,
) -> (r: DriftResponse)
    requires
        old(outcome).drifted < usize::MAX,
        old(outcome).reconciliation_tasks < usize::MAX,
    ensures
        r == drift_response(status, open_drift_exists, policy, active_task_exists),
        final(outcome).drifted == old(outcome).drifted + if r.record_drift {
            1int
        } else {
            0int
        },
        final(outcome).reconciliation_tasks == old(outcome).reconciliation_tasks + if r.open_task
            is Some {
            1int
        } else {
            0int
        },
        final(outcome).created == old(outcome).created,
        final(outcome).updated == old(outcome).updated,
{
    if status != DriftStatus::Drifted {
        return DriftResponse { record_drift: false, open_task: None, announce: false };
    }
    let record_drift = !open_drift_exists;
    if record_drift {
        outcome.drifted = outcome.drifted + 1;
    }
    let open_task = if policy == ReconciliationPolicy::ObserveOnly || active_task_exists {
        None
    } else if policy == ReconciliationPolicy::Automatic {
        Some(TaskOpening::Approved)
    } else {
        Some(TaskOpening::Pending)
    };
    if open_task.is_some() {
        outcome.reconciliation_tasks = outcome.reconciliation_tasks + 1;
    }
    DriftResponse { record_drift, open_task, announce: true }
}

/// Drift is never recorded twice: while an unresolved drift with the same fingerprint is on
/// record, a new evaluation records none and counts none, whatever the policy.
pub proof fn recorded_drift_is_not_recorded_again(
    status: DriftStatus,
    policy: ReconciliationPolicy,
    active_task_exists: bool,
)
    ensures
        !drift_response(status, true, policy, active_task_exists).record_drift,
{
}

/// A policy that only observes never opens a reconciliation task, and no task opens while one
/// for the same drift is active.
pub proof fn tasks_open_only_when_allowed(
    status: DriftStatus,
    open_drift_exists: bool,
    policy: ReconciliationPolicy,
    active_task_exists: bool,
)
    ensures
        (policy == ReconciliationPolicy::ObserveOnly || active_task_exists) ==> drift_response(
            status,
            open_drift_exists,
            policy,
            active_task_exists,
        ).open_task is None,
        drift_response(status, open_drift_exists, policy, active_task_exists).open_task == Some(
            TaskOpening::Approved,
        ) ==> policy == ReconciliationPolicy::Automatic,
{
}

/// A lifecycle's own name reads back as that lifecycle (`active`, `stopped`, `provisioning`,
/// `error`, and `unknown` itself), and the providers' other words for a state (`running` and
/// `ready`, `off`, `pending`, `failed`) read as the same lifecycle; no other text names a known
/// lifecycle.
pub proof fn lifecycle_names_read_back(lifecycle: ResourceLifecycle, status: Seq<char>)
    ensures
        lifecycle != ResourceLifecycle::Deleting && lifecycle != ResourceLifecycle::Deleted
            ==> lifecycle_of(Some(crate::resource::lifecycle_name(lifecycle))) == lifecycle,
        lifecycle_of(Some("running"@)) == ResourceLifecycle::Active,
        lifecycle_of(Some("ready"@)) == ResourceLifecycle::Active,
        lifecycle_of(Some("off"@)) == ResourceLifecycle::Stopped,
        lifecycle_of(Some("pending"@)) == ResourceLifecycle::Provisioning,
        lifecycle_of(Some("failed"@)) == ResourceLifecycle::Error,
        lifecycle_of(Some(status)) != ResourceLifecycle::Unknown ==> (status == "active"@ || status
            == "running"@ || status == "ready"@ || status == "stopped"@ || status == "off"@
            || status == "pending"@ || status == "provisioning"@ || status == "error"@ || status
            == "failed"@),
        lifecycle_of(None) == ResourceLifecycle::Unknown,
{
    reveal_strlit("active");
    reveal_strlit("running");
    reveal_strlit("ready");
    reveal_strlit("stopped");
    reveal_strlit("off");
    reveal_strlit("pending");
    reveal_strlit("provisioning");
    reveal_strlit("error");
    reveal_strlit("failed");
    reveal_strlit("unknown");
    assert("unknown"@[0] != "active"@[0] && "unknown"@[0] != "running"@[0] && "unknown"@[0]
        != "ready"@[0] && "unknown"@[0] != "stopped"@[0] && "unknown"@[0] != "off"@[0]
        && "unknown"@[0] != "pending"@[0] && "unknown"@[0] != "provisioning"@[0] && "unknown"@[0]
        != "error"@[0] && "unknown"@[0] != "failed"@[0]);
    assert("stopped"@[0] != "active"@[0] && "stopped"@[0] != "running"@[0] && "stopped"@[0]
        != "ready"@[0]);
    assert("provisioning"@[0] != "active"@[0] && "provisioning"@[0] != "running"@[0]
        && "provisioning"@[0] != "ready"@[0] && "provisioning"@[0] != "stopped"@[0]
        && "provisioning"@[0] != "off"@[0]);
    assert("error"@[0] != "active"@[0] && "error"@[0] != "running"@[0] && "error"@[0]
        != "ready"@[0] && "error"@[0] != "stopped"@[0] && "error"@[0] != "off"@[0]
        && "error"@[0] != "pending"@[0] && "error"@[0] != "provisioning"@[0]);
}

/// Every status that the compute adapters write into a normalized state for a known state reads
/// back as the lifecycle of that state: a Vultr instance or OVH VPS reported `running` (or, for
/// OVH, `active`) is active, `stopped` is stopped, `provisioning` is provisioning, and `error` is
/// an error; only what an adapter itself reports as `unknown` reads as unknown.
pub proof fn adapter_statuses_read_as_their_lifecycle(
    instance: serde_json::Value,
    vps_state: Option<Seq<char>>,
)
    ensures
        ({
            let s = crate::provider::vultr::instance_status(instance);
            &&& s == "running"@ ==> lifecycle_of(Some(s)) == ResourceLifecycle::Active
            &&& s == "stopped"@ ==> lifecycle_of(Some(s)) == ResourceLifecycle::Stopped
            &&& s == "provisioning"@ ==> lifecycle_of(Some(s)) == ResourceLifecycle::Provisioning
            &&& (lifecycle_of(Some(s)) == ResourceLifecycle::Unknown <==> s == "unknown"@)
        }),
        ({
            let s = crate::provider::ovh::vps_status(vps_state);
            &&& (s == "running"@ || s == "active"@) ==> lifecycle_of(Some(s))
                == ResourceLifecycle::Active
            &&& s == "stopped"@ ==> lifecycle_of(Some(s)) == ResourceLifecycle::Stopped
            &&& s == "provisioning"@ ==> lifecycle_of(Some(s)) == ResourceLifecycle::Provisioning
            &&& s == "error"@ ==> lifecycle_of(Some(s)) == ResourceLifecycle::Error
            &&& (lifecycle_of(Some(s)) == ResourceLifecycle::Unknown <==> s == "unknown"@)
        }),
{
    reveal_strlit("active");
    reveal_strlit("running");
    reveal_strlit("stopped");
    reveal_strlit("provisioning");
    reveal_strlit("error");
    reveal_strlit("unknown");
    lifecycle_names_read_back(ResourceLifecycle::Unknown, "unknown"@);
    lifecycle_names_read_back(ResourceLifecycle::Active, "active"@);
    lifecycle_names_read_back(ResourceLifecycle::Stopped, "stopped"@);
    lifecycle_names_read_back(ResourceLifecycle::Provisioning, "provisioning"@);
    lifecycle_names_read_back(ResourceLifecycle::Error, "error"@);
    assert(lifecycle_of(Some("unknown"@)) == ResourceLifecycle::Unknown);
    let v = crate::provider::vultr::instance_status(instance);
    assert(v == "running"@ || v == "stopped"@ || v == "provisioning"@ || v == "unknown"@);
    let o = crate::provider::ovh::vps_status(vps_state);
    assert(o == "running"@ || o == "stopped"@ || o == "provisioning"@ || o == "active"@ || o
        == "error"@ || o == "unknown"@);
}

} // verus!
