use multicloud::audit::{outcome_for, project, redact_value, severity_for};
use multicloud::kernel::{Timestamp, NANOS_PER_SECOND};
use multicloud::operation::OperationStatus;
use multicloud::provider::{ProviderError, ProviderErrorCategory};
use multicloud::provider_operations::{
    next_attempt_number, plan_failure, plan_publish_failure, truncate_error,
};
use multicloud::resource::sync::{
    hash_json, normalize_lifecycle, respond_to_drift, ReconciliationPolicy, SyncOutcome,
    TaskOpening,
};
use multicloud::resource::{
    detect_drift, DesiredState, DriftStatus, ObservedState, ResourceError, ResourceLifecycle,
};
use serde_json::Value;

fn object(entries: Vec<(&str, Value)>) -> Value {
    let mut map = serde_json::Map::new();
    for (key, value) in entries {
        map.insert(key.to_owned(), value);
    }
    Value::Object(map)
}

#[test]
fn drift_ignores_unmanaged_provider_metadata() {
    let desired = DesiredState {
        version: 4,
        managed_fields: vec!["content".to_owned()],
        state: object(vec![("content", Value::from("1.1.1.1"))]),
    };
    let observed = ObservedState {
        version: 9,
        state: object(vec![
            ("content", Value::from("1.1.1.1")),
            ("provider_timestamp", Value::from(123)),
        ]),
    };
    assert_eq!(detect_drift(&desired, &observed).unwrap().status, DriftStatus::InSync);
}

#[test]
fn drift_fingerprint_is_stable() {
    let desired = DesiredState {
        version: 2,
        managed_fields: vec!["content".to_owned(), "ttl".to_owned()],
        state: object(vec![("content", Value::from("1.1.1.1")), ("ttl", Value::from(120))]),
    };
    let observed = ObservedState {
        version: 3,
        state: object(vec![("ttl", Value::from(60)), ("content", Value::from("2.2.2.2"))]),
    };
    let first = detect_drift(&desired, &observed).unwrap();
    let second = detect_drift(&desired, &observed).unwrap();
    assert_eq!(first.status, DriftStatus::Drifted);
    assert_eq!(first.fingerprint, second.fingerprint);
    assert_eq!(first.differences.len(), 2);
}

#[test]
fn drift_compares_each_managed_field_once_in_order() {
    let desired = DesiredState {
        version: 7,
        managed_fields: vec!["ttl".to_owned(), "content".to_owned(), "ttl".to_owned()],
        state: object(vec![("content", Value::from("a")), ("ttl", Value::from(1))]),
    };
    let observed = ObservedState {
        version: 1,
        state: object(vec![("content", Value::from("b"))]),
    };
    let evaluation = detect_drift(&desired, &observed).unwrap();
    assert_eq!(evaluation.differences.len(), 2);
    assert_eq!(evaluation.differences[0].field, "content");
    assert_eq!(evaluation.differences[1].field, "ttl");
    assert_eq!(evaluation.differences[1].actual, Value::Null);
    assert_eq!(evaluation.fingerprint.len(), 64);
    assert!(evaluation.fingerprint.chars().all(|c| c.is_ascii_hexdigit() && !c.is_ascii_uppercase()));
}

#[test]
fn drift_fingerprint_changes_with_the_desired_version() {
    let observed = ObservedState { version: 1, state: object(vec![("a", Value::from(2))]) };
    let first = DesiredState {
        version: 1,
        managed_fields: vec!["a".to_owned()],
        state: object(vec![("a", Value::from(1))]),
    };
    let second = DesiredState { version: 2, ..first.clone_state() };
    let a = detect_drift(&first, &observed).unwrap();
    let b = detect_drift(&second, &observed).unwrap();
    assert_ne!(a.fingerprint, b.fingerprint);
}

trait CloneState {
    fn clone_state(&self) -> DesiredState;
}

impl CloneState for DesiredState {
    fn clone_state(&self) -> DesiredState {
        DesiredState {
            version: self.version,
            managed_fields: self.managed_fields.clone(),
            state: self.state.clone(),
        }
    }
}

#[test]
fn drift_refuses_invalid_input() {
    let observed = ObservedState { version: 1, state: object(vec![]) };
    let not_object = DesiredState {
        version: 1,
        managed_fields: vec!["a".to_owned()],
        state: Value::from("x"),
    };
    assert_eq!(detect_drift(&not_object, &observed).unwrap_err(), ResourceError::StateMustBeObject);
    let nested = DesiredState {
        version: 1,
        managed_fields: vec!["a.b".to_owned()],
        state: object(vec![]),
    };
    assert_eq!(detect_drift(&nested, &observed).unwrap_err(), ResourceError::InvalidManagedField);
    let empty = DesiredState { version: 1, managed_fields: vec![String::new()], state: object(vec![]) };
    assert_eq!(detect_drift(&empty, &observed).unwrap_err(), ResourceError::InvalidManagedField);
}

#[test]
fn lifecycle_is_read_from_the_status() {
    assert_eq!(normalize_lifecycle(&object(vec![("status", Value::from("running"))])), ResourceLifecycle::Active);
    assert_eq!(normalize_lifecycle(&object(vec![("status", Value::from("off"))])), ResourceLifecycle::Stopped);
    assert_eq!(normalize_lifecycle(&object(vec![("status", Value::from("pending"))])), ResourceLifecycle::Provisioning);
    assert_eq!(normalize_lifecycle(&object(vec![("status", Value::from("failed"))])), ResourceLifecycle::Error);
    assert_eq!(normalize_lifecycle(&object(vec![])), ResourceLifecycle::Unknown);
    assert_eq!(ResourceLifecycle::Provisioning.as_str(), "provisioning");
}

#[test]
fn state_hash_is_lowercase_sha256_hex() {
    let hash = hash_json(&object(vec![]));
    assert_eq!(hash, "44136fa355b3678a1146ad16f7e8649e94fb4fc21fe77e8310c060f61caaff8a");
}

#[test]
fn drift_is_recorded_once_and_tasks_follow_the_policy() {
    let mut outcome = SyncOutcome::default();
    let first = respond_to_drift(&mut outcome, DriftStatus::Drifted, false, ReconciliationPolicy::ManualApproval, false);
    assert!(first.record_drift);
    assert_eq!(first.open_task, Some(TaskOpening::Pending));
    let again = respond_to_drift(&mut outcome, DriftStatus::Drifted, true, ReconciliationPolicy::ManualApproval, true);
    assert!(!again.record_drift);
    assert_eq!(again.open_task, None);
    assert!(again.announce);
    let automatic = respond_to_drift(&mut outcome, DriftStatus::Drifted, true, ReconciliationPolicy::Automatic, false);
    assert_eq!(automatic.open_task, Some(TaskOpening::Approved));
    let observe = respond_to_drift(&mut outcome, DriftStatus::Drifted, false, ReconciliationPolicy::ObserveOnly, false);
    assert_eq!(observe.open_task, None);
    let in_sync = respond_to_drift(&mut outcome, DriftStatus::InSync, false, ReconciliationPolicy::Automatic, false);
    assert!(!in_sync.announce);
    assert_eq!(outcome.drifted, 2);
    assert_eq!(outcome.reconciliation_tasks, 2);
    assert_eq!(ReconciliationPolicy::ObserveOnly.as_str(), "observe_only");
}

#[test]
fn recursively_redacts_sensitive_values() {
    let value = object(vec![
        ("api_token", Value::from("plain")),
        (
            "nested",
            object(vec![
                ("applicationSecret", Value::from("plain")),
                ("safe", Value::from("visible")),
            ]),
        ),
        ("items", Value::Array(vec![object(vec![("Authorization", Value::from("Bearer plain"))])])),
    ]);
    let redacted = redact_value(&value);
    assert_eq!(redacted["api_token"], "[REDACTED]");
    assert_eq!(redacted["nested"]["applicationSecret"], "[REDACTED]");
    assert_eq!(redacted["nested"]["safe"], "visible");
    assert_eq!(redacted["items"][0]["Authorization"], "[REDACTED]");
}

#[test]
fn redaction_bounds_depth_items_and_strings() {
    let mut deep = Value::from("bottom");
    for _ in 0..20 {
        deep = object(vec![("next", deep)]);
    }
    let mut cursor = &redact_value(&deep);
    for _ in 0..16 {
        cursor = &cursor["next"];
    }
    assert_eq!(*cursor, "[TRUNCATED]");
    let long = Value::Array((0..1_500).map(Value::from).collect());
    assert_eq!(redact_value(&long).as_array().unwrap().len(), 1_000);
    let text = Value::from("x".repeat(9_000));
    let shortened = redact_value(&text);
    assert!(shortened.as_str().unwrap().ends_with("\u{2026}[TRUNCATED]"));
    assert_eq!(shortened.as_str().unwrap().chars().count(), 8_192 + 12);
    assert_eq!(redact_value(&object(vec![("consumer-key", Value::from(1))]))["consumer-key"], "[REDACTED]");
}

#[test]
fn audit_records_classify_events() {
    assert_eq!(outcome_for("provider.operation.failed"), "failed");
    assert_eq!(outcome_for("access.denied"), "denied");
    assert_eq!(outcome_for("operation.cancelled"), "cancelled");
    assert_eq!(outcome_for("provider.operation.requested"), "attempted");
    assert_eq!(outcome_for("provider.account.disabled"), "succeeded");
    assert_eq!(severity_for("provider.credential.rotated"), "warning");
    assert_eq!(severity_for("provider.account.created"), "info");
    let payload = object(vec![
        ("requested_by", Value::from("0190a2b3-c4d5-7e6f-8a9b-0c1d2e3f4a5b")),
        ("password", Value::from("x")),
        ("before", Value::from(1)),
    ]);
    let record = project(&payload, "provider.account.created");
    assert_eq!(record.actor_type, "user");
    assert_eq!(record.actor_id, Some(0x0190a2b3_c4d5_7e6f_8a9b_0c1d2e3f4a5b));
    assert_eq!(record.metadata["password"], "[REDACTED]");
    assert_eq!(record.changes["before"], 1);
    assert_eq!(record.changes["after"], Value::Null);
    let system = project(&object(vec![("user_id", Value::from("not-a-uuid"))]), "x.created");
    assert_eq!(system.actor_type, "system");
}

#[test]
fn long_errors_are_bounded() {
    let value = "x".repeat(3_000);
    assert_eq!(truncate_error(&value).len(), 2_000);
}

#[test]
fn failed_attempts_are_retried_with_backoff_until_exhausted() {
    let now = Timestamp { unix_nanos: 1_700_000_000 * NANOS_PER_SECOND };
    let transient = ProviderError {
        category: ProviderErrorCategory::Unavailable,
        code: "provider_unavailable".to_owned(),
        retryable: true,
        retry_after_seconds: None,
        safe_message: "provider is temporarily unavailable".to_owned(),
    };
    let plan = plan_failure(3, &transient, now);
    assert!(plan.retry);
    assert_eq!(plan.status, OperationStatus::Queued);
    assert_eq!(plan.retry_at, Some(Timestamp { unix_nanos: now.unix_nanos + 4 * NANOS_PER_SECOND }));
    assert_eq!(plan.event_type, "provider.operation.retry_scheduled");
    assert_eq!(plan.error_category, "unavailable");
    let exhausted = plan_failure(10, &transient, now);
    assert!(!exhausted.retry);
    assert_eq!(exhausted.status, OperationStatus::Failed);
    assert_eq!(exhausted.completed_at, Some(now));
    let limited = ProviderError { retry_after_seconds: Some(30), ..transient };
    assert_eq!(
        plan_failure(1, &limited, now).retry_at,
        Some(Timestamp { unix_nanos: now.unix_nanos + 30 * NANOS_PER_SECOND })
    );
    assert_eq!(next_attempt_number(None), 1);
    assert_eq!(next_attempt_number(Some(2)), 3);
}

#[test]
fn undeliverable_events_are_dead_lettered() {
    let now = Timestamp { unix_nanos: 1_700_000_000 * NANOS_PER_SECOND };
    let retry = plan_publish_failure(0, now);
    assert_eq!(retry.attempt_count, 1);
    assert!(!retry.dead_lettered);
    assert_eq!(retry.next_attempt_at, Some(Timestamp { unix_nanos: now.unix_nanos + NANOS_PER_SECOND }));
    let last = plan_publish_failure(9, now);
    assert!(last.dead_lettered);
    assert_eq!(last.next_attempt_at, None);
}

#[test]
fn drift_ignores_managed_order_repetition_and_unmanaged_desired_fields() {
    let observed = ObservedState {
        version: 1,
        state: object(vec![("ttl", Value::from(60)), ("content", Value::from("b"))]),
    };
    let first = DesiredState {
        version: 4,
        managed_fields: vec!["content".to_owned(), "ttl".to_owned()],
        state: object(vec![("content", Value::from("a")), ("ttl", Value::from(120))]),
    };
    let second = DesiredState {
        version: 4,
        managed_fields: vec!["ttl".to_owned(), "content".to_owned(), "ttl".to_owned()],
        state: object(vec![
            ("content", Value::from("a")),
            ("ttl", Value::from(120)),
            ("comment", Value::from("not managed")),
        ]),
    };
    let a = detect_drift(&first, &observed).unwrap();
    let b = detect_drift(&second, &observed).unwrap();
    assert_eq!(a.status, b.status);
    assert_eq!(a.fingerprint, b.fingerprint);
    assert_eq!(a.differences.len(), b.differences.len());
}
