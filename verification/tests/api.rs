use multicloud::api::audit::csv_field;
use multicloud::api::authorization::valid_role_key;
use multicloud::api::error::ApiError;
use multicloud::api::invitations::decide_acceptance;
use multicloud::api::operations::check_cancellable;
use multicloud::api::organizations::valid_slug;
use multicloud::api::platform::validate_log_level;
use multicloud::api::providers::{next_credential_version, validate_name_and_token};
use multicloud::api::resources::{check_reconciliation_approval, next_desired_version};
use multicloud::api::tenant::request_token;

#[test]
fn csv_fields_escape_formula_and_quotes_as_data() {
    assert_eq!(csv_field("a\"b"), "\"a\"\"b\"");
    assert_eq!(csv_field("=1+1"), "\"'=1+1\"");
}

#[test]
fn custom_role_key_rejects_invalid_values() {
    assert!(valid_role_key("support-agent"));
    assert!(!valid_role_key("Owner"));
    assert!(!valid_role_key("-support"));
}

#[test]
fn slug_validation_is_strict() {
    assert!(valid_slug("cloud-team-1"));
    assert!(!valid_slug("Cloud Team"));
    assert!(!valid_slug("-cloud"));
}

#[test]
fn log_level_is_restricted_to_supported_values() {
    for level in ["error", "warn", "info", "debug", "trace"] {
        assert!(validate_log_level(level).is_ok());
    }
    assert!(validate_log_level("multicloud=trace").is_err());
    assert!(validate_log_level("off").is_err());
}

#[test]
fn error_responses_carry_status_code_and_message() {
    assert_eq!(
        ApiError::BadRequest("invalid email").response_parts(),
        (400, "bad_request", "invalid email")
    );
    assert_eq!(
        ApiError::Internal.response_parts(),
        (500, "internal_error", "an internal error occurred")
    );
}

#[test]
fn provider_account_names_and_tokens_are_bounded() {
    assert!(validate_name_and_token("Production", "token").is_ok());
    assert!(matches!(
        validate_name_and_token("   ", "token"),
        Err(ApiError::BadRequest("provider account name is invalid"))
    ));
    assert!(matches!(
        validate_name_and_token(&"n".repeat(161), "token"),
        Err(ApiError::BadRequest("provider account name is invalid"))
    ));
    assert!(matches!(
        validate_name_and_token("Production", &"t".repeat(8_193)),
        Err(ApiError::BadRequest("provider API token is invalid"))
    ));
}

#[test]
fn credential_versions_advance_and_refuse_overflow() {
    assert!(matches!(next_credential_version(1), Ok(2)));
    assert!(matches!(next_credential_version(i32::MAX), Err(ApiError::Internal)));
}

#[test]
fn desired_versions_saturate() {
    assert_eq!(next_desired_version(None), 1);
    assert_eq!(next_desired_version(Some(4)), 5);
    assert_eq!(next_desired_version(Some(i64::MAX)), i64::MAX);
}

#[test]
fn only_pending_manual_reconciliations_are_approved() {
    assert!(check_reconciliation_approval("manual_approval", "pending").is_ok());
    assert!(matches!(
        check_reconciliation_approval("automatic", "pending"),
        Err(ApiError::Conflict("reconciliation task cannot be approved"))
    ));
    assert!(check_reconciliation_approval("manual_approval", "approved").is_err());
}

#[test]
fn only_queued_operations_are_cancelled() {
    assert!(check_cancellable("queued").is_ok());
    assert!(matches!(
        check_cancellable("running"),
        Err(ApiError::Conflict("only queued operations can be cancelled"))
    ));
}

#[test]
fn invitations_are_accepted_by_the_invited_email_only() {
    assert!(matches!(
        decide_acceptance(Some("User@Example.com"), Some("user@example.com"), false),
        Ok(true)
    ));
    assert!(matches!(
        decide_acceptance(Some("user@example.com"), Some("user@example.com"), true),
        Ok(false)
    ));
    assert!(matches!(
        decide_acceptance(Some("user@example.com"), Some("other@example.com"), false),
        Err(ApiError::Forbidden)
    ));
    assert!(matches!(
        decide_acceptance(None, Some("user@example.com"), false),
        Err(ApiError::BadRequest("invitation is invalid or expired"))
    ));
    assert!(matches!(
        decide_acceptance(Some("user@example.com"), None, false),
        Err(ApiError::Unauthorized)
    ));
}

#[test]
fn bearer_tokens_are_read_from_the_authorization_header() {
    assert!(matches!(request_token(Some("Bearer abc")), Ok("abc")));
    assert!(matches!(request_token(Some("Bearer ")), Err(ApiError::Unauthorized)));
    assert!(matches!(request_token(Some("Basic abc")), Err(ApiError::Unauthorized)));
    assert!(matches!(request_token(None), Err(ApiError::Unauthorized)));
}
