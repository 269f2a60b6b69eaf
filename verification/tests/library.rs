use multicloud::admin::{
    catalog_lookup, check_password_length, choose_organization, nonempty, normalized_email,
    organization_slug, AdminError, OrganizationChoice,
};
use multicloud::api::auth::{check_password, hash_password, new_secret_token, token_hash};
use multicloud::api::error::ApiError;
use multicloud::api::providers::{capabilities_value, connection_outcome};
use multicloud::cli::{migrate_argument_ok, parse_command, Command};
use multicloud::configuration::{
    default_cloudflare_base_url, default_key_version, default_vultr_base_url, ProviderSettings,
};
use multicloud::digest::to_lower_hex;
use multicloud::provider::http::HttpMethod;
use multicloud::provider::ovh::{i64_to_decimal, sign_request, vps_result};
use multicloud::provider::{Capability, CredentialMaterial, CredentialType, ProviderError, ProviderErrorCategory};
use multicloud::reliable_events::{creation_step, event_version_column, uuid_text, with_requested_by, CreationStep};
use multicloud::resource::sync::SyncOutcome;
use multicloud::web::Assets;
use multicloud::worker::{inventory_request_for, inventory_summary, is_inventory_sync};
use serde_json::Value;

fn object(entries: Vec<(&str, Value)>) -> Value {
    let mut map = serde_json::Map::new();
    for (key, value) in entries {
        map.insert(key.to_owned(), value);
    }
    Value::Object(map)
}

#[test]
fn commands_select_the_program_mode() {
    assert_eq!(parse_command(None), Some(Command::Serve));
    assert_eq!(parse_command(Some("serve")), Some(Command::Serve));
    assert_eq!(parse_command(Some("-h")), Some(Command::Help));
    assert_eq!(parse_command(Some("--version")), Some(Command::Version));
    assert_eq!(parse_command(Some("recover-access")), Some(Command::RecoverAccess));
    assert_eq!(parse_command(Some("deploy")), None);
    assert!(migrate_argument_ok(None));
    assert!(migrate_argument_ok(Some("up")));
    assert!(!migrate_argument_ok(Some("down")));
}

#[test]
fn provider_settings_have_defaults() {
    assert_eq!(default_key_version(), 1);
    assert_eq!(default_cloudflare_base_url(), "https://api.cloudflare.com/client/v4");
    assert_eq!(default_vultr_base_url(), "https://api.vultr.com/v2");
    let absent = ProviderSettings::default();
    assert_eq!(absent.credential_key_version, 0);
    assert!(absent.cloudflare_base_url.is_empty());
}

#[test]
fn assets_fall_back_to_the_index_page() {
    assert_eq!(Assets::requested_path("/"), "index.html");
    assert_eq!(Assets::requested_path("//assets/app.js"), "assets/app.js");
    assert_eq!(Assets::served_path("assets/app.js", true, true), Some("assets/app.js"));
    assert_eq!(Assets::served_path("settings", false, true), Some("index.html"));
    assert_eq!(Assets::served_path("settings", false, false), None);
    assert_eq!(Assets::cache_control("index.html"), "no-cache");
    assert_eq!(Assets::cache_control("assets/app.js"), "public, max-age=31536000, immutable");
}

#[test]
fn administration_inputs_are_checked() {
    assert_eq!(normalized_email(" Admin@Example.com ").unwrap(), "admin@example.com");
    assert_eq!(normalized_email("nope"), Err(AdminError::InvalidEmail));
    assert_eq!(nonempty("  Ops  ", 120).unwrap(), "Ops");
    assert_eq!(nonempty("   ", 120), Err(AdminError::FieldLength(120)));
    assert_eq!(organization_slug(" Cloud-Team ").unwrap(), "cloud-team");
    assert_eq!(organization_slug("-x-"), Err(AdminError::InvalidSlug));
    assert!(check_password_length("short").is_err());
    assert!(check_password_length("twelve chars").is_ok());
    assert_eq!(choose_organization(Some(9), &vec![]), Ok(OrganizationChoice::Chosen(9)));
    assert_eq!(choose_organization(None, &vec![]), Err(AdminError::NoMembership));
    assert_eq!(choose_organization(None, &vec![4]), Ok(OrganizationChoice::Chosen(4)));
    assert_eq!(choose_organization(None, &vec![4, 5]), Ok(OrganizationChoice::Ask));
    let catalog = vec![("a.b.c".to_owned(), 1), ("d.e.f".to_owned(), 2), ("a.b.c".to_owned(), 3)];
    assert_eq!(catalog_lookup(&catalog, "a.b.c"), Some(3));
    assert_eq!(catalog_lookup(&catalog, "x.y.z"), None);
}

#[test]
fn passwords_are_hashed_and_verified() {
    let stored = hash_password("correct horse battery").unwrap();
    assert!(stored.starts_with("$argon2id$"));
    assert!(check_password("correct horse battery", &stored).is_ok());
    assert!(matches!(check_password("wrong password!!", &stored), Err(ApiError::Unauthorized)));
    assert!(matches!(check_password("x", "not a hash"), Err(ApiError::Internal)));
}

#[test]
fn secret_tokens_are_random_and_hashed() {
    let first = new_secret_token();
    let second = new_secret_token();
    assert_eq!(first.len(), 43);
    assert_ne!(first, second);
    assert_eq!(
        to_lower_hex(&token_hash("abc")),
        "ba7816bf8f01cfea414140de5dae2223b00361a396177a9cb410ff61f20015ad"
    );
}

#[test]
fn ovh_signature_is_exact() {
    let credential = CredentialMaterial {
        credential_type: CredentialType::OvhApplication,
        identity: Some("application-key".to_owned()),
        secret: "application-secret".to_owned(),
        consumer_key: Some("consumer-key".to_owned()),
    };
    let signed = sign_request(&credential, "https://eu.api.ovh.com/1.0", HttpMethod::Get, "/me", None, 1_700_000_000).unwrap();
    assert_eq!(signed.signature, "$1$42d44f01eeb93392dd4585274c1e40cde568f319");
    let body = object(vec![("a", Value::from(1))]);
    let posted = sign_request(&credential, "https://x", HttpMethod::Post, "/vps/a/start", Some(&body), -5).unwrap();
    assert_eq!(posted.body.as_deref(), Some("{\"a\":1}"));
    assert_eq!(posted.timestamp, "-5");
    assert_eq!(posted.signature, "$1$b6aeea20383e37896b272e929a118e3fa449caa8");
    assert_eq!(i64_to_decimal(i64::MIN), "-9223372036854775808");
}

#[test]
fn ovh_power_results_carry_the_task() {
    let resource = object(vec![("state", Value::from("rebooting"))]);
    let task = object(vec![("id", Value::from(3))]);
    let result = vps_result("vps-1", resource, Some(task));
    assert_eq!(result.external_id.as_deref(), Some("vps-1"));
    assert_eq!(result.state["status"], "provisioning");
    assert_eq!(result.state["name"], "vps-1");
    assert_eq!(result.state["provider_task"]["id"], 3);
}

#[test]
fn connection_tests_record_capabilities_or_the_error() {
    let ok = connection_outcome(Ok(vec![Capability::Dns, Capability::Compute]));
    assert!(ok.valid);
    assert_eq!(ok.capabilities, Value::Array(vec![Value::from("dns"), Value::from("compute")]));
    assert_eq!(ok.account_status(), "active");
    let failed = connection_outcome(Err(ProviderError {
        category: ProviderErrorCategory::Authentication,
        code: "authentication_failed".to_owned(),
        retryable: false,
        retry_after_seconds: None,
        safe_message: "provider request failed".to_owned(),
    }));
    assert!(!failed.valid);
    assert_eq!(failed.error_code.as_deref(), Some("authentication_failed"));
    assert_eq!(failed.operation_status(), "failed");
    assert_eq!(capabilities_value(&vec![]), Value::Array(vec![]));
}

#[test]
fn operations_record_who_asked_and_stay_idempotent() {
    let id = 0x0190a2b3_c4d5_7e6f_8a9b_0c1d2e3f4a5b_u128;
    assert_eq!(uuid_text(id), "0190a2b3-c4d5-7e6f-8a9b-0c1d2e3f4a5b");
    let payload = with_requested_by(object(vec![("action", Value::from("create"))]), id);
    assert_eq!(payload["requested_by"], "0190a2b3-c4d5-7e6f-8a9b-0c1d2e3f4a5b");
    assert_eq!(payload["action"], "create");
    assert_eq!(with_requested_by(Value::from(1), id), Value::from(1));
    assert_eq!(event_version_column(1), 1);
    assert_eq!(event_version_column(40_000), i16::MAX);
    assert_eq!(creation_step(true), CreationStep::ReturnExisting);
    assert_eq!(creation_step(false), CreationStep::InsertWithEvent);
}

#[test]
fn worker_reads_inventory_requests_and_summarizes_pages() {
    assert!(is_inventory_sync("inventory.sync"));
    assert!(!is_inventory_sync("create"));
    let request = inventory_request_for(
        "dns_record",
        &object(vec![("parent_external_id", Value::from("zone123")), ("cursor", Value::from(2))]),
    );
    assert_eq!(request.parent_external_id.as_deref(), Some("zone123"));
    assert_eq!(request.cursor, None);
    let outcome = SyncOutcome { created: 1, updated: 2, drifted: 0, reconciliation_tasks: 0 };
    let summary = inventory_summary(&outcome, &Some("3".to_owned()));
    assert_eq!(summary["created"], 1);
    assert_eq!(summary["updated"], 2);
    assert_eq!(summary["next_cursor"], "3");
    assert_eq!(inventory_summary(&outcome, &None)["next_cursor"], Value::Null);
}

#[test]
fn secret_tokens_use_the_url_safe_alphabet() {
    let token = new_secret_token();
    assert!(token
        .chars()
        .all(|c| c.is_ascii_alphanumeric() || c == '-' || c == '_'));
    assert!(hash_password("correct horse battery staple").is_ok());
}
