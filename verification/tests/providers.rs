use base64::Engine;
use multicloud::provider::cloudflare;
use multicloud::provider::crypto::{CryptoError, EnvelopeCipher};
use multicloud::provider::fake::FakeProviderAdapter;
use multicloud::provider::http::{normalize_http_error, HttpMethod};
use multicloud::provider::ovh;
use multicloud::provider::vultr;
use multicloud::provider::{
    Capability, CredentialMaterial, CredentialType, InventoryRequest, ProviderErrorCategory,
    ProviderKind, ProviderOperationRequest,
};
use serde_json::Value;

fn object(entries: Vec<(&str, Value)>) -> Value {
    let mut map = serde_json::Map::new();
    for (key, value) in entries {
        map.insert(key.to_owned(), value);
    }
    Value::Object(map)
}

fn token(secret: &str) -> CredentialMaterial {
    CredentialMaterial {
        credential_type: CredentialType::ApiToken,
        identity: None,
        secret: secret.to_owned(),
        consumer_key: None,
    }
}

#[test]
fn provider_kind_is_stable_and_extensible() {
    assert!(ProviderKind::parse("cloudflare").is_ok());
    assert!(ProviderKind::parse("future-provider").is_ok());
    assert!(ProviderKind::parse("Cloudflare").is_err());
}

#[test]
fn credential_round_trip_and_random_nonce() {
    let key = base64::engine::general_purpose::STANDARD.encode([7_u8; 32]);
    let cipher = EnvelopeCipher::from_base64(&key, 3).expect("valid key");
    let first = cipher.encrypt("secret-token").expect("encrypted");
    let second = cipher.encrypt("secret-token").expect("encrypted");
    assert_ne!(first.nonce, second.nonce);
    assert_ne!(first.ciphertext, second.ciphertext);
    assert_eq!(cipher.decrypt(&first).expect("decrypted"), "secret-token");
}

#[test]
fn wrong_key_cannot_decrypt() {
    let engine = base64::engine::general_purpose::STANDARD;
    let cipher = EnvelopeCipher::from_base64(&engine.encode([7_u8; 32]), 1).unwrap();
    let other = EnvelopeCipher::from_base64(&engine.encode([8_u8; 32]), 1).unwrap();
    let encrypted = cipher.encrypt("secret-token").unwrap();
    assert!(other.decrypt(&encrypted).is_err());
}

#[test]
fn master_key_must_decode_to_thirty_two_bytes() {
    let engine = base64::engine::general_purpose::STANDARD;
    assert!(matches!(
        EnvelopeCipher::from_base64(&engine.encode([7_u8; 16]), 1),
        Err(CryptoError::InvalidKey)
    ));
    assert!(matches!(EnvelopeCipher::from_base64("not base64!", 1), Err(CryptoError::InvalidKey)));
}

#[test]
fn another_key_version_cannot_decrypt() {
    let key = base64::engine::general_purpose::STANDARD.encode([7_u8; 32]);
    let cipher = EnvelopeCipher::from_base64(&key, 1).unwrap();
    let rotated = EnvelopeCipher::from_base64(&key, 2).unwrap();
    let encrypted = cipher.encrypt("secret-token").unwrap();
    assert!(matches!(rotated.decrypt(&encrypted), Err(CryptoError::Decryption)));
}

#[test]
fn fake_adapter_covers_credential_inventory_and_operation() {
    let adapter = FakeProviderAdapter;
    assert_eq!(adapter.kind().as_str(), "fake");
    let credential = token("valid-fake-token");
    assert!(adapter.validate_credential(&credential).unwrap().valid);
    assert!(adapter.discover_capabilities(&credential).is_ok());
    let page = adapter
        .inventory(
            &credential,
            &InventoryRequest {
                resource_type: "compute".to_owned(),
                parent_external_id: None,
                cursor: None,
            },
        )
        .unwrap();
    assert_eq!(page.items.len(), 1);
    let result = adapter
        .execute(
            &credential,
            &ProviderOperationRequest {
                action: "create".to_owned(),
                resource_type: "compute".to_owned(),
                external_id: None,
                parameters: object(vec![]),
                idempotency_key: "fake-create-1".to_owned(),
            },
        )
        .unwrap();
    assert_eq!(result.external_id.as_deref(), Some("fake-resource-created"));
}

#[test]
fn fake_adapter_rejects_other_tokens() {
    let adapter = FakeProviderAdapter;
    let error = adapter.validate_credential(&token("other")).unwrap_err();
    assert_eq!(error.category, ProviderErrorCategory::Authentication);
}

#[test]
fn http_failures_are_normalized() {
    let limited = normalize_http_error(429, Some("120"));
    assert_eq!(limited.category, ProviderErrorCategory::RateLimited);
    assert_eq!(limited.code, "rate_limited");
    assert!(limited.retryable);
    assert_eq!(limited.retry_after_seconds, Some(120));
    let denied = normalize_http_error(403, None);
    assert_eq!(denied.code, "permission_denied");
    assert!(!denied.retryable);
    let down = normalize_http_error(503, Some("soon"));
    assert_eq!(down.code, "provider_unavailable");
    assert_eq!(down.retry_after_seconds, None);
    let rejected = normalize_http_error(422, None);
    assert_eq!(rejected.code, "provider_request_rejected");
}

#[test]
fn cloudflare_plans_dns_record_operations() {
    let parameters = object(vec![
        ("zone_id", Value::from("zone123")),
        ("type", Value::from("A")),
        ("name", Value::from("www.example.com")),
        ("content", Value::from("1.1.1.1")),
        ("ttl", Value::from(120)),
    ]);
    let create = cloudflare::execute_plan(&ProviderOperationRequest {
        action: "create".to_owned(),
        resource_type: "dns_record".to_owned(),
        external_id: None,
        parameters: parameters.clone(),
        idempotency_key: "dns-create-1".to_owned(),
    })
    .unwrap();
    assert_eq!(create.method, HttpMethod::Post);
    assert_eq!(create.path, "/zones/zone123/dns_records");
    let delete = cloudflare::execute_plan(&ProviderOperationRequest {
        action: "delete".to_owned(),
        resource_type: "dns_record".to_owned(),
        external_id: Some("record123".to_owned()),
        parameters: parameters.clone(),
        idempotency_key: "dns-delete-1".to_owned(),
    })
    .unwrap();
    assert_eq!(delete.method, HttpMethod::Delete);
    assert_eq!(delete.path, "/zones/zone123/dns_records/record123");
    let bad = cloudflare::execute_plan(&ProviderOperationRequest {
        action: "create".to_owned(),
        resource_type: "dns_record".to_owned(),
        external_id: None,
        parameters: object(vec![("zone_id", Value::from("zone/../x"))]),
        idempotency_key: "dns-create-2".to_owned(),
    })
    .unwrap_err();
    assert_eq!(bad.code, "invalid_external_id");
}

#[test]
fn cloudflare_inventory_pages_and_filters_records() {
    let request = InventoryRequest {
        resource_type: "dns_record".to_owned(),
        parent_external_id: Some("zone123".to_owned()),
        cursor: Some("2".to_owned()),
    };
    let (path, kind) = cloudflare::inventory_plan(&request).unwrap();
    assert_eq!(path, "/zones/zone123/dns_records?per_page=100&page=2");
    assert_eq!(kind, "dns_record");
    let records = vec![
        object(vec![
            ("id", Value::from("record123")),
            ("name", Value::from("www.example.com")),
            ("type", Value::from("A")),
        ]),
        object(vec![
            ("id", Value::from("record124")),
            ("name", Value::from("example.com")),
            ("type", Value::from("NS")),
        ]),
    ];
    let items = cloudflare::inventory_items("dns_record", records).unwrap();
    assert_eq!(items.len(), 1);
    assert_eq!(items[0].external_id, "record123");
    assert_eq!(cloudflare::next_page_cursor(Some(1), Some(3)).as_deref(), Some("2"));
    assert_eq!(cloudflare::next_page_cursor(Some(3), Some(3)), None);
    let bad = InventoryRequest {
        resource_type: "dns_zone".to_owned(),
        parent_external_id: None,
        cursor: Some("2&x=1".to_owned()),
    };
    assert_eq!(cloudflare::inventory_plan(&bad).unwrap_err().code, "invalid_inventory_cursor");
}

#[test]
fn vultr_reads_cursor_from_next_link() {
    assert_eq!(
        vultr::extract_cursor("https://api.vultr.com/v2/instances?per_page=100&cursor=bmV4dA==")
            .as_deref(),
        Some("bmV4dA==")
    );
    assert_eq!(vultr::extract_cursor("cursor=abc&x=1").as_deref(), Some("abc"));
    assert_eq!(vultr::extract_cursor("https://x/?cursor=bad!value"), None);
    assert_eq!(vultr::extract_cursor(""), None);
}

#[test]
fn vultr_normalizes_instances() {
    let instance = object(vec![
        ("id", Value::from("instance-1")),
        ("label", Value::from("web")),
        ("power_status", Value::from("stopped")),
        ("status", Value::from("active")),
        ("region", Value::from("ewr")),
    ]);
    let item = vultr::normalize_instance(instance).unwrap();
    assert_eq!(item.external_id, "instance-1");
    assert_eq!(item.name, "web");
    assert_eq!(item.state["status"], "running");
    assert_eq!(item.state["region"], "ewr");
    assert_eq!(item.state["plan"], Value::Null);
    let unnamed = vultr::normalize_instance(object(vec![
        ("id", Value::from("instance-2")),
        ("status", Value::from("pending")),
    ]))
    .unwrap();
    assert_eq!(unnamed.name, "instance-2");
    assert_eq!(unnamed.state["status"], "provisioning");
    let missing = vultr::normalize_instance(object(vec![])).unwrap_err();
    assert_eq!(missing.code, "invalid_provider_response");
}

#[test]
fn vultr_plans_the_instance_lifecycle() {
    let request = |action: &str, id: Option<&str>, parameters: Value| ProviderOperationRequest {
        action: action.to_owned(),
        resource_type: "compute_instance".to_owned(),
        external_id: id.map(str::to_owned),
        parameters,
        idempotency_key: format!("{action}-1"),
    };
    let create = vultr::execute_plan(&request(
        "create",
        None,
        object(vec![
            ("region", Value::from("ewr")),
            ("plan", Value::from("vc2-1c-2gb")),
            ("os_id", Value::from(1743)),
        ]),
    ))
    .unwrap();
    assert!(matches!(create, vultr::InstanceCalls::Create(ref call) if call.path == "/instances"));
    match vultr::execute_plan(&request("stop", Some("instance-1"), object(vec![]))).unwrap() {
        vultr::InstanceCalls::Power(power, read) => {
            assert_eq!(power.path, "/instances/instance-1/halt");
            assert_eq!(read.path, "/instances/instance-1");
        }
        other => panic!("unexpected plan {other:?}"),
    }
    assert_eq!(
        vultr::execute_plan(&request("create", None, object(vec![("region", Value::from("ewr"))])))
            .unwrap_err()
            .code,
        "invalid_compute_instance_parameters"
    );
    assert_eq!(
        vultr::execute_plan(&request("resize", Some("instance-1"), object(vec![])))
            .unwrap_err()
            .code,
        "unsupported_compute_action"
    );
    assert_eq!(
        vultr::execute_plan(&request("get", None, object(vec![]))).unwrap_err().code,
        "instance_id_required"
    );
    let deleted = vultr::deleted_result("instance-1".to_owned());
    assert_eq!(deleted.state["status"], "deleted");
}

#[test]
fn ovh_signs_requests() {
    let credential = CredentialMaterial {
        credential_type: CredentialType::OvhApplication,
        identity: Some("application-key".to_owned()),
        secret: "application-secret".to_owned(),
        consumer_key: Some("consumer-key".to_owned()),
    };
    let signed = ovh::sign_request(
        &credential,
        "https://eu.api.ovh.com/1.0",
        HttpMethod::Get,
        "/me",
        None,
        1_700_000_000,
    )
    .unwrap();
    assert_eq!(signed.target, "https://eu.api.ovh.com/1.0/me");
    assert_eq!(signed.timestamp, "1700000000");
    assert_eq!(signed.body, None);
    assert!(signed.signature.starts_with("$1$"));
    assert_eq!(signed.signature.len(), 3 + 40);
    let missing = CredentialMaterial { consumer_key: None, ..credential };
    assert_eq!(
        ovh::sign_request(&missing, "https://x", HttpMethod::Get, "/me", None, 1)
            .unwrap_err()
            .code,
        "ovh_consumer_key_required"
    );
}

#[test]
fn ovh_normalizes_vps() {
    let vps = object(vec![
        ("name", Value::from("vps-test.vps.ovh.net")),
        ("displayName", Value::from("production-vps")),
        ("state", Value::from("running")),
        ("zone", Value::from("eu-west-par")),
        ("vcore", Value::from(2)),
        ("model", object(vec![("name", Value::from("VPS-2")), ("disk", Value::from(80))])),
    ]);
    let item = ovh::normalize_vps("vps-test.vps.ovh.net", vps);
    assert_eq!(item.name, "production-vps");
    assert_eq!(item.state["status"], "running");
    assert_eq!(item.state["region"], "eu-west-par");
    assert_eq!(item.state["disk"], 80);
    let names = ovh::service_names(&Value::Array(vec![Value::from("vps-test.vps.ovh.net")]))
        .unwrap();
    assert_eq!(names, vec!["vps-test.vps.ovh.net".to_owned()]);
    assert!(ovh::service_names(&Value::from("x")).is_err());
    assert_eq!(ovh::discovered_capabilities(), vec![Capability::Compute]);
}
