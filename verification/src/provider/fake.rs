//! A provider that talks to nobody, for development and tests.
use crate::json::{entry_views, json_from_entries, json_from_string};
use crate::provider::{
    Capability, CredentialMaterial, InventoryItem, InventoryPage, InventoryRequest, ProviderError,
    ProviderErrorCategory, ProviderKind, ProviderOperationRequest, ProviderOperationResult,
    ValidationResult,
};
use crate::text::str_equals;
use vstd::prelude::*;

verus! {

#[derive(Clone, Copy, Debug, Default)]
pub struct FakeProviderAdapter;

/// The only secret that the fake provider accepts.
pub open spec fn fake_secret_accepted(secret: Seq<char>) -> bool {
    secret == "valid-fake-token"@
}

/// `e` is the fake provider's refusal of a credential.
pub open spec fn is_fake_rejection(e: ProviderError) -> bool {
    &&& e.category == ProviderErrorCategory::Authentication
    &&& e.code@ == "invalid_credential"@
    &&& !e.retryable
    &&& e.retry_after_seconds is None
    &&& e.safe_message@ == "provider credential was rejected"@
}

/// A one-entry JSON object whose value is a string.
pub open spec fn single_string_object(key: Seq<char>, text: Seq<char>) -> serde_json::Value {
    json_from_entries(seq![(key, json_from_string(text))])
}

fn string_object(key: &str, text: &str) -> (r: serde_json::Value)
    ensures
        r == single_string_object(key@, text@),
{
    let entries = vec![(key.to_owned(), crate::json::from_str(text))];
    proof {
        assert(entry_views(entries@) == seq![(key@, json_from_string(text@))]);
    }
    crate::json::from_entries(entries)
}

impl FakeProviderAdapter {
    pub fn kind(&self) -> (r: ProviderKind)
        ensures
            r@ == "fake"@,
    {
        proof {
            reveal_strlit("fake");
            vstd::utf8::is_ascii_chars_encode_utf8("fake"@);
        }
        match ProviderKind::parse("fake") {
            Ok(kind) => kind,
            Err(_) => vstd::pervasive::unreached(),
        }
    }

    /// Accepts exactly the secret `valid-fake-token`.
    pub fn validate_credential(&self, credential: &CredentialMaterial) -> (r: Result<
        ValidationResult,
        ProviderError,
    >)
        ensures
            r is Ok <==> fake_secret_accepted(credential.secret@),
            r matches Ok(v) ==> {
                &&& v.valid
                &&& v.identity matches Some(i) && i@ == "fake-account"@
                &&& v.scopes@.len() == 1
                &&& v.scopes@[0]@ == "fake:*"@
            },
            r matches Err(e) ==> is_fake_rejection(e),
    {
        if str_equals(credential.secret.as_str(), "valid-fake-token") {
            Ok(
                ValidationResult {
                    valid: true,
                    identity: Some("fake-account".to_owned()),
                    scopes: vec!["fake:*".to_owned()],
                },
            )
        } else {
            Err(
                ProviderError {
                    category: ProviderErrorCategory::Authentication,
                    code: "invalid_credential".to_owned(),
                    retryable: false,
                    retry_after_seconds: None,
                    safe_message: "provider credential was rejected".to_owned(),
                },
            )
        }
    }

    /// Every capability, for an accepted credential.
    pub fn discover_capabilities(&self, credential: &CredentialMaterial) -> (r: Result<
        Vec<Capability>,
        ProviderError,
    >)
        ensures
            r is Ok <==> fake_secret_accepted(credential.secret@),
            r matches Ok(caps) ==> caps@ == seq![
                Capability::Compute,
                Capability::Dns,
                Capability::Firewall,
                Capability::Certificate,
            ],
            r matches Err(e) ==> is_fake_rejection(e),
    {
        self.validate_credential(credential)?;
        Ok(vec![Capability::Compute, Capability::Dns, Capability::Firewall, Capability::Certificate])
    }

    /// One active resource of the requested type, for an accepted credential.
    pub fn inventory(&self, credential: &CredentialMaterial, request: &InventoryRequest) -> (r: Result<
        InventoryPage,
        ProviderError,
    >)
        ensures
            r is Ok <==> fake_secret_accepted(credential.secret@),
            r matches Ok(page) ==> {
                &&& page.next_cursor is None
                &&& page.items@.len() == 1
                &&& page.items@[0].external_type@ == request.resource_type@
                &&& page.items@[0].external_id@ == "fake-resource-1"@
                &&& page.items@[0].name@ == "Fake Resource"@
                &&& page.items@[0].state == single_string_object("status"@, "active"@)
                &&& page.items@[0].metadata == single_string_object("provider"@, "fake"@)
            },
            r matches Err(e) ==> is_fake_rejection(e),
    {
        self.validate_credential(credential)?;
        let item = InventoryItem {
            external_type: request.resource_type.clone(),
            external_id: "fake-resource-1".to_owned(),
            name: "Fake Resource".to_owned(),
            state: string_object("status", "active"),
            metadata: string_object("provider", "fake"),
        };
        Ok(InventoryPage { items: vec![item], next_cursor: None })
    }

    /// Reports the action as succeeded, on the given resource or a newly created one.
    pub fn execute(&self, credential: &CredentialMaterial, request: &ProviderOperationRequest) -> (r:
        Result<ProviderOperationResult, ProviderError>)
        ensures
            r is Ok <==> fake_secret_accepted(credential.secret@),
            r matches Ok(result) ==> {
                &&& result.external_id matches Some(id) && id@ == (match request.external_id {
                    Some(given) => given@,
                    None => "fake-resource-created"@,
                })
                &&& result.state == json_from_entries(
                    seq![
                        ("action"@, json_from_string(request.action@)),
                        ("status"@, json_from_string("succeeded"@)),
                    ],
                )
            },
            r matches Err(e) ==> is_fake_rejection(e),
    {
        self.validate_credential(credential)?;
        let external_id = match &request.external_id {
            Some(id) => id.clone(),
            None => "fake-resource-created".to_owned(),
        };
        let entries = vec![
            ("action".to_owned(), crate::json::from_str(request.action.as_str())),
            ("status".to_owned(), crate::json::from_str("succeeded")),
        ];
        proof {
            assert(entry_views(entries@) == seq![
                ("action"@, json_from_string(request.action@)),
                ("status"@, json_from_string("succeeded"@)),
            ]);
        }
        Ok(
            ProviderOperationResult {
                external_id: Some(external_id),
                state: crate::json::from_entries(entries),
            },
        )
    }
}

} // verus!
