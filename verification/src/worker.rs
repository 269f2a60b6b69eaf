//! What the worker decides around a provider call: which request to make of a claimed
//! operation, what of the result to synchronize, and what to record on completion.
use crate::json::{
    entry_views, get_str, json_from_entries, json_from_string, json_from_u64, json_null,
    string_member,
};
use crate::provider::{InventoryItem, InventoryRequest, ProviderOperationResult};
use crate::resource::sync::SyncOutcome;
use crate::text::str_equals;
use vstd::prelude::*;

verus! {

/// The action that asks for a page of inventory rather than a lifecycle change.
pub fn is_inventory_sync(action: &str) -> (r: bool)
    ensures
        r == (action@ == "inventory.sync"@),
{
    str_equals(action, "inventory.sync")
}

/// The inventory request of a claimed operation: its resource type, and the parent and cursor
/// that its parameters give as strings.
pub fn inventory_request_for(resource_type: &str, parameters: &serde_json::Value) -> (r:
    InventoryRequest)
    ensures
        r.resource_type@ == resource_type@,
        match string_member(*parameters, "parent_external_id"@) {
            Some(p) => r.parent_external_id matches Some(s) && s@ == p,
            None => r.parent_external_id is None,
        },
        match string_member(*parameters, "cursor"@) {
            Some(c) => r.cursor matches Some(s) && s@ == c,
            None => r.cursor is None,
        },
{
    InventoryRequest {
        resource_type: resource_type.to_owned(),
        parent_external_id: get_str(parameters, "parent_external_id"),
        cursor: get_str(parameters, "cursor"),
    }
}

/// The resource that a lifecycle result describes, to synchronize at once: every action but a
/// deletion whose result names the resource and gives it a name.
pub fn synced_item(action: &str, resource_type: &str, result: &ProviderOperationResult) -> (r:
    Option<InventoryItem>)
    ensures
        (action@ != "delete"@ && result.external_id is Some && string_member(
            result.state,
            "name"@,
        ) is Some) ==> (r matches Some(item) && item.external_type@ == resource_type@
            && item.external_id == result.external_id->0 && Some(item.name@) == string_member(
            result.state,
            "name"@,
        ) && item.state == result.state && item.metadata == result.state),
        !(action@ != "delete"@ && result.external_id is Some && string_member(
            result.state,
            "name"@,
        ) is Some) ==> r is None,
{
    if str_equals(action, "delete") {
        return None;
    }
    let external_id = match &result.external_id {
        Some(id) => id.clone(),
        None => {
            return None;
        },
    };
    let name = match get_str(&result.state, "name") {
        Some(n) => n,
        None => {
            return None;
        },
    };
    Some(
        InventoryItem {
            external_type: resource_type.to_owned(),
            external_id,
            name,
            state: crate::json::duplicate(&result.state),
            metadata: crate::json::duplicate(&result.state),
        },
    )
}

/// An optional text as JSON: the string, or `null`.
pub open spec fn optional_text(text: Option<Seq<char>>) -> serde_json::Value {
    match text {
        Some(t) => json_from_string(t),
        None => json_null(),
    }
}

fn optional_text_value(text: &Option<String>) -> (r: serde_json::Value)
    ensures
        r == optional_text(
            match text {
                Some(s) => Some(s@),
                None => None,
            },
        ),
{
    match text {
        Some(s) => crate::json::from_str(s.as_str()),
        None => {
            let n = crate::json::null();
            proof {
                crate::json::lemma_null_is_json_null(n);
            }
            n
        },
    }
}

/// What a completed lifecycle operation records: the resource's identifier and state.
pub fn operation_summary(result: &ProviderOperationResult) -> (r: serde_json::Value)
    ensures
        r == json_from_entries(
            seq![
                ("external_id"@, optional_text(
                    match result.external_id {
                        Some(s) => Some(s@),
                        None => None,
                    },
                )),
                ("state"@, result.state),
            ],
        ),
{
    let entries = vec![
        ("external_id".to_owned(), optional_text_value(&result.external_id)),
        ("state".to_owned(), crate::json::duplicate(&result.state)),
    ];
    proof {
        assert(entry_views(entries@) =~= seq![
            ("external_id"@, optional_text(
                match result.external_id {
                    Some(s) => Some(s@),
                    None => None,
                },
            )),
            ("state"@, result.state),
        ]);
    }
    crate::json::from_entries(entries)
}

/// What a completed inventory page records: the counts of the synchronization and the cursor
/// of the next page.
pub fn inventory_summary(outcome: &SyncOutcome, next_cursor: &Option<String>) -> (r:
    serde_json::Value)
    ensures
        r == json_from_entries(
            seq![
                ("created"@, json_from_u64(outcome.created as u64)),
                ("updated"@, json_from_u64(outcome.updated as u64)),
                ("drifted"@, json_from_u64(outcome.drifted as u64)),
                ("reconciliation_tasks"@, json_from_u64(outcome.reconciliation_tasks as u64)),
                ("next_cursor"@, optional_text(
                    match next_cursor {
                        Some(s) => Some(s@),
                        None => None,
                    },
                )),
            ],
        ),
{
    let entries = vec![
        ("created".to_owned(), crate::json::from_u64(outcome.created as u64)),
        ("updated".to_owned(), crate::json::from_u64(outcome.updated as u64)),
        ("drifted".to_owned(), crate::json::from_u64(outcome.drifted as u64)),
        (
            "reconciliation_tasks".to_owned(),
            crate::json::from_u64(outcome.reconciliation_tasks as u64),
        ),
        ("next_cursor".to_owned(), optional_text_value(next_cursor)),
    ];
    proof {
        assert(entry_views(entries@) =~= seq![
            ("created"@, json_from_u64(outcome.created as u64)),
            ("updated"@, json_from_u64(outcome.updated as u64)),
            ("drifted"@, json_from_u64(outcome.drifted as u64)),
            ("reconciliation_tasks"@, json_from_u64(outcome.reconciliation_tasks as u64)),
            ("next_cursor"@, optional_text(
                match next_cursor {
                    Some(s) => Some(s@),
                    None => None,
                },
            )),
        ]);
    }
    crate::json::from_entries(entries)
}

/// The fake adapter serves only development environments.
pub fn registers_fake_adapter(environment: &str) -> (r: bool)
    ensures
        r == (environment@ == "development"@),
{
    str_equals(environment, "development")
}

} // verus!
