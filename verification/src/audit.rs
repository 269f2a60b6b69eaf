//! Audit projection of outbox events: payloads are sanitized before they are recorded, and each
//! event is classified by outcome and severity.
//!
//! Sanitizing replaces the value of every member whose key names a secret with `[REDACTED]`,
//! keeps at most a thousand items of an array, shortens strings longer than 8192 bytes, and
//! stops sixteen levels down with `[TRUNCATED]`.
use crate::json::{
    entry_views, json_array_items, json_as_str, json_from_entries, json_from_items,
    json_from_string, json_object_entries, string_member,
};
use crate::provider::field_or_null;
use crate::text::{ascii_lowercase_seq, ends_with, has_infix, has_suffix, occurs_at, utf8_len};
use vstd::prelude::*;

verus! {

/// How deep sanitizing goes.
pub const MAX_DEPTH: usize = 16;

/// How many items of an array are kept.
pub const MAX_ITEMS: usize = 1_000;

/// How many bytes of a string are kept whole.
pub const MAX_STRING_BYTES: usize = 8_192;

/// `key` with ASCII capitals lowered and hyphens read as underscores.
pub open spec fn normalized_key(key: Seq<char>) -> Seq<char> {
    ascii_lowercase_seq(key).map_values(|c: char| if c == '-' { '_' } else { c })
}

/// A key names a secret when, normalized, it contains one of the sensitive words.
pub open spec fn sensitive_key(key: Seq<char>) -> bool {
    let k = normalized_key(key);
    ||| has_infix(k, "password"@)
    ||| has_infix(k, "secret"@)
    ||| has_infix(k, "token"@)
    ||| has_infix(k, "api_key"@)
    ||| has_infix(k, "consumer_key"@)
    ||| has_infix(k, "authorization"@)
    ||| has_infix(k, "credential"@)
    ||| has_infix(k, "ciphertext"@)
    ||| has_infix(k, "nonce"@)
    ||| has_infix(k, "private_key"@)
}

pub fn is_sensitive_key(key: &str) -> (r: bool)
    ensures
        r == sensitive_key(key@),
{
    let lowered = crate::text::to_ascii_lowercase(key);
    let chars = crate::text::chars_of(lowered.as_str());
    let mut normalized = String::new();
    let mut i: usize = 0;
    while i < chars.len()
        invariant
            chars@ == ascii_lowercase_seq(key@),
            i <= chars.len(),
            normalized@ == chars@.subrange(0, i as int).map_values(
                |c: char| if c == '-' { '_' } else { c },
            ),
        decreases chars.len() - i,
    {
        let c = if chars[i] == '-' {
            '_'
        } else {
            chars[i]
        };
        proof {
            assert(chars@.subrange(0, i + 1).map_values(|c: char| if c == '-' { '_' } else { c })
                == chars@.subrange(0, i as int).map_values(
                |c: char| if c == '-' { '_' } else { c },
            ).push(c));
        }
        crate::text::push_char(&mut normalized, c);
        i += 1;
    }
    proof {
        assert(chars@.subrange(0, chars@.len() as int) == chars@);
    }
    let k = normalized.as_str();
    crate::text::contains(k, "password") || crate::text::contains(k, "secret")
        || crate::text::contains(k, "token") || crate::text::contains(k, "api_key")
        || crate::text::contains(k, "consumer_key") || crate::text::contains(k, "authorization")
        || crate::text::contains(k, "credential") || crate::text::contains(k, "ciphertext")
        || crate::text::contains(k, "nonce") || crate::text::contains(k, "private_key")
}

/// What stands in for a sensitive value.
pub open spec fn redaction() -> serde_json::Value {
    json_from_string("[REDACTED]"@)
}

/// What stands in for a value nested too deep.
pub open spec fn truncation() -> serde_json::Value {
    json_from_string("[TRUNCATED]"@)
}

/// The sanitized form of `value` found `depth` levels down.
pub open spec fn redacted(value: serde_json::Value, depth: nat) -> serde_json::Value
    decreases MAX_DEPTH - depth, 1nat, 0nat,
{
    if depth >= MAX_DEPTH {
        truncation()
    } else {
        match json_object_entries(value) {
            Some(entries) => json_from_entries(redacted_entries(entries, depth)),
            None => match json_array_items(value) {
                Some(items) => json_from_items(
                    redacted_items(
                        if items.len() > MAX_ITEMS {
                            items.subrange(0, MAX_ITEMS as int)
                        } else {
                            items
                        },
                        depth,
                    ),
                ),
                None => match json_as_str(value) {
                    Some(s) => if utf8_len(s) > MAX_STRING_BYTES {
                        json_from_string(
                            (if s.len() > MAX_STRING_BYTES {
                                s.subrange(0, MAX_STRING_BYTES as int)
                            } else {
                                s
                            }) + "\u{2026}[TRUNCATED]"@,
                        )
                    } else {
                        value
                    },
                    None => value,
                },
            },
        }
    }
}

/// The members of an object `depth` levels down, sanitized: a sensitive key keeps only a
/// redaction, any other value is sanitized one level further down.
pub open spec fn redacted_entries(entries: Seq<(Seq<char>, serde_json::Value)>, depth: nat) -> Seq<
    (Seq<char>, serde_json::Value),
>
    decreases MAX_DEPTH - depth, 0nat, entries.len(),
{
    if entries.len() == 0 || depth >= MAX_DEPTH {
        Seq::empty()
    } else {
        let (key, value) = entries.last();
        redacted_entries(entries.drop_last(), depth).push(
            (
                key,
                if sensitive_key(key) {
                    redaction()
                } else {
                    redacted(value, depth + 1)
                },
            ),
        )
    }
}

/// The items of an array `depth` levels down, each sanitized one level further down.
pub open spec fn redacted_items(items: Seq<serde_json::Value>, depth: nat) -> Seq<serde_json::Value>
    decreases MAX_DEPTH - depth, 0nat, items.len(),
{
    if items.len() == 0 || depth >= MAX_DEPTH {
        Seq::empty()
    } else {
        redacted_items(items.drop_last(), depth).push(redacted(items.last(), depth + 1))
    }
}

/// The sanitized copy of an event payload.
pub fn redact_value(value: &serde_json::Value) -> (r: serde_json::Value)
    ensures
        r == redacted(*value, 0),
{
    redact_at_depth(value, 0)
}

fn redact_at_depth(value: &serde_json::Value, depth: usize) -> (r: serde_json::Value)
    requires
        depth <= MAX_DEPTH,
    ensures
        r == redacted(*value, depth as nat),
    decreases MAX_DEPTH - depth,
{
    if depth >= MAX_DEPTH {
        return crate::json::from_str("[TRUNCATED]");
    }
    match crate::json::object_entries(value) {
        Some(entries) => {
            let mut out: Vec<(String, serde_json::Value)> = Vec::new();
            let mut i: usize = 0;
            while i < entries.len()
                invariant
                    depth < MAX_DEPTH,
                    i <= entries.len(),
                    entry_views(out@) == redacted_entries(
                        entry_views(entries@).subrange(0, i as int),
                        depth as nat,
                    ),
                decreases entries.len() - i,
            {
                let key = entries[i].0.as_str();
                let item = if is_sensitive_key(key) {
                    crate::json::from_str("[REDACTED]")
                } else {
                    redact_at_depth(&entries[i].1, depth + 1)
                };
                let ghost before = out@;
                out.push((crate::text::owned(key), item));
                proof {
                    let es = entry_views(entries@);
                    let next = es.subrange(0, i + 1);
                    assert(next.drop_last() == es.subrange(0, i as int));
                    assert(next.last() == (entries@[i as int].0@, entries@[i as int].1));
                    assert(entry_views(out@) == entry_views(before).push((key@, item)));
                }
                i += 1;
            }
            proof {
                assert(entry_views(entries@).subrange(0, entries@.len() as int) == entry_views(
                    entries@,
                ));
            }
            crate::json::from_entries(out)
        },
        None => match crate::json::array_items(value) {
            Some(items) => {
                let n = if items.len() > MAX_ITEMS {
                    MAX_ITEMS
                } else {
                    items.len()
                };
                let ghost kept = if items@.len() > MAX_ITEMS {
                    items@.subrange(0, MAX_ITEMS as int)
                } else {
                    items@
                };
                let mut out: Vec<serde_json::Value> = Vec::new();
                let mut i: usize = 0;
                while i < n
                    invariant
                        depth < MAX_DEPTH,
                        n <= items@.len(),
                        n == kept.len(),
                        forall|k: int| 0 <= k < n ==> kept[k] == items@[k],
                        i <= n,
                        out@ == redacted_items(kept.subrange(0, i as int), depth as nat),
                    decreases n - i,
                {
                    let item = redact_at_depth(&items[i], depth + 1);
                    proof {
                        let next = kept.subrange(0, i + 1);
                        assert(next.drop_last() == kept.subrange(0, i as int));
                        assert(next.last() == items@[i as int]);
                    }
                    out.push(item);
                    i += 1;
                }
                proof {
                    assert(kept.subrange(0, n as int) == kept);
                }
                crate::json::from_items(out)
            },
            None => match crate::json::as_str(value) {
                Some(s) => {
                    if crate::text::byte_len(s.as_str()) > MAX_STRING_BYTES {
                        let mut shortened = crate::text::take_chars(s.as_str(), MAX_STRING_BYTES);
                        shortened.append("\u{2026}[TRUNCATED]");
                        crate::json::from_str(shortened.as_str())
                    } else {
                        crate::json::duplicate(value)
                    }
                },
                None => crate::json::duplicate(value),
            },
        },
    }
}

/// The outcome an event records, from the suffix of its type.
pub open spec fn outcome_of(event_type: Seq<char>) -> Seq<char> {
    if has_suffix(event_type, ".failed"@) || has_suffix(event_type, ".invalid"@) {
        "failed"@
    } else if has_suffix(event_type, ".denied"@) {
        "denied"@
    } else if has_suffix(event_type, ".cancelled"@) {
        "cancelled"@
    } else if has_suffix(event_type, ".requested"@) || has_suffix(event_type, ".created"@) {
        "attempted"@
    } else {
        "succeeded"@
    }
}

pub fn outcome_for(event_type: &str) -> (r: &'static str)
    ensures
        r@ == outcome_of(event_type@),
{
    if ends_with(event_type, ".failed") || ends_with(event_type, ".invalid") {
        "failed"
    } else if ends_with(event_type, ".denied") {
        "denied"
    } else if ends_with(event_type, ".cancelled") {
        "cancelled"
    } else if ends_with(event_type, ".requested") || ends_with(event_type, ".created") {
        "attempted"
    } else {
        "succeeded"
    }
}

/// Credential events, denials and failures are warnings; the rest is information.
pub open spec fn severity_of(event_type: Seq<char>) -> Seq<char> {
    if has_infix(event_type, "credential"@) || has_suffix(event_type, ".denied"@) || has_suffix(
        event_type,
        ".failed"@,
    ) {
        "warning"@
    } else {
        "info"@
    }
}

pub fn severity_for(event_type: &str) -> (r: &'static str)
    ensures
        r@ == severity_of(event_type@),
{
    if crate::text::contains(event_type, "credential") || ends_with(event_type, ".denied")
        || ends_with(event_type, ".failed") {
        "warning"
    } else {
        "info"
    }
}

/// `Uuid::parse_str`: the identifier that a text spells, in any of the forms the `uuid` crate
/// reads.
pub uninterp spec fn uuid_parsed(text: Seq<char>) -> Option<u128>;

#[verifier::external_body]
pub(crate) fn parse_uuid(text: &str) -> (r: Option<u128>)
    ensures
        r == uuid_parsed(text@),
{
    uuid::Uuid::parse_str(text).ok().map(|id| id.as_u128())
}

/// The identifier that a payload member holds, if it is a string spelling a UUID.
pub open spec fn member_uuid(payload: serde_json::Value, key: Seq<char>) -> Option<u128> {
    match string_member(payload, key) {
        Some(text) => uuid_parsed(text),
        None => None,
    }
}

/// The actor of an event: the first of `actor_id`, `requested_by`, `user_id` and `created_by`
/// that holds a UUID.
pub open spec fn actor_of(payload: serde_json::Value) -> Option<u128> {
    if member_uuid(payload, "actor_id"@) is Some {
        member_uuid(payload, "actor_id"@)
    } else if member_uuid(payload, "requested_by"@) is Some {
        member_uuid(payload, "requested_by"@)
    } else if member_uuid(payload, "user_id"@) is Some {
        member_uuid(payload, "user_id"@)
    } else {
        member_uuid(payload, "created_by"@)
    }
}

fn member_uuid_of(payload: &serde_json::Value, key: &str) -> (r: Option<u128>)
    ensures
        r == member_uuid(*payload, key@),
{
    match crate::json::get_str(payload, key) {
        Some(text) => parse_uuid(text.as_str()),
        None => None,
    }
}

pub fn actor_id(payload: &serde_json::Value) -> (r: Option<u128>)
    ensures
        r == actor_of(*payload),
{
    let first = member_uuid_of(payload, "actor_id");
    if first.is_some() {
        return first;
    }
    let second = member_uuid_of(payload, "requested_by");
    if second.is_some() {
        return second;
    }
    let third = member_uuid_of(payload, "user_id");
    if third.is_some() {
        return third;
    }
    member_uuid_of(payload, "created_by")
}

/// The audit record of an event, apart from the identifiers and times the store assigns.
pub struct AuditProjection {
    pub actor_type: &'static str,
    pub actor_id: Option<u128>,
    pub outcome: &'static str,
    pub severity: &'static str,
    pub request_id: Option<String>,
    pub changes: serde_json::Value,
    pub metadata: serde_json::Value,
}

/// The changes an audit record shows: the sanitized `before`, `after` and `differences`.
pub open spec fn changes_of(sanitized: serde_json::Value) -> serde_json::Value {
    json_from_entries(
        seq![
            ("before"@, field_or_null(sanitized, "before"@)),
            ("after"@, field_or_null(sanitized, "after"@)),
            ("differences"@, field_or_null(sanitized, "differences"@)),
        ],
    )
}

/// Projects an event into its audit record: the payload sanitized, the actor a user when the
/// payload names one, and the outcome and severity read from the event type.
pub fn project(payload: &serde_json::Value, event_type: &str) -> (r: AuditProjection)
    ensures
        r.metadata == redacted(*payload, 0),
        r.actor_id == actor_of(*payload),
        r.actor_type@ == if actor_of(*payload) is Some {
            "user"@
        } else {
            "system"@
        },
        r.outcome@ == outcome_of(event_type@),
        r.severity@ == severity_of(event_type@),
        match string_member(redacted(*payload, 0), "request_id"@) {
            Some(id) => r.request_id matches Some(s) && s@ == id,
            None => r.request_id is None,
        },
        r.changes == changes_of(redacted(*payload, 0)),
{
    let sanitized = redact_value(payload);
    let actor = actor_id(payload);
    let entries = vec![
        ("before".to_owned(), crate::provider::get_or_null(&sanitized, "before")),
        ("after".to_owned(), crate::provider::get_or_null(&sanitized, "after")),
        ("differences".to_owned(), crate::provider::get_or_null(&sanitized, "differences")),
    ];
    proof {
        assert(entry_views(entries@) == seq![
            ("before"@, field_or_null(sanitized, "before"@)),
            ("after"@, field_or_null(sanitized, "after"@)),
            ("differences"@, field_or_null(sanitized, "differences"@)),
        ]);
    }
    AuditProjection {
        actor_type: if actor.is_some() {
            "user"
        } else {
            "system"
        },
        actor_id: actor,
        outcome: outcome_for(event_type),
        severity: severity_for(event_type),
        request_id: crate::json::get_str(&sanitized, "request_id"),
        changes: crate::json::from_entries(entries),
        metadata: sanitized,
    }
}

/// A member whose key names a secret never keeps its value: in a sanitized object it is the
/// redaction, at every depth.
pub proof fn sensitive_members_are_redacted(
    entries: Seq<(Seq<char>, serde_json::Value)>,
    depth: nat,
    i: int,
)
    requires
        depth < MAX_DEPTH,
        0 <= i < entries.len(),
        sensitive_key(entries[i].0),
    ensures
        redacted_entries(entries, depth).len() == entries.len(),
        redacted_entries(entries, depth)[i] == (entries[i].0, redaction()),
    decreases entries.len(),
{
    lemma_redacted_entries_shape(entries, depth);
}

/// Sanitizing keeps every key of an object, in order, and changes only values.
pub proof fn lemma_redacted_entries_shape(entries: Seq<(Seq<char>, serde_json::Value)>, depth: nat)
    requires
        depth < MAX_DEPTH,
    ensures
        redacted_entries(entries, depth).len() == entries.len(),
        forall|i: int|
            0 <= i < entries.len() ==> #[trigger] redacted_entries(entries, depth)[i] == (
                entries[i].0,
                if sensitive_key(entries[i].0) {
                    redaction()
                } else {
                    redacted(entries[i].1, depth + 1)
                },
            ),
    decreases entries.len(),
{
    if entries.len() > 0 {
        lemma_redacted_entries_shape(entries.drop_last(), depth);
        let rest = redacted_entries(entries.drop_last(), depth);
        assert forall|i: int| 0 <= i < entries.len() implies #[trigger] redacted_entries(
            entries,
            depth,
        )[i] == (
            entries[i].0,
            if sensitive_key(entries[i].0) {
                redaction()
            } else {
                redacted(entries[i].1, depth + 1)
            },
        ) by {
            if i < entries.len() - 1 {
                assert(rest[i] == redacted_entries(entries.drop_last(), depth)[i]);
                assert(entries.drop_last()[i] == entries[i]);
            }
        }
    }
}

/// An event is a warning exactly when it concerns credentials, was denied or failed: any event
/// type that ends in `.denied` or `.failed` or mentions `credential` anywhere is classified as a
/// warning, an event whose outcome is a denial is a warning, and every other event is
/// information.
pub proof fn severity_marks_denials_failures_and_credentials(
    event_type: Seq<char>,
    before: Seq<char>,
    after: Seq<char>,
)
    ensures
        severity_of(before + ".denied"@) == "warning"@,
        severity_of(before + ".failed"@) == "warning"@,
        severity_of(before + "credential"@ + after) == "warning"@,
        outcome_of(event_type) == "denied"@ ==> severity_of(event_type) == "warning"@,
        severity_of(event_type) == "warning"@ || severity_of(event_type) == "info"@,
        severity_of(event_type) == "warning"@ ==> has_infix(event_type, "credential"@) || has_suffix(
            event_type,
            ".denied"@,
        ) || has_suffix(event_type, ".failed"@),
{
    reveal_strlit("warning");
    reveal_strlit("info");
    reveal_strlit("denied");
    reveal_strlit("failed");
    reveal_strlit("cancelled");
    reveal_strlit("attempted");
    reveal_strlit("succeeded");
    assert("denied"@[0] != "failed"@[0] && "denied"@[0] != "cancelled"@[0]);
    assert("denied"@[0] != "attempted"@[0] && "denied"@[0] != "succeeded"@[0]);
    let d = before + ".denied"@;
    assert(d.subrange(d.len() - ".denied"@.len(), d.len() as int) =~= ".denied"@);
    let f = before + ".failed"@;
    assert(f.subrange(f.len() - ".failed"@.len(), f.len() as int) =~= ".failed"@);
    let c = before + "credential"@ + after;
    assert(c.subrange(before.len() as int, (before.len() + "credential"@.len()) as int) =~= "credential"@);
    assert(occurs_at(c, "credential"@, before.len() as int));
}

} // verus!
