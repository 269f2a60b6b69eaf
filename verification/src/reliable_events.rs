//! The transactional outbox and idempotent operations: what an event carries into the outbox,
//! and what a new operation's first event records of who asked for it.
use crate::json::{entry_views, json_from_entries, json_from_string, json_object_entries};
use crate::digest::lower_hex;
use vstd::arithmetic::power2::pow2;
use vstd::prelude::*;

verus! {

/// The sixteen bytes of an identifier, most significant first (`u128::to_be_bytes`).
pub open spec fn be_bytes(id: u128) -> Seq<u8> {
    Seq::new(16, |i: int| ((id as int / pow2((8 * (15 - i)) as nat) as int) % 256) as u8)
}

/// The hyphenated lowercase text of an identifier: its 32 hexadecimal digits, most significant
/// first, in groups of 8, 4, 4, 4 and 12.
pub open spec fn uuid_hyphenated(id: u128) -> Seq<char> {
    let h = lower_hex(be_bytes(id));
    h.subrange(0, 8) + seq!['-'] + h.subrange(8, 12) + seq!['-'] + h.subrange(12, 16) + seq!['-']
        + h.subrange(16, 20) + seq!['-'] + h.subrange(20, 32)
}

/// The hyphenated text of an identifier (`Uuid::from_u128(id).to_string()`: `from_u128` takes
/// the bytes most significant first, and `Display` writes them as hyphenated lowercase hex).
#[verifier::external_body]
pub fn uuid_text(id: u128) -> (r: String)
    ensures
        r@ == uuid_hyphenated(id),
{
    uuid::Uuid::from_u128(id).to_string()
}

/// The payload of a new operation's first event: an object payload also names who asked for
/// the operation; any other payload is kept as it is.
pub fn with_requested_by(payload: serde_json::Value, requested_by: u128) -> (r: serde_json::Value)
    ensures
        match json_object_entries(payload) {
            Some(entries) => r == json_from_entries(
                entries.push(("requested_by"@, json_from_string(uuid_hyphenated(requested_by)))),
            ),
            None => r == payload,
        },
{
    match crate::json::object_entries(&payload) {
        Some(mut entries) => {
            let ghost before = entries@;
            let id = uuid_text(requested_by);
            entries.push(("requested_by".to_owned(), crate::json::from_str(id.as_str())));
            proof {
                assert(entry_views(entries@) =~= entry_views(before).push(
                    ("requested_by"@, json_from_string(uuid_hyphenated(requested_by))),
                ));
            }
            crate::json::from_entries(entries)
        },
        None => payload,
    }
}

/// The event version as the outbox column holds it (`i16`, saturating).
pub fn event_version_column(version: u16) -> (r: i16)
    ensures
        r == if version > i16::MAX {
            i16::MAX as int
        } else {
            version as int
        },
{
    if version > 32_767 {
        i16::MAX
    } else {
        version as i16
    }
}

/// What creating an operation under an idempotency key does.
#[derive(Clone, Copy, Debug, PartialEq, Eq, Structural)]
pub enum CreationStep {
    /// The key is taken: answer with the operation already recorded, and enqueue nothing.
    ReturnExisting,
    /// Record the operation and enqueue its first event.
    InsertWithEvent,
}

/// An idempotency key that is already taken in the organization yields the recorded operation
/// and no second event.
pub fn creation_step(key_taken: bool) -> (r: CreationStep)
    ensures
        r == if key_taken {
            CreationStep::ReturnExisting
        } else {
            CreationStep::InsertWithEvent
        },
{
    if key_taken {
        CreationStep::ReturnExisting
    } else {
        CreationStep::InsertWithEvent
    }
}

} // verus!
