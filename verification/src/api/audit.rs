//! Audit log queries and their CSV export.
use crate::api::error::ApiError;
use crate::text::{byte_len, chars_of, push_char, str_equals, utf8_len};
use vstd::prelude::*;

verus! {

/// A character that a spreadsheet reads as the start of a formula.
pub open spec fn formula_trigger(c: char) -> bool {
    c == '=' || c == '+' || c == '-' || c == '@'
}

/// A value that would start a formula is prefixed with `'` so that it reads as text.
pub open spec fn formula_guarded(value: Seq<char>) -> Seq<char> {
    if value.len() > 0 && formula_trigger(value[0]) {
        seq!['\''] + value
    } else {
        value
    }
}

/// Every `"` doubled.
pub open spec fn quotes_doubled(value: Seq<char>) -> Seq<char>
    decreases value.len(),
{
    if value.len() == 0 {
        Seq::empty()
    } else {
        quotes_doubled(value.drop_last()) + if value.last() == '"' {
            seq!['"', '"']
        } else {
            seq![value.last()]
        }
    }
}

/// The CSV cell of a value: guarded against formulas, quotes doubled, then quoted.
pub open spec fn csv_cell(value: Seq<char>) -> Seq<char> {
    seq!['"'] + quotes_doubled(formula_guarded(value)) + seq!['"']
}

/// A quoted CSV cell whose content reads as data, never as a formula.
pub fn csv_field(value: &str) -> (r: String)
    ensures
        r@ == csv_cell(value@),
{
    let chars = chars_of(value);
    let mut guarded: Vec<char> = Vec::new();
    if chars.len() > 0 && (chars[0] == '=' || chars[0] == '+' || chars[0] == '-' || chars[0]
        == '@') {
        guarded.push('\'');
    }
    let ghost prefix = guarded@;
    let mut i: usize = 0;
    while i < chars.len()
        invariant
            chars@ == value@,
            i <= chars.len(),
            guarded@ == prefix + value@.subrange(0, i as int),
        decreases chars.len() - i,
    {
        guarded.push(chars[i]);
        i += 1;
        proof {
            assert(value@.subrange(0, i as int) == value@.subrange(0, i - 1).push(value@[i - 1]));
        }
    }
    proof {
        assert(value@.subrange(0, value@.len() as int) == value@);
        if value@.len() > 0 && formula_trigger(value@[0]) {
            assert(guarded@ == formula_guarded(value@));
        } else {
            assert(prefix == Seq::<char>::empty());
            assert(guarded@ == formula_guarded(value@));
        }
    }
    let mut r = String::new();
    push_char(&mut r, '"');
    let mut j: usize = 0;
    while j < guarded.len()
        invariant
            j <= guarded.len(),
            r@ == seq!['"'] + quotes_doubled(guarded@.subrange(0, j as int)),
        decreases guarded.len() - j,
    {
        let c = guarded[j];
        proof {
            let t = guarded@.subrange(0, j + 1);
            assert(t.drop_last() == guarded@.subrange(0, j as int));
            assert(t.last() == c);
        }
        if c == '"' {
            push_char(&mut r, '"');
            push_char(&mut r, '"');
        } else {
            push_char(&mut r, c);
        }
        j += 1;
    }
    proof {
        assert(guarded@.subrange(0, guarded@.len() as int) == guarded@);
    }
    push_char(&mut r, '"');
    r
}

proof fn lemma_quotes_doubled_first(value: Seq<char>)
    requires
        value.len() > 0,
    ensures
        quotes_doubled(value).len() > 0,
        quotes_doubled(value)[0] == value[0],
    decreases value.len(),
{
    let rest = quotes_doubled(value.drop_last());
    let piece = if value.last() == '"' {
        seq!['"', '"']
    } else {
        seq![value.last()]
    };
    assert(quotes_doubled(value) == rest + piece);
    if value.len() > 1 {
        lemma_quotes_doubled_first(value.drop_last());
        assert(value.drop_last()[0] == value[0]);
        assert((rest + piece)[0] == rest[0]);
    } else {
        assert(value.drop_last().len() == 0);
        assert(rest == Seq::<char>::empty());
        assert((rest + piece)[0] == piece[0]);
    }
}

/// An exported cell opens with a quote and never continues with a formula trigger.
pub proof fn csv_cell_never_starts_a_formula(value: Seq<char>)
    ensures
        csv_cell(value)[0] == '"',
        csv_cell(value).len() >= 2,
        !formula_trigger(csv_cell(value)[1]),
{
    let g = formula_guarded(value);
    if g.len() > 0 {
        lemma_quotes_doubled_first(g);
        assert(csv_cell(value)[1] == quotes_doubled(g)[0]);
    }
}

/// The outcomes that an audit record can have.
pub open spec fn audit_outcome(value: Seq<char>) -> bool {
    value == "attempted"@ || value == "succeeded"@ || value == "failed"@ || value == "denied"@
        || value == "cancelled"@
}

/// A text filter must hold 1 to 160 bytes.
pub open spec fn filter_text_ok(value: Option<String>) -> bool {
    match value {
        Some(v) => 0 < utf8_len(v@) <= 160,
        None => true,
    }
}

fn filter_text_valid(value: &Option<String>) -> (r: bool)
    ensures
        r == filter_text_ok(*value),
{
    match value {
        Some(v) => {
            let len = byte_len(v.as_str());
            len > 0 && len <= 160
        },
        None => true,
    }
}

/// Validates the text filters of an audit query: the action and target type must hold 1 to
/// 160 bytes, and an outcome must be one that records have.
pub fn validate_query(
    action: &Option<String>,
    target_type: &Option<String>,
    outcome: &Option<String>,
) -> (r: Result<(), ApiError>)
    ensures
        r == if !filter_text_ok(*action) || !filter_text_ok(*target_type) {
            Err(ApiError::BadRequest("audit filter is invalid"))
        } else if outcome matches Some(o) && !audit_outcome(o@) {
            Err(ApiError::BadRequest("audit outcome is invalid"))
        } else {
            Ok::<(), ApiError>(())
        },
{
    if !filter_text_valid(action) || !filter_text_valid(target_type) {
        return Err(ApiError::BadRequest("audit filter is invalid"));
    }
    match outcome {
        Some(o) => {
            let o = o.as_str();
            if str_equals(o, "attempted") || str_equals(o, "succeeded") || str_equals(o, "failed")
                || str_equals(o, "denied") || str_equals(o, "cancelled") {
                Ok(())
            } else {
                Err(ApiError::BadRequest("audit outcome is invalid"))
            }
        },
        None => Ok(()),
    }
}

/// The number of rows a listing returns: 100 unless asked, never more than 200.
pub fn list_limit(limit: Option<u64>) -> (r: u64)
    ensures
        r == match limit {
            Some(l) => if l < 200 {
                l
            } else {
                200
            },
            None => 100,
        },
{
    let l = match limit {
        Some(l) => l,
        None => 100,
    };
    if l < 200 {
        l
    } else {
        200
    }
}

/// The number of rows an export returns: at most 10 000, which is also the default.
pub fn export_limit(limit: Option<u64>) -> (r: u64)
    ensures
        r == match limit {
            Some(l) => if l < 10_000 {
                l
            } else {
                10_000
            },
            None => 10_000,
        },
{
    let l = match limit {
        Some(l) => l,
        None => 10_000,
    };
    if l < 10_000 {
        l
    } else {
        10_000
    }
}

/// The cells of a record, separated by commas.
pub open spec fn csv_joined(fields: Seq<Seq<char>>) -> Seq<char>
    decreases fields.len(),
{
    if fields.len() == 0 {
        Seq::empty()
    } else if fields.len() == 1 {
        csv_cell(fields[0])
    } else {
        csv_joined(fields.drop_last()) + seq![','] + csv_cell(fields.last())
    }
}

/// One line of the export: every field as a CSV cell, comma separated, ended by a newline.
pub fn csv_record(fields: &Vec<String>) -> (r: String)
    ensures
        r@ == csv_joined(fields@.map_values(|f: String| f@)) + seq!['\n'],
{
    let ghost views = fields@.map_values(|f: String| f@);
    let mut line = String::new();
    let mut i: usize = 0;
    while i < fields.len()
        invariant
            i <= fields.len(),
            views == fields@.map_values(|f: String| f@),
            line@ == csv_joined(views.subrange(0, i as int)),
        decreases fields.len() - i,
    {
        let ghost before = views.subrange(0, i as int);
        let cell = csv_field(fields[i].as_str());
        proof {
            let next = views.subrange(0, i + 1);
            assert(next.drop_last() == before);
            assert(next.last() == fields@[i as int]@);
        }
        if i > 0 {
            push_char(&mut line, ',');
        }
        line.append(cell.as_str());
        i += 1;
    }
    proof {
        assert(views.subrange(0, views.len() as int) == views);
    }
    push_char(&mut line, '\n');
    line
}

/// The header line of the export.
pub fn csv_header() -> (r: &'static str)
    ensures
        r@ == "occurred_at,action,outcome,severity,actor_id,target_type,target_id,trace_id\n"@,
{
    "occurred_at,action,outcome,severity,actor_id,target_type,target_id,trace_id\n"
}

} // verus!
