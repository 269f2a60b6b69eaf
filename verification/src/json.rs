//! JSON documents as `serde_json` holds them.
//!
//! A `serde_json::Value` is opaque to the verifier. What the library reads of one is named by the
//! spec functions below, each standing for what one `serde_json` function returns; the wrappers
//! that make the calls state those names and the few facts that `serde_json`'s source shows
//! (an object built from entries answers a lookup with the last entry of that key, a string
//! value reads back as that string, and so on).
use crate::resource::seq_less;
use vstd::prelude::*;

verus! {

#[verifier::external_type_specification]
#[verifier::external_body]
pub struct ExJsonValue(serde_json::Value);

/// `Value::get` with a string key: the member of an object, `None` for anything else.
pub uninterp spec fn json_get(value: serde_json::Value, key: Seq<char>) -> Option<serde_json::Value>;

/// `Value::as_str`: the text of a string value.
pub uninterp spec fn json_as_str(value: serde_json::Value) -> Option<Seq<char>>;

/// `Value::is_null`.
pub uninterp spec fn json_is_null(value: serde_json::Value) -> bool;

/// `Value::as_object` read as its entries, in the map's order.
pub uninterp spec fn json_object_entries(value: serde_json::Value) -> Option<
    Seq<(Seq<char>, serde_json::Value)>,
>;

/// `Value::as_array`: the items of an array value.
pub uninterp spec fn json_array_items(value: serde_json::Value) -> Option<Seq<serde_json::Value>>;

/// `<Value as PartialEq>::eq`.
pub uninterp spec fn json_equal(a: serde_json::Value, b: serde_json::Value) -> bool;

/// `Value::from(String)`: a string value.
pub uninterp spec fn json_from_string(text: Seq<char>) -> serde_json::Value;

/// `Value::from(i64)`: an integer value.
pub uninterp spec fn json_from_i64(number: i64) -> serde_json::Value;

/// `Value::from(u64)`: an unsigned integer value.
pub uninterp spec fn json_from_u64(number: u64) -> serde_json::Value;

/// `Value::from(bool)`: a boolean value.
pub uninterp spec fn json_from_bool(flag: bool) -> serde_json::Value;

/// `Value::Array`: an array of the given items.
pub uninterp spec fn json_from_items(items: Seq<serde_json::Value>) -> serde_json::Value;

/// `Value::Object(entries.into_iter().collect())`: an object of the given entries.
pub uninterp spec fn json_from_entries(entries: Seq<(Seq<char>, serde_json::Value)>) -> serde_json::Value;

/// `serde_json::to_vec`: the compact JSON encoding of a value.
pub uninterp spec fn json_encoding(value: serde_json::Value) -> Seq<u8>;

/// `Value::pointer`: the value that a JSON pointer designates within a value.
pub uninterp spec fn json_pointer(value: serde_json::Value, pointer: Seq<char>) -> Option<
    serde_json::Value,
>;

/// `Value::to_string`: the compact JSON text of a value.
pub uninterp spec fn json_text(value: serde_json::Value) -> Seq<char>;

/// The value that a lookup of `key` finds among entries inserted in order: the last one wins.
pub open spec fn entry_lookup(entries: Seq<(Seq<char>, serde_json::Value)>, key: Seq<char>) -> Option<
    serde_json::Value,
>
    decreases entries.len(),
{
    if entries.len() == 0 {
        None
    } else if entries.last().0 == key {
        Some(entries.last().1)
    } else {
        entry_lookup(entries.drop_last(), key)
    }
}

/// The entries of a vector with their keys viewed as text.
pub open spec fn entry_views(entries: Seq<(String, serde_json::Value)>) -> Seq<
    (Seq<char>, serde_json::Value),
> {
    entries.map_values(|e: (String, serde_json::Value)| (e.0@, e.1))
}

/// `null`: the one value that reads as null.
pub open spec fn json_null() -> serde_json::Value {
    choose|v: serde_json::Value| json_is_null(v)
}

/// A null value that is the only null value is `json_null()`.
pub proof fn lemma_null_is_json_null(value: serde_json::Value)
    requires
        json_is_null(value),
        forall|w: serde_json::Value| #[trigger] json_is_null(w) ==> w == value,
    ensures
        value == json_null(),
{
}

/// `value` is an integer equal to `number`: it compares equal, either way round, to the integer
/// values of `number` and to no other integer or string value.
pub open spec fn integer_equal_exactly(value: serde_json::Value, number: int) -> bool {
    &&& forall|m: i64| #[trigger] json_equal(value, json_from_i64(m)) <==> m == number
    &&& forall|m: i64| #[trigger] json_equal(json_from_i64(m), value) <==> m == number
    &&& forall|m: u64| #[trigger] json_equal(value, json_from_u64(m)) <==> m == number
    &&& forall|m: u64| #[trigger] json_equal(json_from_u64(m), value) <==> m == number
    &&& forall|t: Seq<char>| !#[trigger] json_equal(value, json_from_string(t))
    &&& forall|t: Seq<char>| !#[trigger] json_equal(json_from_string(t), value)
}

/// `value` is a string equal to `text`: it compares equal, either way round, to the string value
/// of `text` and to no other string or integer value.
pub open spec fn string_equal_exactly(value: serde_json::Value, text: Seq<char>) -> bool {
    &&& forall|t: Seq<char>| #[trigger] json_equal(value, json_from_string(t)) <==> t == text
    &&& forall|t: Seq<char>| #[trigger] json_equal(json_from_string(t), value) <==> t == text
    &&& forall|m: i64| !#[trigger] json_equal(value, json_from_i64(m))
    &&& forall|m: i64| !#[trigger] json_equal(json_from_i64(m), value)
    &&& forall|m: u64| !#[trigger] json_equal(value, json_from_u64(m))
    &&& forall|m: u64| !#[trigger] json_equal(json_from_u64(m), value)
}

/// `entries` with `entry` put in its place by key, replacing an entry of the same key (an
/// insertion into a map ordered by key).
pub open spec fn insert_entry(
    entries: Seq<(Seq<char>, serde_json::Value)>,
    entry: (Seq<char>, serde_json::Value),
) -> Seq<(Seq<char>, serde_json::Value)>
    decreases entries.len(),
{
    if entries.len() == 0 {
        seq![entry]
    } else if entries.last().0 == entry.0 {
        entries.drop_last().push(entry)
    } else if seq_less(entries.last().0, entry.0) {
        entries.push(entry)
    } else {
        insert_entry(entries.drop_last(), entry).push(entries.last())
    }
}

/// The entries of an object built from `entries` inserted in order: sorted by key, the last
/// entry of each key kept.
pub open spec fn sorted_entries(entries: Seq<(Seq<char>, serde_json::Value)>) -> Seq<
    (Seq<char>, serde_json::Value),
>
    decreases entries.len(),
{
    if entries.len() == 0 {
        Seq::empty()
    } else {
        insert_entry(sorted_entries(entries.drop_last()), entries.last())
    }
}

/// A scalar or array value has no members.
pub open spec fn json_has_no_members(value: serde_json::Value) -> bool {
    &&& json_object_entries(value) is None
    &&& forall|k: Seq<char>| #[trigger] json_get(value, k) is None
}

/// The member `key` of `value`, if `value` is an object that has one.
#[verifier::external_body]
pub fn get(value: &serde_json::Value, key: &str) -> (r: Option<serde_json::Value>)
    ensures
        r == json_get(*value, key@),
        json_object_entries(*value) is None ==> r is None,
{
    value.get(key).cloned()
}

/// The text of `value`, if it is a string.
#[verifier::external_body]
pub fn as_str(value: &serde_json::Value) -> (r: Option<String>)
    ensures
        r matches Some(s) ==> json_as_str(*value) == Some(s@),
        r is None ==> json_as_str(*value) is None,
{
    value.as_str().map(str::to_owned)
}

/// Whether `value` is an object.
#[verifier::external_body]
pub fn is_object(value: &serde_json::Value) -> (r: bool)
    ensures
        r == json_object_entries(*value) is Some,
{
    value.is_object()
}

/// Whether `value` is `null`.
#[verifier::external_body]
pub fn is_null(value: &serde_json::Value) -> (r: bool)
    ensures
        r == json_is_null(*value),
{
    value.is_null()
}

/// The entries of `value`, if it is an object; a lookup in the object finds what the entries
/// hold, and an object built from them is `value` again.
#[verifier::external_body]
pub fn object_entries(value: &serde_json::Value) -> (r: Option<Vec<(String, serde_json::Value)>>)
    ensures
        r matches Some(es) ==> json_object_entries(*value) == Some(entry_views(es@)),
        r matches Some(es) ==> forall|k: Seq<char>|
            #[trigger] json_get(*value, k) == entry_lookup(entry_views(es@), k),
        r matches Some(es) ==> json_from_entries(entry_views(es@)) == *value,
        r is None ==> json_object_entries(*value) is None,
{
    value.as_object().map(|map| map.iter().map(|(k, v)| (k.clone(), v.clone())).collect())
}

/// The items of `value`, if it is an array.
#[verifier::external_body]
pub fn array_items(value: &serde_json::Value) -> (r: Option<Vec<serde_json::Value>>)
    ensures
        r matches Some(items) ==> json_array_items(*value) == Some(items@),
        r is None ==> json_array_items(*value) is None,
{
    value.as_array().cloned()
}

/// Whether two values are equal (the derived `PartialEq`: two string values are equal exactly
/// when their texts are).
#[verifier::external_body]
pub fn equal(a: &serde_json::Value, b: &serde_json::Value) -> (r: bool)
    ensures
        r == json_equal(*a, *b),
        *a == *b ==> r,
        json_as_str(*a) is Some && json_as_str(*b) is Some ==> (r <==> json_as_str(*a)
            == json_as_str(*b)),
{
    a == b
}

/// A copy of `value`.
#[verifier::external_body]
pub fn duplicate(value: &serde_json::Value) -> (r: serde_json::Value)
    ensures
        r == *value,
{
    value.clone()
}

/// A string value.
#[verifier::external_body]
pub fn from_str(text: &str) -> (r: serde_json::Value)
    ensures
        r == json_from_string(text@),
        json_as_str(r) == Some(text@),
        !json_is_null(r),
        json_has_no_members(r),
        json_array_items(r) is None,
        string_equal_exactly(r, text@),
{
    serde_json::Value::from(text)
}

/// An integer value.
#[verifier::external_body]
pub fn from_i64(number: i64) -> (r: serde_json::Value)
    ensures
        r == json_from_i64(number),
        json_as_str(r) is None,
        !json_is_null(r),
        json_has_no_members(r),
        json_array_items(r) is None,
        integer_equal_exactly(r, number as int),
{
    serde_json::Value::from(number)
}

/// An unsigned integer value.
#[verifier::external_body]
pub fn from_u64(number: u64) -> (r: serde_json::Value)
    ensures
        r == json_from_u64(number),
        json_as_str(r) is None,
        !json_is_null(r),
        json_has_no_members(r),
        json_array_items(r) is None,
        integer_equal_exactly(r, number as int),
{
    serde_json::Value::from(number)
}

/// A boolean value.
#[verifier::external_body]
pub fn from_bool(flag: bool) -> (r: serde_json::Value)
    ensures
        r == json_from_bool(flag),
        json_as_str(r) is None,
        !json_is_null(r),
        json_has_no_members(r),
        json_array_items(r) is None,
{
    serde_json::Value::from(flag)
}

/// `Value::Null`. `Value::is_null` holds of this variant alone, so every value that reads as
/// null is this one.
#[verifier::external_body]
pub fn null() -> (r: serde_json::Value)
    ensures
        json_is_null(r),
        forall|w: serde_json::Value| #[trigger] json_is_null(w) ==> w == r,
        json_as_str(r) is None,
        json_has_no_members(r),
        json_array_items(r) is None,
{
    serde_json::Value::Null
}

/// An array of `items`.
#[verifier::external_body]
pub fn from_items(items: Vec<serde_json::Value>) -> (r: serde_json::Value)
    ensures
        r == json_from_items(items@),
        json_array_items(r) == Some(items@),
        json_as_str(r) is None,
        !json_is_null(r),
        json_has_no_members(r),
{
    serde_json::Value::Array(items)
}

/// An object of `entries`, inserted in order. The object is a map ordered by key (`serde_json`
/// without `preserve_order` keeps a `BTreeMap`, built with the last entry of each key), so its
/// entries come out sorted by key.
#[verifier::external_body]
pub fn from_entries(entries: Vec<(String, serde_json::Value)>) -> (r: serde_json::Value)
    ensures
        r == json_from_entries(entry_views(entries@)),
        json_object_entries(r) == Some(sorted_entries(entry_views(entries@))),
        forall|k: Seq<char>| #[trigger] json_get(r, k) == entry_lookup(entry_views(entries@), k),
        json_as_str(r) is None,
        !json_is_null(r),
        json_array_items(r) is None,
{
    serde_json::Value::Object(entries.into_iter().collect())
}

/// The compact JSON encoding of `value`. `serde_json` serializes a `Value` into a byte vector
/// without error (its map keys are strings and writes into a `Vec` succeed), so the encoding is
/// always there; the `Option` keeps the error path of `to_vec` visible to callers.
#[verifier::external_body]
pub fn encode(value: &serde_json::Value) -> (r: Option<Vec<u8>>)
    ensures
        r is Some,
        r matches Some(bytes) ==> bytes@ == json_encoding(*value),
{
    serde_json::to_vec(value).ok()
}

/// The value that `pointer` designates within `value`, if any.
#[verifier::external_body]
pub fn pointer(value: &serde_json::Value, path: &str) -> (r: Option<serde_json::Value>)
    ensures
        r == json_pointer(*value, path@),
{
    value.pointer(path).cloned()
}

/// The compact JSON text of `value`.
#[verifier::external_body]
pub fn text(value: &serde_json::Value) -> (r: String)
    ensures
        r@ == json_text(*value),
{
    value.to_string()
}

/// The member `key` of `value` is a string (`value.get(key).and_then(Value::as_str)`).
pub open spec fn string_member(value: serde_json::Value, key: Seq<char>) -> Option<Seq<char>> {
    match json_get(value, key) {
        Some(v) => json_as_str(v),
        None => None,
    }
}

/// `value.get(key).and_then(Value::as_str)`.
pub fn get_str(value: &serde_json::Value, key: &str) -> (r: Option<String>)
    ensures
        match string_member(*value, key@) {
            Some(text) => r matches Some(s) && s@ == text,
            None => r is None,
        },
{
    match get(value, key) {
        Some(v) => as_str(&v),
        None => None,
    }
}

} // verus!
