//! Canonical resources and drift between their desired and observed states.
//!
//! Drift compares only the explicitly managed top-level fields of the two states, each field
//! once and in lexicographic order, and fingerprints the result by the SHA-256 digest of the
//! JSON encoding of the desired version together with the differences.
pub mod sync;

use crate::digest::{is_lower_hex_digit, lower_hex, sha256_digest};
use crate::json::{
    json_encoding, json_equal, json_from_entries, json_get, json_from_i64, json_from_items,
    json_from_string, json_null, json_object_entries,
};
use crate::kernel::{OrganizationId, ResourceId};
use crate::provider::field_or_null;
use vstd::prelude::*;

verus! {

#[derive(Clone, Copy, Debug, PartialEq, Eq, Structural)]
pub enum ResourceType {
    ComputeInstance,
    DnsZone,
    DnsRecord,
}

impl ResourceType {
    /// The wire name of the type.
    pub fn as_str(&self) -> (r: &'static str)
        ensures
            r@ == resource_type_name(*self),
    {
        match self {
            ResourceType::ComputeInstance => "compute_instance",
            ResourceType::DnsZone => "dns_zone",
            ResourceType::DnsRecord => "dns_record",
        }
    }
}

pub open spec fn resource_type_name(t: ResourceType) -> Seq<char> {
    match t {
        ResourceType::ComputeInstance => "compute_instance"@,
        ResourceType::DnsZone => "dns_zone"@,
        ResourceType::DnsRecord => "dns_record"@,
    }
}

#[derive(Clone, Copy, Debug, PartialEq, Eq, Structural)]
pub enum ResourceLifecycle {
    Provisioning,
    Active,
    Stopped,
    Deleting,
    Deleted,
    Error,
    Unknown,
}

impl ResourceLifecycle {
    /// The wire name of the lifecycle state.
    pub fn as_str(&self) -> (r: &'static str)
        ensures
            r@ == lifecycle_name(*self),
    {
        match self {
            ResourceLifecycle::Provisioning => "provisioning",
            ResourceLifecycle::Active => "active",
            ResourceLifecycle::Stopped => "stopped",
            ResourceLifecycle::Deleting => "deleting",
            ResourceLifecycle::Deleted => "deleted",
            ResourceLifecycle::Error => "error",
            ResourceLifecycle::Unknown => "unknown",
        }
    }
}

pub open spec fn lifecycle_name(l: ResourceLifecycle) -> Seq<char> {
    match l {
        ResourceLifecycle::Provisioning => "provisioning"@,
        ResourceLifecycle::Active => "active"@,
        ResourceLifecycle::Stopped => "stopped"@,
        ResourceLifecycle::Deleting => "deleting"@,
        ResourceLifecycle::Deleted => "deleted"@,
        ResourceLifecycle::Error => "error"@,
        ResourceLifecycle::Unknown => "unknown"@,
    }
}

#[derive(Debug)]
pub struct Resource {
    pub id: ResourceId,
    pub organization_id: OrganizationId,
    pub resource_type: ResourceType,
    pub name: String,
    pub lifecycle: ResourceLifecycle,
    pub region: Option<String>,
    pub attributes: serde_json::Value,
}

/// What the operator wants a resource to be, as of a version, on the fields it manages.
#[derive(Debug)]
pub struct DesiredState {
    pub version: i64,
    pub managed_fields: Vec<String>,
    pub state: serde_json::Value,
}

/// What the provider last reported of a resource.
#[derive(Debug)]
pub struct ObservedState {
    pub version: i64,
    pub state: serde_json::Value,
}

#[derive(Clone, Copy, Debug, PartialEq, Eq, Structural)]
pub enum DriftStatus {
    InSync,
    Drifted,
    Unknown,
    Ignored,
}

impl DriftStatus {
    /// The wire name of the status.
    pub fn as_str(&self) -> (r: &'static str)
        ensures
            r@ == match *self {
                DriftStatus::InSync => "in_sync"@,
                DriftStatus::Drifted => "drifted"@,
                DriftStatus::Unknown => "unknown"@,
                DriftStatus::Ignored => "ignored"@,
            },
    {
        match self {
            DriftStatus::InSync => "in_sync",
            DriftStatus::Drifted => "drifted",
            DriftStatus::Unknown => "unknown",
            DriftStatus::Ignored => "ignored",
        }
    }
}

/// One managed field whose desired and observed values differ.
#[derive(Debug, PartialEq)]
pub struct FieldDrift {
    pub field: String,
    pub expected: serde_json::Value,
    pub actual: serde_json::Value,
}

#[derive(Debug, PartialEq)]
pub struct DriftEvaluation {
    pub status: DriftStatus,
    pub fingerprint: String,
    pub differences: Vec<FieldDrift>,
}

/// A field drift as plain values: the field, the expected value, the actual value.
pub open spec fn field_drift_view(d: FieldDrift) -> (Seq<char>, serde_json::Value, serde_json::Value) {
    (d.field@, d.expected, d.actual)
}

impl View for DriftEvaluation {
    type V = (DriftStatus, Seq<char>, Seq<(Seq<char>, serde_json::Value, serde_json::Value)>);

    open spec fn view(&self) -> Self::V {
        (self.status, self.fingerprint@, self.differences@.map_values(|d: FieldDrift| field_drift_view(d)))
    }
}

#[derive(Clone, Copy, Debug, PartialEq, Eq, Structural)]
pub enum ResourceError {
    StateMustBeObject,
    InvalidManagedField,
    Serialization,
}

impl ResourceError {
    /// The message of the error.
    pub fn message(&self) -> (r: &'static str)
        ensures
            r@ == match *self {
                ResourceError::StateMustBeObject => "desired and observed states must be JSON objects"@,
                ResourceError::InvalidManagedField => "managed field is invalid"@,
                ResourceError::Serialization => "state serialization failed"@,
            },
    {
        match self {
            ResourceError::StateMustBeObject => "desired and observed states must be JSON objects",
            ResourceError::InvalidManagedField => "managed field is invalid",
            ResourceError::Serialization => "state serialization failed",
        }
    }
}

/// Lexicographic order of character sequences (the order of `String`).
pub open spec fn seq_less(a: Seq<char>, b: Seq<char>) -> bool
    decreases a.len(),
{
    if a.len() == 0 {
        b.len() > 0
    } else if b.len() == 0 {
        false
    } else if a[0] != b[0] {
        (a[0] as u32) < (b[0] as u32)
    } else {
        seq_less(a.drop_first(), b.drop_first())
    }
}

/// Whether `a` sorts before `b`.
pub fn str_less(a: &str, b: &str) -> (r: bool)
    ensures
        r == seq_less(a@, b@),
{
    let x = crate::text::chars_of(a);
    let y = crate::text::chars_of(b);
    let mut i: usize = 0;
    proof {
        assert(a@.skip(0) == a@);
        assert(b@.skip(0) == b@);
    }
    while i < x.len() && i < y.len()
        invariant
            x@ == a@,
            y@ == b@,
            i <= x.len(),
            i <= y.len(),
            seq_less(a@, b@) == seq_less(a@.skip(i as int), b@.skip(i as int)),
        decreases x.len() - i,
    {
        proof {
            assert(a@.skip(i as int)[0] == a@[i as int]);
            assert(b@.skip(i as int)[0] == b@[i as int]);
        }
        if x[i] != y[i] {
            return (x[i] as u32) < (y[i] as u32);
        }
        proof {
            assert(a@.skip(i as int).drop_first() == a@.skip(i + 1));
            assert(b@.skip(i as int).drop_first() == b@.skip(i + 1));
        }
        i += 1;
    }
    i == x.len() && i < y.len()
}

/// `fields` with `field` put in its sorted place, unless it is there already (an insertion
/// into an ordered set).
pub open spec fn insert_field(fields: Seq<Seq<char>>, field: Seq<char>) -> Seq<Seq<char>>
    decreases fields.len(),
{
    if fields.len() == 0 {
        seq![field]
    } else if fields.last() == field {
        fields
    } else if seq_less(fields.last(), field) {
        fields.push(field)
    } else {
        insert_field(fields.drop_last(), field).push(fields.last())
    }
}

/// The managed fields as the ordered set that they are compared in.
pub open spec fn ordered_fields(fields: Seq<Seq<char>>) -> Seq<Seq<char>>
    decreases fields.len(),
{
    if fields.len() == 0 {
        Seq::empty()
    } else {
        insert_field(ordered_fields(fields.drop_last()), fields.last())
    }
}

pub open spec fn field_names(fields: Seq<String>) -> Seq<Seq<char>> {
    fields.map_values(|f: String| f@)
}

/// A managed field names one top-level member: it is not empty and has no dot.
pub open spec fn valid_managed_field(field: Seq<char>) -> bool {
    field.len() > 0 && !field.contains('.')
}

/// The differences over `fields`, in their order: each field whose desired value (or `null`)
/// differs from its observed value (or `null`).
pub open spec fn field_drifts(
    fields: Seq<Seq<char>>,
    desired: serde_json::Value,
    observed: serde_json::Value,
) -> Seq<(Seq<char>, serde_json::Value, serde_json::Value)>
    decreases fields.len(),
{
    if fields.len() == 0 {
        Seq::empty()
    } else {
        let rest = field_drifts(fields.drop_last(), desired, observed);
        let field = fields.last();
        let expected = field_or_null(desired, field);
        let actual = field_or_null(observed, field);
        if json_equal(expected, actual) {
            rest
        } else {
            rest.push((field, expected, actual))
        }
    }
}

/// A difference as the JSON object `{"field", "expected", "actual"}`.
pub open spec fn drift_entry(d: (Seq<char>, serde_json::Value, serde_json::Value)) -> serde_json::Value {
    json_from_entries(
        seq![("field"@, json_from_string(d.0)), ("expected"@, d.1), ("actual"@, d.2)],
    )
}

/// What the fingerprint digests: the desired version and the differences.
pub open spec fn fingerprint_payload(
    version: i64,
    drifts: Seq<(Seq<char>, serde_json::Value, serde_json::Value)>,
) -> serde_json::Value {
    json_from_entries(
        seq![
            ("desired_version"@, json_from_i64(version)),
            ("differences"@, json_from_items(drifts.map_values(|d| drift_entry(d)))),
        ],
    )
}

pub open spec fn drift_fingerprint(
    version: i64,
    drifts: Seq<(Seq<char>, serde_json::Value, serde_json::Value)>,
) -> Seq<char> {
    lower_hex(sha256_digest(json_encoding(fingerprint_payload(version, drifts))))
}

/// The evaluation of drift between a desired state (its version, managed fields and state) and
/// an observed state.
pub open spec fn evaluate_drift(
    version: i64,
    managed: Seq<Seq<char>>,
    desired: serde_json::Value,
    observed: serde_json::Value,
) -> Result<
    (DriftStatus, Seq<char>, Seq<(Seq<char>, serde_json::Value, serde_json::Value)>),
    ResourceError,
> {
    if json_object_entries(desired) is None || json_object_entries(observed) is None {
        Err(ResourceError::StateMustBeObject)
    } else if exists|i: int| 0 <= i < managed.len() && !valid_managed_field(#[trigger] managed[i]) {
        Err(ResourceError::InvalidManagedField)
    } else {
        let drifts = field_drifts(ordered_fields(managed), desired, observed);
        Ok(
            (
                if drifts.len() == 0 {
                    DriftStatus::InSync
                } else {
                    DriftStatus::Drifted
                },
                drift_fingerprint(version, drifts),
                drifts,
            ),
        )
    }
}

/// Puts `field` in its sorted place among `fields`, unless it is there already.
fn insert_field_name(fields: &mut Vec<String>, field: &str)
    ensures
        field_names(final(fields)@) == insert_field(field_names(old(fields)@), field@),
{
    let ghost s = field_names(fields@);
    let mut i: usize = fields.len();
    proof {
        assert(s.subrange(0, i as int) == s);
        assert(s + s.subrange(i as int, s.len() as int) == s);
    }
    loop
        invariant
            i <= fields.len(),
            s == field_names(fields@),
            s.len() == fields@.len(),
            insert_field(s, field@) == insert_field(s.subrange(0, i as int), field@) + s.subrange(
                i as int,
                s.len() as int,
            ),
        ensures
            i <= fields.len(),
            s == field_names(fields@),
            insert_field(s, field@) == insert_field(s.subrange(0, i as int), field@) + s.subrange(
                i as int,
                s.len() as int,
            ),
            i == 0 || s[i - 1] == field@ || seq_less(s[i - 1], field@),
        decreases i,
    {
        if i == 0 {
            break;
        }
        let equal = crate::text::str_equals(fields[i - 1].as_str(), field);
        let less = str_less(fields[i - 1].as_str(), field);
        if equal || less {
            break;
        }
        proof {
            let p = s.subrange(0, i as int);
            assert(p.drop_last() == s.subrange(0, i - 1));
            assert(p.last() == s[i - 1]);
            assert(insert_field(p, field@) == insert_field(s.subrange(0, i - 1), field@).push(
                s[i - 1],
            ));
            assert(insert_field(s.subrange(0, i - 1), field@).push(s[i - 1]) + s.subrange(
                i as int,
                s.len() as int,
            ) == insert_field(s.subrange(0, i - 1), field@) + s.subrange(i - 1, s.len() as int));
        }
        i -= 1;
    }
    let ghost p = s.subrange(0, i as int);
    if i > 0 && crate::text::str_equals(fields[i - 1].as_str(), field) {
        proof {
            assert(p.last() == field@);
            assert(p + s.subrange(i as int, s.len() as int) == s);
        }
    } else {
        proof {
            assert(insert_field(p, field@) == p.push(field@));
            assert(p.push(field@) + s.subrange(i as int, s.len() as int) == s.insert(
                i as int,
                field@,
            ));
        }
        fields.insert(i, crate::text::owned(field));
        proof {
            assert(field_names(fields@) == s.insert(i as int, field@));
        }
    }
}

/// The managed fields in the order they are compared in, each once.
fn ordered_field_names(managed: &Vec<String>) -> (r: Vec<String>)
    ensures
        field_names(r@) == ordered_fields(field_names(managed@)),
{
    let mut out: Vec<String> = Vec::new();
    let mut i: usize = 0;
    while i < managed.len()
        invariant
            i <= managed.len(),
            field_names(out@) == ordered_fields(field_names(managed@).subrange(0, i as int)),
        decreases managed.len() - i,
    {
        proof {
            let next = field_names(managed@).subrange(0, i + 1);
            assert(next.drop_last() == field_names(managed@).subrange(0, i as int));
            assert(next.last() == managed@[i as int]@);
        }
        insert_field_name(&mut out, managed[i].as_str());
        i += 1;
    }
    proof {
        assert(field_names(managed@).subrange(0, managed@.len() as int) == field_names(managed@));
    }
    out
}

/// Compares only the explicitly managed top-level fields of the two states and fingerprints the
/// differences together with the desired version.
pub fn detect_drift(desired: &DesiredState, observed: &ObservedState) -> (r: Result<
    DriftEvaluation,
    ResourceError,
>)
    ensures
        match r {
            Ok(evaluation) => evaluate_drift(
                desired.version,
                field_names(desired.managed_fields@),
                desired.state,
                observed.state,
            ) == Ok::<_, ResourceError>(evaluation@),
            Err(e) => evaluate_drift(
                desired.version,
                field_names(desired.managed_fields@),
                desired.state,
                observed.state,
            ) == Err::<(DriftStatus, Seq<char>, Seq<(Seq<char>, serde_json::Value, serde_json::Value)>), _>(e),
        },
        r matches Ok(evaluation) ==> evaluation.fingerprint@.len() == 64 && forall|i: int|
            0 <= i < 64 ==> is_lower_hex_digit(#[trigger] evaluation.fingerprint@[i]),
{
    if !crate::json::is_object(&desired.state) || !crate::json::is_object(&observed.state) {
        return Err(ResourceError::StateMustBeObject);
    }
    let ghost managed = field_names(desired.managed_fields@);
    let mut k: usize = 0;
    while k < desired.managed_fields.len()
        invariant
            k <= desired.managed_fields.len(),
            managed == field_names(desired.managed_fields@),
            json_object_entries(desired.state) is Some,
            json_object_entries(observed.state) is Some,
            forall|j: int| 0 <= j < k ==> valid_managed_field(#[trigger] managed[j]),
        decreases desired.managed_fields.len() - k,
    {
        let field = desired.managed_fields[k].as_str();
        if field.unicode_len() == 0 || crate::text::contains_char(field, '.') {
            proof {
                assert(0 <= k < managed.len());
                assert(managed[k as int] == field@);
                assert(!valid_managed_field(managed[k as int]));
            }
            return Err(ResourceError::InvalidManagedField);
        }
        k += 1;
    }
    let fields = ordered_field_names(&desired.managed_fields);
    let ghost names = field_names(fields@);
    let mut differences: Vec<FieldDrift> = Vec::new();
    let mut i: usize = 0;
    while i < fields.len()
        invariant
            i <= fields.len(),
            names == field_names(fields@),
            differences@.map_values(|d: FieldDrift| field_drift_view(d)) == field_drifts(
                names.subrange(0, i as int),
                desired.state,
                observed.state,
            ),
        decreases fields.len() - i,
    {
        let field = fields[i].as_str();
        let expected = crate::provider::get_or_null(&desired.state, field);
        let actual = crate::provider::get_or_null(&observed.state, field);
        proof {
            let next = names.subrange(0, i + 1);
            assert(next.drop_last() == names.subrange(0, i as int));
            assert(next.last() == field@);
        }
        if !crate::json::equal(&expected, &actual) {
            let ghost before = differences@;
            differences.push(FieldDrift { field: crate::text::owned(field), expected, actual });
            proof {
                assert(differences@.map_values(|d: FieldDrift| field_drift_view(d)) == before.map_values(
                    |d: FieldDrift| field_drift_view(d),
                ).push(field_drift_view(differences@.last())));
            }
        }
        i += 1;
    }
    proof {
        assert(names.subrange(0, names.len() as int) == names);
    }
    let ghost drifts = differences@.map_values(|d: FieldDrift| field_drift_view(d));
    let mut entries: Vec<serde_json::Value> = Vec::new();
    let mut j: usize = 0;
    while j < differences.len()
        invariant
            j <= differences.len(),
            drifts == differences@.map_values(|d: FieldDrift| field_drift_view(d)),
            entries@ == drifts.subrange(0, j as int).map_values(|d| drift_entry(d)),
        decreases differences.len() - j,
    {
        let d = &differences[j];
        let object = vec![
            ("field".to_owned(), crate::json::from_str(d.field.as_str())),
            ("expected".to_owned(), crate::json::duplicate(&d.expected)),
            ("actual".to_owned(), crate::json::duplicate(&d.actual)),
        ];
        let entry = crate::json::from_entries(object);
        proof {
            assert(crate::json::entry_views(object@) == seq![
                ("field"@, json_from_string(d.field@)),
                ("expected"@, d.expected),
                ("actual"@, d.actual),
            ]);
            assert(drifts.subrange(0, j + 1).map_values(|d| drift_entry(d)) == drifts.subrange(
                0,
                j as int,
            ).map_values(|d| drift_entry(d)).push(drift_entry(drifts[j as int])));
        }
        entries.push(entry);
        j += 1;
    }
    proof {
        assert(drifts.subrange(0, drifts.len() as int) == drifts);
    }
    let payload_entries = vec![
        ("desired_version".to_owned(), crate::json::from_i64(desired.version)),
        ("differences".to_owned(), crate::json::from_items(entries)),
    ];
    let payload = crate::json::from_entries(payload_entries);
    proof {
        assert(crate::json::entry_views(payload_entries@) == seq![
            ("desired_version"@, json_from_i64(desired.version)),
            ("differences"@, json_from_items(drifts.map_values(|d| drift_entry(d)))),
        ]);
    }
    let encoded = match crate::json::encode(&payload) {
        Some(bytes) => bytes,
        None => {
            return Err(ResourceError::Serialization);
        },
    };
    let digest = crate::digest::sha256(encoded.as_slice());
    let fingerprint = crate::digest::to_lower_hex(digest.as_slice());
    let status = if differences.len() == 0 {
        DriftStatus::InSync
    } else {
        DriftStatus::Drifted
    };
    Ok(DriftEvaluation { status, fingerprint, differences })
}

proof fn lemma_insert_field_members(fields: Seq<Seq<char>>, field: Seq<char>)
    ensures
        forall|f: Seq<char>|
            #[trigger] insert_field(fields, field).contains(f) <==> (fields.contains(f) || f == field),
    decreases fields.len(),
{
    if fields.len() == 0 {
        assert(insert_field(fields, field) == seq![field]);
        assert forall|f: Seq<char>| #[trigger]
            insert_field(fields, field).contains(f) <==> (fields.contains(f) || f == field) by {
            if f == field {
                assert(seq![field][0] == f);
            }
        }
    } else if fields.last() == field {
        assert forall|f: Seq<char>| #[trigger]
            insert_field(fields, field).contains(f) <==> (fields.contains(f) || f == field) by {
            if f == field {
                assert(fields[fields.len() - 1] == f);
            }
        }
    } else if seq_less(fields.last(), field) {
        assert forall|f: Seq<char>| #[trigger]
            insert_field(fields, field).contains(f) <==> (fields.contains(f) || f == field) by {
            let p = fields.push(field);
            if fields.contains(f) {
                let i = choose|i: int| 0 <= i < fields.len() && fields[i] == f;
                assert(p[i] == f);
            }
            if f == field {
                assert(p[fields.len() as int] == f);
            }
            if p.contains(f) {
                let i = choose|i: int| 0 <= i < p.len() && p[i] == f;
                if i < fields.len() {
                    assert(fields[i] == f);
                }
            }
        }
    } else {
        let rest = fields.drop_last();
        lemma_insert_field_members(rest, field);
        let q = insert_field(rest, field);
        assert(insert_field(fields, field) == q.push(fields.last()));
        assert forall|f: Seq<char>| #[trigger]
            insert_field(fields, field).contains(f) <==> (fields.contains(f) || f == field) by {
            let p = q.push(fields.last());
            if fields.contains(f) {
                let i = choose|i: int| 0 <= i < fields.len() && fields[i] == f;
                if i == fields.len() - 1 {
                    assert(p[q.len() as int] == f);
                } else {
                    assert(rest[i] == f);
                    assert(rest.contains(f));
                    assert(q.contains(f));
                    let j = choose|j: int| 0 <= j < q.len() && q[j] == f;
                    assert(p[j] == f);
                }
            }
            if f == field {
                assert(q.contains(f));
                let j = choose|j: int| 0 <= j < q.len() && q[j] == f;
                assert(p[j] == f);
            }
            if p.contains(f) {
                let i = choose|i: int| 0 <= i < p.len() && p[i] == f;
                if i == q.len() {
                    assert(fields[fields.len() - 1] == f);
                } else {
                    assert(q[i] == f);
                    assert(q.contains(f));
                    if rest.contains(f) {
                        let j = choose|j: int| 0 <= j < rest.len() && rest[j] == f;
                        assert(fields[j] == f);
                    }
                }
            }
        }
    }
}

/// The ordered fields are exactly the managed ones.
proof fn lemma_ordered_fields_members(fields: Seq<Seq<char>>)
    ensures
        forall|f: Seq<char>| #[trigger] ordered_fields(fields).contains(f) <==> fields.contains(f),
    decreases fields.len(),
{
    if fields.len() > 0 {
        let rest = fields.drop_last();
        lemma_ordered_fields_members(rest);
        lemma_insert_field_members(ordered_fields(rest), fields.last());
        assert forall|f: Seq<char>| #[trigger]
            ordered_fields(fields).contains(f) <==> fields.contains(f) by {
            if fields.contains(f) {
                let i = choose|i: int| 0 <= i < fields.len() && fields[i] == f;
                if i < fields.len() - 1 {
                    assert(rest[i] == f);
                    assert(rest.contains(f));
                }
            }
            if rest.contains(f) {
                let j = choose|j: int| 0 <= j < rest.len() && rest[j] == f;
                assert(fields[j] == f);
            }
            if f == fields.last() {
                assert(fields[fields.len() - 1] == f);
            }
        }
    }
}

/// Two observed states that agree on `fields` give the same differences over them.
proof fn lemma_drifts_agree(
    fields: Seq<Seq<char>>,
    desired: serde_json::Value,
    observed: serde_json::Value,
    other: serde_json::Value,
)
    requires
        forall|f: Seq<char>| fields.contains(f) ==> json_get(observed, f) == json_get(other, f),
    ensures
        field_drifts(fields, desired, observed) == field_drifts(fields, desired, other),
    decreases fields.len(),
{
    if fields.len() > 0 {
        let rest = fields.drop_last();
        assert forall|f: Seq<char>| rest.contains(f) implies json_get(observed, f) == json_get(
            other,
            f,
        ) by {
            let i = choose|i: int| 0 <= i < rest.len() && rest[i] == f;
            assert(fields[i] == f);
        }
        lemma_drifts_agree(rest, desired, observed, other);
        assert(fields[fields.len() - 1] == fields.last());
    }
}

/// No differences over `fields` exactly when every one of them agrees.
proof fn lemma_no_drifts(fields: Seq<Seq<char>>, desired: serde_json::Value, observed: serde_json::Value)
    ensures
        field_drifts(fields, desired, observed).len() == 0 <==> forall|f: Seq<char>|
            fields.contains(f) ==> json_equal(
                field_or_null(desired, f),
                field_or_null(observed, f),
            ),
    decreases fields.len(),
{
    if fields.len() > 0 {
        let rest = fields.drop_last();
        lemma_no_drifts(rest, desired, observed);
        let last = fields.last();
        assert(fields[fields.len() - 1] == last);
        assert(fields.contains(last));
        if field_drifts(fields, desired, observed).len() == 0 {
            assert(json_equal(field_or_null(desired, last), field_or_null(observed, last)));
            assert(field_drifts(rest, desired, observed).len() == 0);
            assert forall|f: Seq<char>| fields.contains(f) implies json_equal(
                field_or_null(desired, f),
                field_or_null(observed, f),
            ) by {
                let i = choose|i: int| 0 <= i < fields.len() && fields[i] == f;
                if i < fields.len() - 1 {
                    assert(rest[i] == f);
                    assert(rest.contains(f));
                }
            }
        }
        if forall|f: Seq<char>|
            fields.contains(f) ==> json_equal(field_or_null(desired, f), field_or_null(observed, f)) {
            assert forall|f: Seq<char>| rest.contains(f) implies json_equal(
                field_or_null(desired, f),
                field_or_null(observed, f),
            ) by {
                let i = choose|i: int| 0 <= i < rest.len() && rest[i] == f;
                assert(fields[i] == f);
                assert(fields.contains(f));
            }
            assert(json_equal(field_or_null(desired, last), field_or_null(observed, last)));
        }
    }
}

/// Drift looks at managed fields only: two observed objects that agree on every managed field
/// evaluate alike against the same desired state, whatever else they hold.
pub proof fn drift_ignores_unmanaged_fields(
    version: i64,
    managed: Seq<Seq<char>>,
    desired: serde_json::Value,
    observed: serde_json::Value,
    other: serde_json::Value,
)
    requires
        json_object_entries(observed) is Some,
        json_object_entries(other) is Some,
        forall|f: Seq<char>| managed.contains(f) ==> json_get(observed, f) == json_get(other, f),
    ensures
        evaluate_drift(version, managed, desired, observed) == evaluate_drift(
            version,
            managed,
            desired,
            other,
        ),
{
    let fields = ordered_fields(managed);
    lemma_ordered_fields_members(managed);
    assert forall|f: Seq<char>| fields.contains(f) implies json_get(observed, f) == json_get(
        other,
        f,
    ) by {
        assert(managed.contains(f));
    }
    lemma_drifts_agree(fields, desired, observed, other);
}

/// A resource is in sync exactly when every managed field has equal desired and observed values
/// (a missing member counting as `null`); otherwise it has drifted.
pub proof fn in_sync_exactly_when_managed_fields_agree(
    version: i64,
    managed: Seq<Seq<char>>,
    desired: serde_json::Value,
    observed: serde_json::Value,
)
    requires
        evaluate_drift(version, managed, desired, observed) is Ok,
    ensures
        ({
            let status = evaluate_drift(version, managed, desired, observed)->Ok_0.0;
            &&& status == DriftStatus::InSync || status == DriftStatus::Drifted
            &&& status == DriftStatus::InSync <==> forall|f: Seq<char>|
                managed.contains(f) ==> json_equal(
                    field_or_null(desired, f),
                    field_or_null(observed, f),
                )
        }),
{
    let fields = ordered_fields(managed);
    lemma_ordered_fields_members(managed);
    lemma_no_drifts(fields, desired, observed);
    if forall|f: Seq<char>|
        fields.contains(f) ==> json_equal(field_or_null(desired, f), field_or_null(observed, f)) {
        assert forall|f: Seq<char>| managed.contains(f) implies json_equal(
            field_or_null(desired, f),
            field_or_null(observed, f),
        ) by {
            assert(fields.contains(f));
        }
    }
    if forall|f: Seq<char>|
        managed.contains(f) ==> json_equal(field_or_null(desired, f), field_or_null(observed, f)) {
        assert forall|f: Seq<char>| fields.contains(f) implies json_equal(
            field_or_null(desired, f),
            field_or_null(observed, f),
        ) by {
            assert(managed.contains(f));
        }
    }
}

/// The fingerprint depends on the desired version and the differences alone, so the same drift
/// is recognised again on a later observation.
pub proof fn fingerprint_depends_on_version_and_differences(
    version: i64,
    managed: Seq<Seq<char>>,
    desired: serde_json::Value,
    observed: serde_json::Value,
    other_managed: Seq<Seq<char>>,
    other_desired: serde_json::Value,
    other_observed: serde_json::Value,
)
    requires
        evaluate_drift(version, managed, desired, observed) is Ok,
        evaluate_drift(version, other_managed, other_desired, other_observed) is Ok,
        evaluate_drift(version, managed, desired, observed)->Ok_0.2 == evaluate_drift(
            version,
            other_managed,
            other_desired,
            other_observed,
        )->Ok_0.2,
    ensures
        evaluate_drift(version, managed, desired, observed) == evaluate_drift(
            version,
            other_managed,
            other_desired,
            other_observed,
        ),
{
}

proof fn lemma_seq_less_irreflexive(a: Seq<char>)
    ensures
        !seq_less(a, a),
    decreases a.len(),
{
    if a.len() > 0 {
        lemma_seq_less_irreflexive(a.drop_first());
    }
}

proof fn lemma_seq_less_transitive(a: Seq<char>, b: Seq<char>, c: Seq<char>)
    requires
        seq_less(a, b),
        seq_less(b, c),
    ensures
        seq_less(a, c),
    decreases a.len(),
{
    if a.len() > 0 && b.len() > 0 && c.len() > 0 && a[0] == b[0] && b[0] == c[0] {
        lemma_seq_less_transitive(a.drop_first(), b.drop_first(), c.drop_first());
    }
}

proof fn lemma_seq_less_total(a: Seq<char>, b: Seq<char>)
    requires
        a != b,
    ensures
        seq_less(a, b) || seq_less(b, a),
    decreases a.len(),
{
    if a.len() == 0 && b.len() == 0 {
        assert(a =~= b);
    } else if a.len() == 0 {
        assert(seq_less(a, b));
    } else if b.len() == 0 {
        assert(seq_less(b, a));
    } else if a[0] != b[0] {
        vstd::utf8::char_u32_cast(a[0], a[0] as u32);
        vstd::utf8::char_u32_cast(b[0], b[0] as u32);
        assert(seq_less(a, b) || seq_less(b, a));
    }
    if a.len() > 0 && b.len() > 0 && a[0] == b[0] {
        if a.drop_first() == b.drop_first() {
            assert(a == seq![a[0]] + a.drop_first());
            assert(b == seq![b[0]] + b.drop_first());
        }
        lemma_seq_less_total(a.drop_first(), b.drop_first());
    }
}

/// Each field sorts strictly before every later one.
pub open spec fn strictly_sorted(fields: Seq<Seq<char>>) -> bool {
    forall|i: int, j: int| 0 <= i < j < fields.len() ==> seq_less(#[trigger] fields[i], #[trigger] fields[j])
}

proof fn lemma_insert_field_sorted(fields: Seq<Seq<char>>, field: Seq<char>)
    requires
        strictly_sorted(fields),
    ensures
        strictly_sorted(insert_field(fields, field)),
    decreases fields.len(),
{
    if fields.len() == 0 {
    } else if fields.last() == field {
    } else if seq_less(fields.last(), field) {
        let p = fields.push(field);
        assert forall|i: int, j: int| 0 <= i < j < p.len() implies seq_less(
            #[trigger] p[i],
            #[trigger] p[j],
        ) by {
            if j == fields.len() {
                if i < fields.len() - 1 {
                    lemma_seq_less_transitive(fields[i], fields.last(), field);
                }
            } else {
                assert(p[i] == fields[i] && p[j] == fields[j]);
            }
        }
    } else {
        let rest = fields.drop_last();
        let last = fields.last();
        lemma_seq_less_total(last, field);
        assert(strictly_sorted(rest)) by {
            assert forall|i: int, j: int| 0 <= i < j < rest.len() implies seq_less(
                #[trigger] rest[i],
                #[trigger] rest[j],
            ) by {
                assert(rest[i] == fields[i] && rest[j] == fields[j]);
            }
        }
        lemma_insert_field_sorted(rest, field);
        lemma_insert_field_members(rest, field);
        let q = insert_field(rest, field);
        let p = q.push(last);
        assert(insert_field(fields, field) == p);
        assert forall|i: int, j: int| 0 <= i < j < p.len() implies seq_less(
            #[trigger] p[i],
            #[trigger] p[j],
        ) by {
            if j == q.len() {
                assert(q.contains(q[i]));
                if q[i] != field {
                    let k = choose|k: int| 0 <= k < rest.len() && rest[k] == q[i];
                    assert(fields[k] == q[i]);
                    assert(seq_less(fields[k], fields[fields.len() - 1]));
                }
            } else {
                assert(p[i] == q[i] && p[j] == q[j]);
            }
        }
    }
}

proof fn lemma_ordered_fields_sorted(fields: Seq<Seq<char>>)
    ensures
        strictly_sorted(ordered_fields(fields)),
    decreases fields.len(),
{
    if fields.len() > 0 {
        lemma_ordered_fields_sorted(fields.drop_last());
        lemma_insert_field_sorted(ordered_fields(fields.drop_last()), fields.last());
    }
}

/// Two strictly sorted sequences of the same members are the same sequence.
proof fn lemma_sorted_unique(a: Seq<Seq<char>>, b: Seq<Seq<char>>)
    requires
        strictly_sorted(a),
        strictly_sorted(b),
        forall|f: Seq<char>| a.contains(f) <==> b.contains(f),
    ensures
        a == b,
    decreases a.len(),
{
    if a.len() == 0 {
        if b.len() > 0 {
            assert(b.contains(b[0]));
        }
        assert(a =~= b);
    } else if b.len() == 0 {
        assert(a.contains(a[0]));
    } else {
        let x = a.last();
        let y = b.last();
        assert(a.contains(x));
        assert(b.contains(y));
        if x != y {
            let j = choose|j: int| 0 <= j < b.len() && b[j] == x;
            let i = choose|i: int| 0 <= i < a.len() && a[i] == y;
            assert(j < b.len() - 1);
            assert(seq_less(b[j], b[b.len() - 1]));
            assert(i < a.len() - 1);
            assert(seq_less(a[i], a[a.len() - 1]));
            lemma_seq_less_transitive(x, y, x);
            lemma_seq_less_irreflexive(x);
        }
        let ra = a.drop_last();
        let rb = b.drop_last();
        assert(strictly_sorted(ra)) by {
            assert forall|i: int, j: int| 0 <= i < j < ra.len() implies seq_less(
                #[trigger] ra[i],
                #[trigger] ra[j],
            ) by {
                assert(ra[i] == a[i] && ra[j] == a[j]);
            }
        }
        assert(strictly_sorted(rb)) by {
            assert forall|i: int, j: int| 0 <= i < j < rb.len() implies seq_less(
                #[trigger] rb[i],
                #[trigger] rb[j],
            ) by {
                assert(rb[i] == b[i] && rb[j] == b[j]);
            }
        }
        assert forall|f: Seq<char>| ra.contains(f) <==> rb.contains(f) by {
            if ra.contains(f) {
                let i = choose|i: int| 0 <= i < ra.len() && ra[i] == f;
                assert(a[i] == f);
                assert(seq_less(a[i], a[a.len() - 1]));
                lemma_seq_less_irreflexive(f);
                assert(b.contains(f));
                let j = choose|j: int| 0 <= j < b.len() && b[j] == f;
                assert(j != b.len() - 1);
                assert(rb[j] == f);
            }
            if rb.contains(f) {
                let j = choose|j: int| 0 <= j < rb.len() && rb[j] == f;
                assert(b[j] == f);
                assert(seq_less(b[j], b[b.len() - 1]));
                lemma_seq_less_irreflexive(f);
                assert(a.contains(f));
                let i = choose|i: int| 0 <= i < a.len() && a[i] == f;
                assert(i != a.len() - 1);
                assert(ra[i] == f);
            }
        }
        lemma_sorted_unique(ra, rb);
        assert(a == ra.push(x));
        assert(b == rb.push(y));
    }
}

/// Two pairs of states that agree on `fields` give the same differences over them.
proof fn lemma_drifts_agree_both(
    fields: Seq<Seq<char>>,
    desired: serde_json::Value,
    observed: serde_json::Value,
    other_desired: serde_json::Value,
    other_observed: serde_json::Value,
)
    requires
        forall|f: Seq<char>|
            fields.contains(f) ==> json_get(desired, f) == json_get(other_desired, f) && json_get(
                observed,
                f,
            ) == json_get(other_observed, f),
    ensures
        field_drifts(fields, desired, observed) == field_drifts(
            fields,
            other_desired,
            other_observed,
        ),
    decreases fields.len(),
{
    if fields.len() > 0 {
        let rest = fields.drop_last();
        assert forall|f: Seq<char>| rest.contains(f) implies json_get(desired, f) == json_get(
            other_desired,
            f,
        ) && json_get(observed, f) == json_get(other_observed, f) by {
            let i = choose|i: int| 0 <= i < rest.len() && rest[i] == f;
            assert(fields[i] == f);
        }
        lemma_drifts_agree_both(rest, desired, observed, other_desired, other_observed);
        assert(fields[fields.len() - 1] == fields.last());
        assert(fields.contains(fields.last()));
    }
}

/// Drift depends on the managed fields as a set and on their values alone: listing the managed
/// fields in another order or with repetitions, and changing what either state holds outside
/// them, leave the evaluation (status, differences and fingerprint) unchanged.
pub proof fn drift_depends_on_managed_set_and_values(
    version: i64,
    managed: Seq<Seq<char>>,
    desired: serde_json::Value,
    observed: serde_json::Value,
    other_managed: Seq<Seq<char>>,
    other_desired: serde_json::Value,
    other_observed: serde_json::Value,
)
    requires
        forall|f: Seq<char>| managed.contains(f) <==> other_managed.contains(f),
        json_object_entries(desired) is Some <==> json_object_entries(other_desired) is Some,
        json_object_entries(observed) is Some <==> json_object_entries(other_observed) is Some,
        forall|f: Seq<char>|
            managed.contains(f) ==> json_get(desired, f) == json_get(other_desired, f) && json_get(
                observed,
                f,
            ) == json_get(other_observed, f),
    ensures
        evaluate_drift(version, managed, desired, observed) == evaluate_drift(
            version,
            other_managed,
            other_desired,
            other_observed,
        ),
{
    let invalid = exists|i: int| 0 <= i < managed.len() && !valid_managed_field(#[trigger] managed[i]);
    let other_invalid = exists|i: int|
        0 <= i < other_managed.len() && !valid_managed_field(#[trigger] other_managed[i]);
    if invalid {
        let i = choose|i: int| 0 <= i < managed.len() && !valid_managed_field(#[trigger] managed[i]);
        assert(managed.contains(managed[i]));
        let j = choose|j: int| 0 <= j < other_managed.len() && other_managed[j] == managed[i];
        assert(!valid_managed_field(other_managed[j]));
    }
    if other_invalid {
        let j = choose|j: int|
            0 <= j < other_managed.len() && !valid_managed_field(#[trigger] other_managed[j]);
        assert(other_managed.contains(other_managed[j]));
        let i = choose|i: int| 0 <= i < managed.len() && managed[i] == other_managed[j];
        assert(!valid_managed_field(managed[i]));
    }
    let fields = ordered_fields(managed);
    let other_fields = ordered_fields(other_managed);
    lemma_ordered_fields_members(managed);
    lemma_ordered_fields_members(other_managed);
    lemma_ordered_fields_sorted(managed);
    lemma_ordered_fields_sorted(other_managed);
    assert forall|f: Seq<char>| fields.contains(f) <==> other_fields.contains(f) by {
        assert(fields.contains(f) <==> managed.contains(f));
        assert(other_fields.contains(f) <==> other_managed.contains(f));
    }
    lemma_sorted_unique(fields, other_fields);
    assert forall|f: Seq<char>| fields.contains(f) implies json_get(desired, f) == json_get(
        other_desired,
        f,
    ) && json_get(observed, f) == json_get(other_observed, f) by {
        assert(managed.contains(f));
    }
    lemma_drifts_agree_both(fields, desired, observed, other_desired, other_observed);
}

/// Each difference over `fields` names one of them and carries the desired and observed values
/// of that field, which differ; each of `fields` whose values differ is among the differences.
proof fn lemma_field_drifts_entries(
    fields: Seq<Seq<char>>,
    desired: serde_json::Value,
    observed: serde_json::Value,
)
    ensures
        forall|i: int|
            0 <= i < field_drifts(fields, desired, observed).len() ==> {
                let d = #[trigger] field_drifts(fields, desired, observed)[i];
                &&& fields.contains(d.0)
                &&& d.1 == field_or_null(desired, d.0)
                &&& d.2 == field_or_null(observed, d.0)
                &&& !json_equal(d.1, d.2)
            },
        forall|f: Seq<char>|
            #![trigger fields.contains(f)]
            fields.contains(f) && !json_equal(field_or_null(desired, f), field_or_null(observed, f))
                ==> exists|i: int|
                0 <= i < field_drifts(fields, desired, observed).len() && (#[trigger] field_drifts(
                    fields,
                    desired,
                    observed,
                )[i]).0 == f,
    decreases fields.len(),
{
    if fields.len() > 0 {
        let rest = fields.drop_last();
        let last = fields.last();
        lemma_field_drifts_entries(rest, desired, observed);
        let fd = field_drifts(fields, desired, observed);
        let rd = field_drifts(rest, desired, observed);
        assert(fields[fields.len() - 1] == last);
        assert forall|i: int| 0 <= i < fd.len() implies {
            let d = #[trigger] fd[i];
            &&& fields.contains(d.0)
            &&& d.1 == field_or_null(desired, d.0)
            &&& d.2 == field_or_null(observed, d.0)
            &&& !json_equal(d.1, d.2)
        } by {
            if i < rd.len() {
                assert(fd[i] == rd[i]);
                let k = choose|k: int| 0 <= k < rest.len() && rest[k] == rd[i].0;
                assert(fields[k] == rd[i].0);
            }
        }
        assert forall|f: Seq<char>|
            fields.contains(f) && !json_equal(field_or_null(desired, f), field_or_null(observed, f))
                implies exists|i: int| 0 <= i < fd.len() && (#[trigger] fd[i]).0 == f by {
            if f == last {
                assert(fd[rd.len() as int].0 == f);
            } else {
                let k = choose|k: int| 0 <= k < fields.len() && fields[k] == f;
                assert(rest[k] == f);
                assert(rest.contains(f));
                let i = choose|i: int| 0 <= i < rd.len() && (#[trigger] rd[i]).0 == f;
                assert(fd[i] == rd[i]);
            }
        }
    }
}

/// A drift report is faithful to the two states: each difference names a managed field and
/// carries the desired state's value of it (or `null`) as expected and the observed state's value
/// (or `null`) as actual, and the two differ; every managed field whose two values differ is
/// reported.
pub proof fn drift_reports_desired_and_observed_values(
    version: i64,
    managed: Seq<Seq<char>>,
    desired: serde_json::Value,
    observed: serde_json::Value,
)
    requires
        evaluate_drift(version, managed, desired, observed) is Ok,
    ensures
        ({
            let drifts = evaluate_drift(version, managed, desired, observed)->Ok_0.2;
            &&& forall|i: int|
                0 <= i < drifts.len() ==> {
                    let d = #[trigger] drifts[i];
                    &&& managed.contains(d.0)
                    &&& d.1 == match json_get(desired, d.0) {
                        Some(v) => v,
                        None => json_null(),
                    }
                    &&& d.2 == match json_get(observed, d.0) {
                        Some(v) => v,
                        None => json_null(),
                    }
                    &&& !json_equal(d.1, d.2)
                }
            &&& forall|f: Seq<char>|
                #![trigger managed.contains(f)]
                managed.contains(f) && !json_equal(
                    match json_get(desired, f) {
                        Some(v) => v,
                        None => json_null(),
                    },
                    match json_get(observed, f) {
                        Some(v) => v,
                        None => json_null(),
                    },
                ) ==> exists|i: int| 0 <= i < drifts.len() && (#[trigger] drifts[i]).0 == f
        }),
{
    let fields = ordered_fields(managed);
    lemma_ordered_fields_members(managed);
    lemma_field_drifts_entries(fields, desired, observed);
    let drifts = evaluate_drift(version, managed, desired, observed)->Ok_0.2;
    assert(drifts == field_drifts(fields, desired, observed));
    assert forall|f: Seq<char>|
        #![trigger managed.contains(f)]
        managed.contains(f) && !json_equal(field_or_null(desired, f), field_or_null(observed, f))
            implies exists|i: int| 0 <= i < drifts.len() && (#[trigger] drifts[i]).0 == f by {
        assert(fields.contains(f));
    }
}

} // verus!
