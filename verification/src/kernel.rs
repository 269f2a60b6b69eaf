//! Identifiers and time values shared by every bounded context.
//!
//! Identifiers are UUIDs held as their 128-bit value; instants are UTC Unix timestamps in
//! nanoseconds and spans are signed nanosecond counts, the exact resolution of the `time` crate.
use vstd::prelude::*;

verus! {

/// Nanoseconds in one second.
pub const NANOS_PER_SECOND: i128 = 1_000_000_000;

/// Nanoseconds in one minute.
pub const NANOS_PER_MINUTE: i128 = 60_000_000_000;

/// The earliest representable instant, `-9999-01-01T00:00:00Z`.
pub const MIN_UNIX_NANOS: i128 = -377_705_116_800_000_000_000;

/// The latest representable instant, `9999-12-31T23:59:59.999999999Z`.
pub const MAX_UNIX_NANOS: i128 = 253_402_300_799_999_999_999;

/// A UTC instant.
#[derive(Clone, Copy, Debug, PartialEq, Eq, Structural)]
pub struct Timestamp {
    pub unix_nanos: i128,
}

impl Timestamp {
    /// The instant lies in the range that calendar dates can represent.
    pub open spec fn in_range(self) -> bool {
        MIN_UNIX_NANOS <= self.unix_nanos <= MAX_UNIX_NANOS
    }

    /// The Unix epoch, `1970-01-01T00:00:00Z`.
    pub fn unix_epoch() -> (r: Timestamp)
        ensures
            r.unix_nanos == 0,
    {
        Timestamp { unix_nanos: 0 }
    }

    /// Whether `self` lies strictly after `other`.
    pub fn is_after(self, other: Timestamp) -> (r: bool)
        ensures
            r == (self.unix_nanos > other.unix_nanos),
    {
        self.unix_nanos > other.unix_nanos
    }

    /// `self + span`, which must stay in the representable range.
    pub fn plus(self, span: Span) -> (r: Timestamp)
        requires
            MIN_UNIX_NANOS <= self.unix_nanos + span.nanos <= MAX_UNIX_NANOS,
        ensures
            r.unix_nanos == self.unix_nanos + span.nanos,
    {
        Timestamp { unix_nanos: self.unix_nanos + span.nanos }
    }
}

/// A signed span of time (`time::Duration`).
#[derive(Clone, Copy, Debug, PartialEq, Eq, Structural)]
pub struct Span {
    pub nanos: i128,
}

impl Span {
    /// `Duration::seconds`.
    pub fn seconds(seconds: i64) -> (r: Span)
        ensures
            r.nanos == seconds * NANOS_PER_SECOND,
    {
        Span { nanos: seconds as i128 * NANOS_PER_SECOND }
    }

    /// `Duration::minutes`, for a number of minutes whose seconds fit in an `i64`.
    pub fn minutes(minutes: i64) -> (r: Span)
        requires
            i64::MIN <= minutes * 60 <= i64::MAX,
        ensures
            r.nanos == minutes * NANOS_PER_MINUTE,
    {
        Span { nanos: minutes as i128 * NANOS_PER_MINUTE }
    }

    /// The whole seconds of the span, rounded toward zero (`Duration::whole_seconds`).
    pub open spec fn whole_seconds_of(nanos: int) -> int {
        if nanos >= 0 {
            nanos / NANOS_PER_SECOND as int
        } else {
            -((-nanos) / NANOS_PER_SECOND as int)
        }
    }

    /// The span stays within what `time::Duration` can hold.
    pub open spec fn in_range(self) -> bool {
        i64::MIN * NANOS_PER_SECOND <= self.nanos <= i64::MAX * NANOS_PER_SECOND + 999_999_999
    }

    /// `Duration::whole_seconds`.
    pub fn whole_seconds(self) -> (r: i64)
        requires
            self.in_range(),
        ensures
            r == Self::whole_seconds_of(self.nanos as int),
    {
        if self.nanos >= 0 {
            (self.nanos / NANOS_PER_SECOND) as i64
        } else {
            let magnitude = -self.nanos;
            let whole = magnitude / NANOS_PER_SECOND;
            proof {
                assert(whole <= -(i64::MIN as int));
            }
            (-whole) as i64
        }
    }
}

/// An organization (tenant) identifier.
#[derive(Clone, Copy, Debug, PartialEq, Eq, Hash, Structural)]
pub struct OrganizationId(pub u128);

/// A user identifier.
#[derive(Clone, Copy, Debug, PartialEq, Eq, Hash, Structural)]
pub struct UserId(pub u128);

/// A session identifier.
#[derive(Clone, Copy, Debug, PartialEq, Eq, Hash, Structural)]
pub struct SessionId(pub u128);

/// An event identifier.
#[derive(Clone, Copy, Debug, PartialEq, Eq, Hash, Structural)]
pub struct EventId(pub u128);

/// An operation identifier.
#[derive(Clone, Copy, Debug, PartialEq, Eq, Hash, Structural)]
pub struct OperationId(pub u128);

/// An invitation identifier.
#[derive(Clone, Copy, Debug, PartialEq, Eq, Hash, Structural)]
pub struct InvitationId(pub u128);

/// A membership identifier.
#[derive(Clone, Copy, Debug, PartialEq, Eq, Hash, Structural)]
pub struct MembershipId(pub u128);

/// A resource identifier.
#[derive(Clone, Copy, Debug, PartialEq, Eq, Hash, Structural)]
pub struct ResourceId(pub u128);

} // verus!
