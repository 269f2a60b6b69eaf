//! Support ticket lifecycle, priorities and SLA deadlines.
use crate::kernel::{Span, Timestamp, MAX_UNIX_NANOS, MIN_UNIX_NANOS, NANOS_PER_MINUTE};
use crate::text::str_equals;
use vstd::prelude::*;

verus! {

#[derive(Clone, Copy, Debug, PartialEq, Eq, Structural)]
pub enum TicketStatus {
    Open,
    InProgress,
    WaitingOnCustomer,
    Resolved,
    Closed,
}

#[derive(Clone, Copy, Debug, PartialEq, Eq, Structural)]
pub enum TicketPriority {
    Low,
    Normal,
    High,
    Urgent,
}

#[derive(Clone, Copy, Debug, PartialEq, Eq, Structural)]
pub enum TicketError {
    InvalidStatus,
    InvalidPriority,
    InvalidTransition,
}

/// The persisted and API representation of a status.
pub open spec fn status_text(status: TicketStatus) -> Seq<char> {
    match status {
        TicketStatus::Open => "open"@,
        TicketStatus::InProgress => "in_progress"@,
        TicketStatus::WaitingOnCustomer => "waiting_on_customer"@,
        TicketStatus::Resolved => "resolved"@,
        TicketStatus::Closed => "closed"@,
    }
}

/// The status a text names, or `InvalidStatus`.
pub open spec fn parse_status(value: Seq<char>) -> Result<TicketStatus, TicketError> {
    if value == "open"@ {
        Ok(TicketStatus::Open)
    } else if value == "in_progress"@ {
        Ok(TicketStatus::InProgress)
    } else if value == "waiting_on_customer"@ {
        Ok(TicketStatus::WaitingOnCustomer)
    } else if value == "resolved"@ {
        Ok(TicketStatus::Resolved)
    } else if value == "closed"@ {
        Ok(TicketStatus::Closed)
    } else {
        Err(TicketError::InvalidStatus)
    }
}

/// The lifecycle: staying put is always allowed; a closed ticket can only be reopened.
pub open spec fn transition_allowed(from: TicketStatus, to: TicketStatus) -> bool {
    from == to || match from {
        TicketStatus::Open => to == TicketStatus::InProgress || to == TicketStatus::Resolved || to
            == TicketStatus::Closed,
        TicketStatus::InProgress => to == TicketStatus::WaitingOnCustomer || to
            == TicketStatus::Resolved || to == TicketStatus::Closed,
        TicketStatus::WaitingOnCustomer => to == TicketStatus::InProgress || to
            == TicketStatus::Resolved || to == TicketStatus::Closed,
        TicketStatus::Resolved => to == TicketStatus::Open || to == TicketStatus::Closed,
        TicketStatus::Closed => to == TicketStatus::Open,
    }
}

/// The priority a text names, or `InvalidPriority`.
pub open spec fn parse_priority(value: Seq<char>) -> Result<TicketPriority, TicketError> {
    if value == "low"@ {
        Ok(TicketPriority::Low)
    } else if value == "normal"@ {
        Ok(TicketPriority::Normal)
    } else if value == "high"@ {
        Ok(TicketPriority::High)
    } else if value == "urgent"@ {
        Ok(TicketPriority::Urgent)
    } else {
        Err(TicketError::InvalidPriority)
    }
}

impl TicketStatus {
    /// Parses the persisted/API status representation.
    pub fn parse(value: &str) -> (r: Result<TicketStatus, TicketError>)
        ensures
            r == parse_status(value@),
    {
        if str_equals(value, "open") {
            Ok(TicketStatus::Open)
        } else if str_equals(value, "in_progress") {
            Ok(TicketStatus::InProgress)
        } else if str_equals(value, "waiting_on_customer") {
            Ok(TicketStatus::WaitingOnCustomer)
        } else if str_equals(value, "resolved") {
            Ok(TicketStatus::Resolved)
        } else if str_equals(value, "closed") {
            Ok(TicketStatus::Closed)
        } else {
            Err(TicketError::InvalidStatus)
        }
    }

    pub fn as_str(self) -> (r: &'static str)
        ensures
            r@ == status_text(self),
    {
        match self {
            TicketStatus::Open => "open",
            TicketStatus::InProgress => "in_progress",
            TicketStatus::WaitingOnCustomer => "waiting_on_customer",
            TicketStatus::Resolved => "resolved",
            TicketStatus::Closed => "closed",
        }
    }

    /// Validates a lifecycle transition.
    pub fn transition_to(self, next: TicketStatus) -> (r: Result<(), TicketError>)
        ensures
            r == if transition_allowed(self, next) {
                Ok::<(), TicketError>(())
            } else {
                Err(TicketError::InvalidTransition)
            },
    {
        let allowed = self == next || match self {
            TicketStatus::Open => next == TicketStatus::InProgress || next == TicketStatus::Resolved
                || next == TicketStatus::Closed,
            TicketStatus::InProgress => next == TicketStatus::WaitingOnCustomer || next
                == TicketStatus::Resolved || next == TicketStatus::Closed,
            TicketStatus::WaitingOnCustomer => next == TicketStatus::InProgress || next
                == TicketStatus::Resolved || next == TicketStatus::Closed,
            TicketStatus::Resolved => next == TicketStatus::Open || next == TicketStatus::Closed,
            TicketStatus::Closed => next == TicketStatus::Open,
        };
        if allowed {
            Ok(())
        } else {
            Err(TicketError::InvalidTransition)
        }
    }
}

impl TicketPriority {
    /// Parses the persisted/API priority representation.
    pub fn parse(value: &str) -> (r: Result<TicketPriority, TicketError>)
        ensures
            r == parse_priority(value@),
    {
        if str_equals(value, "low") {
            Ok(TicketPriority::Low)
        } else if str_equals(value, "normal") {
            Ok(TicketPriority::Normal)
        } else if str_equals(value, "high") {
            Ok(TicketPriority::High)
        } else if str_equals(value, "urgent") {
            Ok(TicketPriority::Urgent)
        } else {
            Err(TicketError::InvalidPriority)
        }
    }
}

/// The response and resolution deadlines of a ticket.
#[derive(Clone, Copy, Debug, PartialEq, Eq, Structural)]
pub struct SlaTarget {
    pub response_due_at: Timestamp,
    pub resolution_due_at: Timestamp,
}

/// The instant `minutes` minutes after `now`.
pub open spec fn minutes_after(now: Timestamp, minutes: int) -> int {
    now.unix_nanos + minutes * NANOS_PER_MINUTE
}

/// The deadlines `response_minutes` and `resolution_minutes` after `now`; both must be
/// representable instants.
pub fn sla_target(now: Timestamp, response_minutes: i32, resolution_minutes: i32) -> (r: SlaTarget)
    requires
        MIN_UNIX_NANOS <= minutes_after(now, response_minutes as int) <= MAX_UNIX_NANOS,
        MIN_UNIX_NANOS <= minutes_after(now, resolution_minutes as int) <= MAX_UNIX_NANOS,
    ensures
        r.response_due_at.unix_nanos == minutes_after(now, response_minutes as int),
        r.resolution_due_at.unix_nanos == minutes_after(now, resolution_minutes as int),
{
    SlaTarget {
        response_due_at: now.plus(Span::minutes(response_minutes as i64)),
        resolution_due_at: now.plus(Span::minutes(resolution_minutes as i64)),
    }
}

/// Every persisted status text names the status it came from.
pub proof fn status_text_round_trip(status: TicketStatus)
    ensures
        parse_status(status_text(status)) == Ok::<TicketStatus, TicketError>(status),
{
    reveal_strlit("open");
    reveal_strlit("in_progress");
    reveal_strlit("waiting_on_customer");
    reveal_strlit("resolved");
    reveal_strlit("closed");
    assert("open"@.len() == 4);
    assert("in_progress"@.len() == 11);
    assert("waiting_on_customer"@.len() == 19);
    assert("resolved"@.len() == 8);
    assert("closed"@.len() == 6);
}

/// Keeping a ticket in its current status is always a valid transition.
pub proof fn transition_to_same_status_is_allowed(status: TicketStatus)
    ensures
        transition_allowed(status, status),
{
}

/// A closed ticket must be reopened before any work resumes on it.
pub proof fn closed_ticket_only_reopens(next: TicketStatus)
    ensures
        transition_allowed(TicketStatus::Closed, next) <==> (next == TicketStatus::Closed || next
            == TicketStatus::Open),
{
}

/// Any status can be left toward `Closed`, and a closed ticket can always be reopened.
pub proof fn every_status_can_close_and_reopen(status: TicketStatus)
    ensures
        transition_allowed(status, TicketStatus::Closed),
        transition_allowed(TicketStatus::Closed, TicketStatus::Open),
{
}

} // verus!
