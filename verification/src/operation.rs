//! Long-running operations, domain events and the retry policy of the outbox and workers.
use crate::kernel::{EventId, OperationId, OrganizationId, Span, Timestamp, UserId, NANOS_PER_SECOND};
use vstd::prelude::*;

verus! {

#[derive(Clone, Copy, Debug, PartialEq, Eq, Structural)]
pub enum OperationStatus {
    Queued,
    Running,
    Succeeded,
    Failed,
    Cancelled,
    TimedOut,
}

impl OperationStatus {
    /// A terminal status is one that no further work changes.
    pub open spec fn terminal(self) -> bool {
        self == OperationStatus::Succeeded || self == OperationStatus::Failed || self
            == OperationStatus::Cancelled || self == OperationStatus::TimedOut
    }

    pub fn is_terminal(self) -> (r: bool)
        ensures
            r == self.terminal(),
    {
        match self {
            OperationStatus::Succeeded | OperationStatus::Failed | OperationStatus::Cancelled
            | OperationStatus::TimedOut => true,
            OperationStatus::Queued | OperationStatus::Running => false,
        }
    }
}

/// Exactly the statuses in which work is still pending are non-terminal.
pub proof fn only_pending_statuses_are_open(status: OperationStatus)
    ensures
        !status.terminal() <==> (status == OperationStatus::Queued || status
            == OperationStatus::Running),
{
}

#[derive(Clone, Debug)]
pub struct Operation {
    pub id: OperationId,
    pub organization_id: OrganizationId,
    pub operation_type: String,
    pub target_type: String,
    pub target_id: Option<String>,
    pub requested_by: UserId,
    pub idempotency_key: String,
    pub status: OperationStatus,
    pub progress: u8,
    pub error_code: Option<String>,
    pub error_message: Option<String>,
    pub created_at: Timestamp,
}

/// A domain event as the transactional outbox carries it.
#[derive(Debug)]
pub struct EventEnvelope {
    pub id: EventId,
    pub organization_id: OrganizationId,
    pub aggregate_type: String,
    pub aggregate_id: String,
    pub event_type: String,
    pub event_version: u16,
    pub payload: serde_json::Value,
    pub trace_id: Option<String>,
    pub occurred_at: Timestamp,
}

#[derive(Clone, Copy, Debug, PartialEq, Eq, Structural)]
pub enum OperationError {
    NotFound,
    Terminal,
    InvalidProgress,
    Persistence,
}

/// How often, and how far apart, a failed delivery or provider call is retried.
#[derive(Clone, Copy, Debug)]
pub struct RetryPolicy {
    pub max_attempts: u32,
    pub initial_delay: Span,
    pub max_delay: Span,
}

/// `2^e`.
pub open spec fn pow2(e: nat) -> int
    decreases e,
{
    if e == 0 {
        1
    } else {
        2 * pow2((e - 1) as nat)
    }
}

/// The exponent of the backoff of an attempt: attempts count from one, and the growth stops at
/// `2^31`.
pub open spec fn backoff_exponent(attempt: u32) -> nat {
    if attempt == 0 {
        0
    } else if attempt - 1 > 31 {
        31
    } else {
        (attempt - 1) as nat
    }
}

/// `x` saturated into the `i64` range.
pub open spec fn saturate_i64(x: int) -> int {
    if x > i64::MAX {
        i64::MAX as int
    } else if x < i64::MIN {
        i64::MIN as int
    } else {
        x
    }
}

impl RetryPolicy {
    /// Both delays are spans that `time::Duration` can hold.
    pub open spec fn wf(self) -> bool {
        self.initial_delay.in_range() && self.max_delay.in_range()
    }

    /// The delay before an attempt, in whole seconds: the initial delay doubled per earlier
    /// attempt, saturated to `i64`, and capped at the maximum delay.
    pub open spec fn delay_seconds(self, attempt: u32) -> int {
        let grown = saturate_i64(
            Span::whole_seconds_of(self.initial_delay.nanos as int) * pow2(
                backoff_exponent(attempt),
            ),
        );
        let cap = Span::whole_seconds_of(self.max_delay.nanos as int);
        if grown < cap {
            grown
        } else {
            cap
        }
    }

    /// Ten attempts, one second growing to at most five minutes.
    pub fn default() -> (r: RetryPolicy)
        ensures
            r.max_attempts == 10,
            r.initial_delay.nanos == NANOS_PER_SECOND,
            r.max_delay.nanos == 300 * NANOS_PER_SECOND,
    {
        RetryPolicy {
            max_attempts: 10,
            initial_delay: Span::seconds(1),
            max_delay: Span::minutes(5),
        }
    }

    /// The delay to wait before `attempt`.
    pub fn delay_for_attempt(self, attempt: u32) -> (r: Span)
        requires
            self.wf(),
        ensures
            r.nanos == self.delay_seconds(attempt) * NANOS_PER_SECOND,
    {
        let exponent: u32 = if attempt == 0 {
            0
        } else if attempt - 1 > 31 {
            31
        } else {
            attempt - 1
        };
        let mut multiplier: i64 = 1;
        let mut k: u32 = 0;
        while k < exponent
            invariant
                exponent <= 31,
                k <= exponent,
                multiplier == pow2(k as nat),
                1 <= multiplier <= 0x8000_0000,
            decreases exponent - k,
        {
            proof {
                lemma_pow2_monotone((k + 1) as nat, 31);
                lemma_pow2_31();
            }
            multiplier = multiplier * 2;
            k += 1;
        }
        let initial = self.initial_delay.whole_seconds();
        proof {
            assert(-0x8000_0000_0000_0000 * 0x8000_0000 <= initial as int * multiplier as int
                <= 0x7fff_ffff_ffff_ffff * 0x8000_0000) by (nonlinear_arith)
                requires
                    1 <= multiplier <= 0x8000_0000,
                    i64::MIN <= initial <= i64::MAX,
            ;
        }
        let product: i128 = initial as i128 * multiplier as i128;
        let grown: i64 = if product > i64::MAX as i128 {
            i64::MAX
        } else if product < i64::MIN as i128 {
            i64::MIN
        } else {
            product as i64
        };
        let cap = self.max_delay.whole_seconds();
        let seconds = if grown < cap {
            grown
        } else {
            cap
        };
        Span::seconds(seconds)
    }

    /// Whether `attempt` has used up the allowed attempts.
    pub fn should_dead_letter(self, attempt: u32) -> (r: bool)
        ensures
            r == (attempt >= self.max_attempts),
    {
        attempt >= self.max_attempts
    }
}

proof fn lemma_pow2_31()
    ensures
        pow2(31) == 0x8000_0000,
{
    reveal_with_fuel(pow2, 32);
}

proof fn lemma_pow2_monotone(a: nat, b: nat)
    requires
        a <= b,
    ensures
        1 <= pow2(a) <= pow2(b),
    decreases b,
{
    if b > 0 {
        if a < b {
            lemma_pow2_monotone(a, (b - 1) as nat);
        } else {
            lemma_pow2_monotone((a - 1) as nat, (b - 1) as nat);
        }
    }
}

/// The delay never exceeds the maximum delay.
pub proof fn retry_delay_is_capped(policy: RetryPolicy, attempt: u32)
    ensures
        policy.delay_seconds(attempt) <= Span::whole_seconds_of(policy.max_delay.nanos as int),
{
}

/// With a non-negative initial delay, a later attempt never waits less than an earlier one.
pub proof fn retry_delay_is_monotone(policy: RetryPolicy, earlier: u32, later: u32)
    requires
        earlier <= later,
        policy.initial_delay.nanos >= 0,
    ensures
        policy.delay_seconds(earlier) <= policy.delay_seconds(later),
{
    let base = Span::whole_seconds_of(policy.initial_delay.nanos as int);
    assert(base >= 0);
    lemma_pow2_monotone(backoff_exponent(earlier), backoff_exponent(later));
    let p = pow2(backoff_exponent(earlier));
    let q = pow2(backoff_exponent(later));
    assert(base * p <= base * q) by (nonlinear_arith)
        requires
            base >= 0,
            p <= q,
    ;
}

/// A policy whose delays are at least a second never waits less than a second.
pub proof fn retry_delay_is_at_least_a_second(policy: RetryPolicy, attempt: u32)
    requires
        policy.initial_delay.nanos >= NANOS_PER_SECOND,
        policy.max_delay.nanos >= NANOS_PER_SECOND,
    ensures
        policy.delay_seconds(attempt) >= 1,
{
    lemma_pow2_monotone(0, backoff_exponent(attempt));
    let base = Span::whole_seconds_of(policy.initial_delay.nanos as int);
    assert(base >= 1);
    let p = pow2(backoff_exponent(attempt));
    assert(base * p >= 1) by (nonlinear_arith)
        requires
            base >= 1,
            p >= 1,
    ;
}

/// Once an attempt is dead-lettered, every later attempt is too.
pub proof fn dead_letter_is_final(policy: RetryPolicy, attempt: u32, later: u32)
    requires
        attempt <= later,
        attempt >= policy.max_attempts,
    ensures
        later >= policy.max_attempts,
{
}

} // verus!
