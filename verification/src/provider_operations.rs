//! The life of a provider operation: attempts are numbered, failures are retried with backoff
//! while the error allows and attempts remain, and undeliverable outbox events are dead-lettered.
use crate::kernel::{Span, Timestamp, MAX_UNIX_NANOS, MIN_UNIX_NANOS, NANOS_PER_SECOND};
use crate::operation::{OperationStatus, RetryPolicy};
use crate::provider::{category_name, ProviderError};
use crate::text::take_chars;
use vstd::prelude::*;

verus! {

/// The retry policy that provider operations and outbox deliveries follow.
pub open spec fn default_policy() -> RetryPolicy {
    RetryPolicy {
        max_attempts: 10,
        initial_delay: Span { nanos: NANOS_PER_SECOND },
        max_delay: Span { nanos: 300_000_000_000i128 },
    }
}

/// The number of the next attempt: one after the latest (saturating), or the first.
pub fn next_attempt_number(latest: Option<i32>) -> (r: i32)
    ensures
        r == match latest {
            Some(n) => if n == i32::MAX {
                i32::MAX as int
            } else {
                n + 1
            },
            None => 1,
        },
{
    match latest {
        Some(n) => if n == i32::MAX {
            i32::MAX
        } else {
            n + 1
        },
        None => 1,
    }
}

/// A stored attempt number as the retry policy counts it; a negative one counts as exhausted.
pub open spec fn attempt_index(attempt: i32) -> u32 {
    if attempt >= 0 {
        attempt as u32
    } else {
        u32::MAX
    }
}

fn attempt_index_of(attempt: i32) -> (r: u32)
    ensures
        r == attempt_index(attempt),
{
    if attempt >= 0 {
        attempt as u32
    } else {
        u32::MAX
    }
}

/// A failed attempt is retried when the error is retryable and attempts remain.
pub open spec fn retries(error: ProviderError, attempt: i32) -> bool {
    error.retryable && attempt_index(attempt) < default_policy().max_attempts
}

/// How long a retry waits: as long as the provider asked (at most `i64::MAX` seconds), or the
/// policy's backoff for the attempt.
pub open spec fn retry_delay_nanos(error: ProviderError, attempt: i32) -> int {
    match error.retry_after_seconds {
        Some(seconds) => (if seconds > i64::MAX {
            i64::MAX as int
        } else {
            seconds as int
        }) * NANOS_PER_SECOND,
        None => default_policy().delay_seconds(attempt_index(attempt)) * NANOS_PER_SECOND,
    }
}

/// What a failed attempt leads to.
#[derive(Debug)]
pub struct FailurePlan {
    /// The operation goes back to the queue.
    pub retry: bool,
    /// When the retry may run, recorded on the attempt.
    pub retry_at: Option<Timestamp>,
    /// The operation's new status.
    pub status: OperationStatus,
    /// When the operation may next run.
    pub next_attempt_at: Timestamp,
    /// When the operation ended, if it did.
    pub completed_at: Option<Timestamp>,
    /// The error category recorded on the attempt.
    pub error_category: &'static str,
    /// The event announcing the failure.
    pub event_type: &'static str,
}

/// Plans what a failed attempt leads to: a retry at `now` plus the delay, or the end of the
/// operation.
pub fn plan_failure(attempt_number: i32, error: &ProviderError, now: Timestamp) -> (r: FailurePlan)
    requires
        now.in_range(),
        retries(*error, attempt_number) ==> MIN_UNIX_NANOS <= now.unix_nanos + retry_delay_nanos(
            *error,
            attempt_number,
        ) <= MAX_UNIX_NANOS,
    ensures
        r.retry == retries(*error, attempt_number),
        r.retry ==> r.retry_at == Some(
            Timestamp {
                unix_nanos: (now.unix_nanos + retry_delay_nanos(*error, attempt_number)) as i128,
            },
        ),
        !r.retry ==> r.retry_at is None,
        r.status == if r.retry {
            OperationStatus::Queued
        } else {
            OperationStatus::Failed
        },
        r.next_attempt_at == match r.retry_at {
            Some(t) => t,
            None => now,
        },
        r.completed_at == if r.retry {
            None
        } else {
            Some(now)
        },
        r.error_category@ == category_name(error.category),
        r.event_type@ == if r.retry {
            "provider.operation.retry_scheduled"@
        } else {
            "provider.operation.failed"@
        },
{
    let policy = RetryPolicy::default();
    let attempt = attempt_index_of(attempt_number);
    let retry = error.retryable && !policy.should_dead_letter(attempt);
    let retry_at = if retry {
        let delay = match error.retry_after_seconds {
            Some(seconds) => {
                let whole: i64 = if seconds > 9_223_372_036_854_775_807u64 {
                    i64::MAX
                } else {
                    seconds as i64
                };
                Span::seconds(whole)
            },
            None => {
                proof {
                    assert(policy.wf());
                }
                policy.delay_for_attempt(attempt)
            },
        };
        Some(now.plus(delay))
    } else {
        None
    };
    FailurePlan {
        retry,
        retry_at,
        status: if retry {
            OperationStatus::Queued
        } else {
            OperationStatus::Failed
        },
        next_attempt_at: match retry_at {
            Some(t) => t,
            None => now,
        },
        completed_at: if retry {
            None
        } else {
            Some(now)
        },
        error_category: error.category.as_str(),
        event_type: if retry {
            "provider.operation.retry_scheduled"
        } else {
            "provider.operation.failed"
        },
    }
}

/// What an outbox event that could not be published leads to.
#[derive(Debug)]
pub struct PublishRetry {
    /// The attempts made, this one included.
    pub attempt_count: i32,
    /// The event is given up on.
    pub dead_lettered: bool,
    /// When the next attempt may run, unless given up on.
    pub next_attempt_at: Option<Timestamp>,
}

/// Plans the next delivery of an outbox event after a failed publish: after ten attempts it is
/// dead-lettered, otherwise retried after the policy's backoff.
pub fn plan_publish_failure(attempt_count: i32, now: Timestamp) -> (r: PublishRetry)
    requires
        attempt_count < i32::MAX,
        now.in_range(),
        now.unix_nanos + 300 * NANOS_PER_SECOND <= MAX_UNIX_NANOS,
    ensures
        r.attempt_count == attempt_count + 1,
        r.dead_lettered == (attempt_index((attempt_count + 1) as i32) >= 10),
        r.dead_lettered ==> r.next_attempt_at is None,
        !r.dead_lettered ==> r.next_attempt_at == Some(
            Timestamp {
                unix_nanos: (now.unix_nanos + default_policy().delay_seconds(
                    attempt_index((attempt_count + 1) as i32),
                ) * NANOS_PER_SECOND) as i128,
            },
        ),
{
    let attempt = attempt_count + 1;
    let policy = RetryPolicy::default();
    let index = attempt_index_of(attempt);
    if policy.should_dead_letter(index) {
        PublishRetry { attempt_count: attempt, dead_lettered: true, next_attempt_at: None }
    } else {
        proof {
            assert(policy.wf());
            crate::operation::retry_delay_is_capped(policy, index);
        }
        let delay = policy.delay_for_attempt(index);
        proof {
            assert(delay.nanos <= 300 * NANOS_PER_SECOND);
            assert(delay.nanos >= 0) by {
                crate::operation::retry_delay_is_at_least_a_second(policy, index);
            }
        }
        PublishRetry {
            attempt_count: attempt,
            dead_lettered: false,
            next_attempt_at: Some(now.plus(delay)),
        }
    }
}

/// The error text kept with an outbox event: its first 2000 characters.
pub fn truncate_error(value: &str) -> (r: String)
    ensures
        r@ == if value@.len() > 2_000 {
            value@.subrange(0, 2_000)
        } else {
            value@
        },
{
    take_chars(value, 2_000)
}

/// A failure that the provider marks final, or one on the tenth attempt or later, is never
/// retried.
pub proof fn failure_ends_or_requeues(error: ProviderError, attempt: i32)
    ensures
        !error.retryable ==> !retries(error, attempt),
        attempt_index(attempt) >= 10 ==> !retries(error, attempt),
{
}

} // verus!
