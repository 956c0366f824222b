//! The delivery worker's policy: how many attempts an outbox record gets,
//! how long each retry waits, and the state an event moves to after a
//! delivery attempt. The polling loop around this policy performs I/O and
//! lives with the embedding program; every decision it takes comes from
//! here.

use vstd::prelude::*;

use crate::webhook::{EventStatus, WebhookEvent};

verus! {

/// A pending event is failed for good once its attempt count reaches this.
pub const MAX_ATTEMPTS: i32 = 5;

/// How many due events one poll takes.
pub const BATCH_SIZE: usize = 25;

/// Seconds the worker idles when no event is due.
pub const POLL_INTERVAL_SECS: u64 = 2;

/// Retry delays are capped at this many seconds.
pub const MAX_BACKOFF_SECS: i64 = 300;

/// Two to the power `e`, with everything at or below zero mapped to one.
pub open spec fn spec_pow2(e: int) -> int
    decreases e,
{
    if e <= 0 {
        1
    } else {
        2 * spec_pow2(e - 1)
    }
}

/// The delay before the retry that follows the `k`-th failed attempt:
/// five seconds doubled per attempt, exponent capped at ten, the whole
/// capped at five minutes.
pub open spec fn spec_backoff_secs(k: int) -> int {
    let e = if k < 10 {
        k
    } else {
        10
    };
    let s = 5 * spec_pow2(e);
    if s < 300 {
        s
    } else {
        300
    }
}

proof fn lemma_pow2_monotone(a: int, b: int)
    requires
        a <= b,
    ensures
        spec_pow2(a) <= spec_pow2(b),
    decreases b,
{
    if a < b && b > 0 {
        lemma_pow2_monotone(a, b - 1);
        lemma_pow2_positive(b - 1);
    }
}

proof fn lemma_pow2_positive(e: int)
    ensures
        spec_pow2(e) >= 1,
    decreases e,
{
    if e > 0 {
        lemma_pow2_positive(e - 1);
    }
}

/// Backoff never shrinks as attempts mount, never exceeds the cap, and is
/// always a positive wait.
pub proof fn lemma_backoff_monotone_capped(k: int)
    ensures
        spec_backoff_secs(k) <= spec_backoff_secs(k + 1),
        spec_backoff_secs(k) <= 300,
        spec_backoff_secs(k) >= 5,
{
    let e = if k < 10 {
        k
    } else {
        10
    };
    let e1 = if k + 1 < 10 {
        k + 1
    } else {
        10
    };
    lemma_pow2_monotone(e, e1);
    lemma_pow2_positive(e);
}

/// Seconds to wait after the `attempts`-th failed attempt.
pub fn compute_backoff_secs(attempts: i32) -> (r: i64)
    ensures
        r == spec_backoff_secs(attempts as int),
{
    let e: i32 = if attempts < 10 {
        attempts
    } else {
        10
    };
    if e <= 0 {
        return 5;
    }
    let mut p: i64 = 1;
    let mut j: i32 = 0;
    while j < e
        invariant
            0 <= j <= e <= 10,
            p == spec_pow2(j as int),
            1 <= p <= 1024,
        decreases e - j,
    {
        proof {
            lemma_pow2_monotone(j + 1, 10);
            assert(spec_pow2(10) == 1024) by {
                reveal_with_fuel(spec_pow2, 11);
            }
        }
        p = p * 2;
        j = j + 1;
    }
    let s = 5 * p;
    if s < 300 {
        s
    } else {
        300
    }
}

/// The moment the retry after the `attempts`-th failed attempt becomes due.
pub fn compute_next_retry(attempts: i32, now: i64) -> (r: i64)
    requires
        now <= i64::MAX - 300,
    ensures
        r == now + spec_backoff_secs(attempts as int),
{
    proof {
        lemma_backoff_monotone_capped(attempts as int);
    }
    now + compute_backoff_secs(attempts)
}

/// What the worker decides after one failed delivery attempt.
pub struct RetryDecision {
    /// The attempt count after this failure.
    pub attempts: i32,
    /// Whether the event is failed for good.
    pub terminal: bool,
    /// When the next attempt becomes due; nothing once terminal.
    pub next_retry_at: Option<i64>,
}

/// The attempt count after one more failure, held at the numeric ceiling.
pub open spec fn spec_bumped_attempts(prior: i32) -> i32 {
    if prior < i32::MAX {
        (prior + 1) as i32
    } else {
        i32::MAX
    }
}

/// Decides the fate of an event whose delivery just failed: its attempt
/// count rises by one; at `MAX_ATTEMPTS` it is failed for good, otherwise it
/// stays pending with a backoff-scheduled retry moment.
pub fn plan_failure(prior_attempts: i32, now: i64) -> (r: RetryDecision)
    requires
        now <= i64::MAX - 300,
    ensures
        r.attempts == spec_bumped_attempts(prior_attempts),
        r.terminal == (r.attempts >= MAX_ATTEMPTS),
        r.terminal ==> r.next_retry_at is None,
        !r.terminal ==> r.next_retry_at == Some(
            (now + spec_backoff_secs(r.attempts as int)) as i64,
        ),
{
    let new_attempts = if prior_attempts < i32::MAX {
        prior_attempts + 1
    } else {
        i32::MAX
    };
    let terminal = new_attempts >= MAX_ATTEMPTS;
    let next_retry_at = if terminal {
        None
    } else {
        Some(compute_next_retry(new_attempts, now))
    };
    RetryDecision { attempts: new_attempts, terminal, next_retry_at }
}

/// The state an event reaches when a delivery attempt succeeds: delivered,
/// for good, with no retry scheduled.
pub open spec fn spec_success_step(ev: WebhookEvent) -> WebhookEvent {
    WebhookEvent { status: EventStatus::Delivered, next_retry_at: None, ..ev }
}

/// The state an event reaches when a delivery attempt fails at time `now`.
pub open spec fn spec_fail_step(ev: WebhookEvent, now: i64) -> WebhookEvent {
    let a = spec_bumped_attempts(ev.attempts);
    if a >= MAX_ATTEMPTS {
        WebhookEvent { status: EventStatus::Failed, attempts: a, next_retry_at: None, ..ev }
    } else {
        WebhookEvent {
            status: EventStatus::Pending,
            attempts: a,
            next_retry_at: Some((now + spec_backoff_secs(a as int)) as i64),
            ..ev
        }
    }
}

/// The event lifecycle, success half: a pending event whose delivery
/// succeeds on any attempt is delivered — a terminal state — with no retry
/// scheduled.
pub proof fn lemma_lifecycle_success(ev: WebhookEvent)
    ensures
        spec_success_step(ev).status is Delivered,
        spec_success_step(ev).next_retry_at is None,
        spec_success_step(ev).attempts == ev.attempts,
{
}

/// The event lifecycle, failure half: an event born pending with no
/// attempts, failing on every delivery, stays pending with a scheduled
/// retry through its first four failures and is failed for good — with no
/// retry scheduled — by the fifth.
pub proof fn lemma_lifecycle_five_failures(
    ev: WebhookEvent,
    n1: i64,
    n2: i64,
    n3: i64,
    n4: i64,
    n5: i64,
)
    requires
        ev.status is Pending,
        ev.attempts == 0,
    ensures
        ({
            let e1 = spec_fail_step(ev, n1);
            let e2 = spec_fail_step(e1, n2);
            let e3 = spec_fail_step(e2, n3);
            let e4 = spec_fail_step(e3, n4);
            let e5 = spec_fail_step(e4, n5);
            &&& e1.status is Pending && e1.attempts == 1 && e1.next_retry_at is Some
            &&& e2.status is Pending && e2.attempts == 2 && e2.next_retry_at is Some
            &&& e3.status is Pending && e3.attempts == 3 && e3.next_retry_at is Some
            &&& e4.status is Pending && e4.attempts == 4 && e4.next_retry_at is Some
            &&& e5.status is Failed && e5.attempts == 5 && e5.next_retry_at is None
        }),
{
}

} // verus!
