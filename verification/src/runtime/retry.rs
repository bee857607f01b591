//! Deterministic retry classification and backoff, safe to repeat after a restart.
use vstd::prelude::*;

use crate::digest::sha256;
use crate::digest::sha256_digest;

verus! {

/// Failure class a retry policy can opt into.
#[derive(Clone, Copy, Debug, PartialEq, Eq, Structural)]
pub enum RetryClassification {
    Transient,
    Timeout,
    RateLimited,
    Interrupted,
    ModelError,
    ToolError,
}

/// Where a retried turn runs.
#[derive(Clone, Copy, Debug, PartialEq, Eq, Structural)]
pub enum RetrySession {
    NewTurnOnSameThread,
    FreshThread,
}

/// Delay schedule between attempts.
#[derive(Clone, Copy, Debug, PartialEq, Eq, Structural)]
pub enum BackoffPolicy {
    Immediate,
    Fixed { delay_ms: u64 },
    Exponential { initial_delay_ms: u64, maximum_delay_ms: u64, jitter_percent: u8 },
}

/// Persisted retry policy of one node; at least one attempt is allowed.
#[derive(Clone, Debug, PartialEq, Eq)]
pub struct RetryPolicy {
    pub maximum_attempts: u32,
    pub retry_on: Vec<RetryClassification>,
    pub backoff: BackoffPolicy,
    pub session: RetrySession,
}

/// Deterministic result of applying a persisted retry policy.
#[derive(Clone, Copy, Debug, PartialEq, Eq, Structural)]
pub enum RetryDecision {
    Fail,
    RetryAt { retry_at_ms: i64, session: RetrySession },
}

pub open spec fn spec_sat_mul(a: u64, b: u64) -> u64 {
    if a * b > u64::MAX {
        u64::MAX
    } else {
        (a * b) as u64
    }
}

pub open spec fn spec_sat_add(a: u64, b: u64) -> u64 {
    if a + b > u64::MAX {
        u64::MAX
    } else {
        (a + b) as u64
    }
}

pub open spec fn spec_sat_sub(a: u64, b: u64) -> u64 {
    if a < b {
        0
    } else {
        (a - b) as u64
    }
}

pub open spec fn spec_min(a: u64, b: u64) -> u64 {
    if a <= b {
        a
    } else {
        b
    }
}

/// Backoff delay in milliseconds before attempt `attempt` (one-based), with
/// `jitter_unit` spreading the delay symmetrically around the capped value.
pub open spec fn spec_retry_delay(policy: BackoffPolicy, attempt: u32, jitter_unit: u64) -> u64 {
    match policy {
        BackoffPolicy::Immediate => 0,
        BackoffPolicy::Fixed { delay_ms } => delay_ms,
        BackoffPolicy::Exponential { initial_delay_ms, maximum_delay_ms, jitter_percent } => {
            let shift: nat = if attempt <= 1 {
                0
            } else if attempt - 1 > 63 {
                63
            } else {
                (attempt - 1) as nat
            };
            let uncapped = spec_sat_mul(initial_delay_ms, vstd::arithmetic::power2::pow2(shift) as u64);
            let capped = spec_min(uncapped, maximum_delay_ms);
            let spread = (spec_sat_mul(capped, jitter_percent as u64) / 100) as u64;
            let centered = if spread == 0 {
                capped
            } else {
                let width = spec_sat_add(spec_sat_mul(spread, 2), 1);
                spec_sat_add(spec_sat_sub(capped, spread), (jitter_unit % width) as u64)
            };
            spec_min(centered, maximum_delay_ms)
        },
    }
}

/// The retry decision for a given jitter unit.
pub open spec fn spec_decide(
    policy: RetryPolicy,
    completed_attempts: u32,
    classification: RetryClassification,
    jitter_unit: u64,
    now_ms: i64,
    workflow_deadline_ms: Option<i64>,
) -> RetryDecision {
    if completed_attempts >= policy.maximum_attempts || !policy.retry_on@.contains(classification) {
        RetryDecision::Fail
    } else {
        let attempt: u32 = if completed_attempts < 1 {
            1
        } else {
            completed_attempts
        };
        let delay = spec_retry_delay(policy.backoff, attempt, jitter_unit);
        let delay_ms: int = if delay > i64::MAX {
            i64::MAX as int
        } else {
            delay as int
        };
        let retry_at: i64 = if now_ms + delay_ms > i64::MAX {
            i64::MAX
        } else {
            (now_ms + delay_ms) as i64
        };
        if workflow_deadline_ms is Some && retry_at > workflow_deadline_ms->0 {
            RetryDecision::Fail
        } else {
            RetryDecision::RetryAt { retry_at_ms: retry_at, session: policy.session }
        }
    }
}

/// Big-endian value of the first eight bytes.
pub open spec fn spec_be_u64(b: Seq<u8>) -> u64 {
    (b[0] * 0x100000000000000 + b[1] * 0x1000000000000 + b[2] * 0x10000000000 + b[3]
        * 0x100000000 + b[4] * 0x1000000 + b[5] * 0x10000 + b[6] * 0x100 + b[7]) as u64
}

/// Jitter unit derived from an attempt id: the SHA-256 prefix as a big-endian integer.
pub open spec fn spec_deterministic_unit(value: Seq<u8>) -> u64 {
    spec_be_u64(sha256_digest(value))
}

/// An exponential backoff never waits longer than its maximum delay.
pub proof fn law_backoff_capped(
    initial_delay_ms: u64,
    maximum_delay_ms: u64,
    jitter_percent: u8,
    attempt: u32,
    jitter_unit: u64,
)
    ensures
        spec_retry_delay(
            BackoffPolicy::Exponential { initial_delay_ms, maximum_delay_ms, jitter_percent },
            attempt,
            jitter_unit,
        ) <= maximum_delay_ms,
{
}

/// The exponential delay before jitter: the initial delay doubled per earlier
/// attempt (at most 63 times), saturating, capped at the maximum.
pub open spec fn spec_capped_delay(initial_delay_ms: u64, maximum_delay_ms: u64, attempt: u32) -> u64 {
    let shift: nat = if attempt <= 1 {
        0
    } else if attempt - 1 > 63 {
        63
    } else {
        (attempt - 1) as nat
    };
    spec_min(spec_sat_mul(initial_delay_ms, vstd::arithmetic::power2::pow2(shift) as u64), maximum_delay_ms)
}

/// The jitter spread around a capped delay.
pub open spec fn spec_spread(capped: u64, jitter_percent: u8) -> u64 {
    (spec_sat_mul(capped, jitter_percent as u64) / 100) as u64
}

/// Jitter stays within its percentage of the capped delay and never past the
/// maximum; without jitter the delay is exactly the capped delay.
pub proof fn law_backoff_jitter_bounds(
    initial_delay_ms: u64,
    maximum_delay_ms: u64,
    jitter_percent: u8,
    attempt: u32,
    jitter_unit: u64,
)
    requires
        jitter_percent <= 100,
    ensures
        ({
            let c = spec_capped_delay(initial_delay_ms, maximum_delay_ms, attempt);
            let s = spec_spread(c, jitter_percent);
            let t = spec_retry_delay(
                BackoffPolicy::Exponential { initial_delay_ms, maximum_delay_ms, jitter_percent },
                attempt,
                jitter_unit,
            );
            &&& t <= maximum_delay_ms
            &&& spec_sat_sub(c, s) <= t <= spec_sat_add(c, s)
            &&& jitter_percent == 0 ==> t == c
        }),
{
    let c = spec_capped_delay(initial_delay_ms, maximum_delay_ms, attempt);
    let s = spec_spread(c, jitter_percent);
    let j = jitter_percent as u64;
    assert(s <= c) by (nonlinear_arith)
        requires
            s == (spec_sat_mul(c, j) / 100) as u64,
            j <= 100,
            spec_sat_mul(c, j) == (if c * j > u64::MAX { u64::MAX as int } else { c * j }),
    {
        if c * j <= u64::MAX {
            assert(c * j <= c * 100);
        } else {
            assert(c * 100 >= c * j);
        }
    }
    assert(jitter_percent == 0 ==> s == 0) by (nonlinear_arith)
        requires
            s == (spec_sat_mul(c, j) / 100) as u64,
            spec_sat_mul(c, j) == (if c * j > u64::MAX { u64::MAX as int } else { c * j }),
            j == jitter_percent,
    ;
}

/// Without jitter, a later attempt never waits less than an earlier one.
pub proof fn law_backoff_non_decreasing(
    initial_delay_ms: u64,
    maximum_delay_ms: u64,
    earlier: u32,
    later: u32,
    jitter_unit: u64,
)
    requires
        earlier <= later,
    ensures
        spec_retry_delay(
            BackoffPolicy::Exponential { initial_delay_ms, maximum_delay_ms, jitter_percent: 0 },
            earlier,
            jitter_unit,
        ) <= spec_retry_delay(
            BackoffPolicy::Exponential { initial_delay_ms, maximum_delay_ms, jitter_percent: 0 },
            later,
            jitter_unit,
        ),
{
    law_backoff_jitter_bounds(initial_delay_ms, maximum_delay_ms, 0, earlier, jitter_unit);
    law_backoff_jitter_bounds(initial_delay_ms, maximum_delay_ms, 0, later, jitter_unit);
    let s1: nat = if earlier <= 1 { 0 } else if earlier - 1 > 63 { 63 } else { (earlier - 1) as nat };
    let s2: nat = if later <= 1 { 0 } else if later - 1 > 63 { 63 } else { (later - 1) as nat };
    assert(s1 <= s2);
    vstd::arithmetic::power::lemma_pow_increases(2, s1, s2);
    vstd::arithmetic::power2::lemma_pow2(s1);
    vstd::arithmetic::power2::lemma_pow2(s2);
    vstd::bits::lemma_u64_pow2_no_overflow(s1);
    vstd::bits::lemma_u64_pow2_no_overflow(s2);
    let f1 = vstd::arithmetic::power2::pow2(s1);
    let f2 = vstd::arithmetic::power2::pow2(s2);
    let i = initial_delay_ms;
    assert(i * f1 <= i * f2) by (nonlinear_arith)
        requires
            f1 <= f2,
    ;
}

/// A retry is only ever scheduled for a listed failure class with attempts
/// left, never before now, and never after the workflow deadline.
pub proof fn law_retry_bounds(
    policy: RetryPolicy,
    completed_attempts: u32,
    classification: RetryClassification,
    jitter_unit: u64,
    now_ms: i64,
    workflow_deadline_ms: Option<i64>,
)
    ensures
        spec_decide(policy, completed_attempts, classification, jitter_unit, now_ms, workflow_deadline_ms)
            matches RetryDecision::RetryAt { retry_at_ms, session } ==> {
            &&& completed_attempts < policy.maximum_attempts
            &&& policy.retry_on@.contains(classification)
            &&& now_ms <= retry_at_ms
            &&& (workflow_deadline_ms matches Some(d) ==> retry_at_ms <= d)
            &&& session == policy.session
        },
{
}

fn saturating_mul(a: u64, b: u64) -> (r: u64)
    ensures
        r == spec_sat_mul(a, b),
{
    match a.checked_mul(b) {
        Some(v) => v,
        None => u64::MAX,
    }
}

fn saturating_add(a: u64, b: u64) -> (r: u64)
    ensures
        r == spec_sat_add(a, b),
{
    if a > u64::MAX - b {
        u64::MAX
    } else {
        a + b
    }
}

/// The delay in milliseconds before retrying after `attempt`, with the jitter
/// drawn from `jitter_unit`.
pub fn retry_delay(policy: &BackoffPolicy, attempt: u32, jitter_unit: u64) -> (r: u64)
    ensures
        r == spec_retry_delay(*policy, attempt, jitter_unit),
{
    match policy {
        BackoffPolicy::Immediate => 0,
        BackoffPolicy::Fixed { delay_ms } => *delay_ms,
        BackoffPolicy::Exponential { initial_delay_ms, maximum_delay_ms, jitter_percent } => {
            let shift: u64 = if attempt <= 1 {
                0
            } else if attempt - 1 > 63 {
                63
            } else {
                (attempt - 1) as u64
            };
            proof {
                vstd::bits::lemma_u64_pow2_no_overflow(shift as nat);
                vstd::bits::lemma_u64_shl_is_mul(1, shift);
            }
            let factor: u64 = 1u64 << shift;
            let uncapped = saturating_mul(*initial_delay_ms, factor);
            let capped = if uncapped <= *maximum_delay_ms {
                uncapped
            } else {
                *maximum_delay_ms
            };
            let spread = saturating_mul(capped, *jitter_percent as u64) / 100;
            let centered = if spread == 0 {
                capped
            } else {
                let width = saturating_add(saturating_mul(spread, 2), 1);
                let low = if capped < spread {
                    0
                } else {
                    capped - spread
                };
                saturating_add(low, jitter_unit % width)
            };
            if centered <= *maximum_delay_ms {
                centered
            } else {
                *maximum_delay_ms
            }
        },
    }
}

/// Jitter unit of an attempt id.
pub fn deterministic_unit(value: &str) -> (r: u64)
    ensures
        r == spec_deterministic_unit(vstd::utf8::encode_utf8(value@)),
{
    let d = sha256(value.as_bytes());
    let r = (d[0] as u64) * 0x100000000000000 + (d[1] as u64) * 0x1000000000000 + (d[2] as u64)
        * 0x10000000000 + (d[3] as u64) * 0x100000000 + (d[4] as u64) * 0x1000000 + (d[5] as u64)
        * 0x10000 + (d[6] as u64) * 0x100 + (d[7] as u64);
    r
}

/// Pure retry classifier/backoff calculator safe to repeat after restart.
pub struct RetryPlanner;

impl RetryPlanner {
    /// Applies `policy` with the jitter unit derived from `attempt_id`.
    pub fn decide(
        policy: &RetryPolicy,
        completed_attempts: u32,
        classification: RetryClassification,
        attempt_id: &str,
        now_ms: i64,
        workflow_deadline_ms: Option<i64>,
    ) -> (r: RetryDecision)
        requires
            policy.maximum_attempts >= 1,
        ensures
            r == spec_decide(
                *policy,
                completed_attempts,
                classification,
                spec_deterministic_unit(vstd::utf8::encode_utf8(attempt_id@)),
                now_ms,
                workflow_deadline_ms,
            ),
    {
        let unit = deterministic_unit(attempt_id);
        Self::decide_with_unit(
            policy,
            completed_attempts,
            classification,
            unit,
            now_ms,
            workflow_deadline_ms,
        )
    }

    /// Applies `policy` for an explicit jitter unit.
    pub fn decide_with_unit(
        policy: &RetryPolicy,
        completed_attempts: u32,
        classification: RetryClassification,
        jitter_unit: u64,
        now_ms: i64,
        workflow_deadline_ms: Option<i64>,
    ) -> (r: RetryDecision)
        requires
            policy.maximum_attempts >= 1,
        ensures
            r == spec_decide(
                *policy,
                completed_attempts,
                classification,
                jitter_unit,
                now_ms,
                workflow_deadline_ms,
            ),
    {
        let mut listed = false;
        let mut i: usize = 0;
        while i < policy.retry_on.len()
            invariant
                i <= policy.retry_on@.len(),
                listed == exists|k: int| 0 <= k < i && policy.retry_on@[k] == classification,
            decreases policy.retry_on.len() - i,
        {
            if policy.retry_on[i] == classification {
                listed = true;
            }
            i += 1;
        }
        if completed_attempts >= policy.maximum_attempts || !listed {
            return RetryDecision::Fail;
        }
        let attempt: u32 = if completed_attempts < 1 {
            1
        } else {
            completed_attempts
        };
        let delay = retry_delay(&policy.backoff, attempt, jitter_unit);
        let delay_ms: i64 = if delay > i64::MAX as u64 {
            i64::MAX
        } else {
            delay as i64
        };
        let retry_at_ms: i64 = if now_ms > i64::MAX - delay_ms {
            i64::MAX
        } else {
            now_ms + delay_ms
        };
        if let Some(deadline) = workflow_deadline_ms {
            if retry_at_ms > deadline {
                return RetryDecision::Fail;
            }
        }
        RetryDecision::RetryAt { retry_at_ms, session: policy.session }
    }
}

} // verus!
