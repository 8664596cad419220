//! The retry schedule of queued triggers.

use vstd::arithmetic::power2::{lemma_pow2_adds, pow2};
use vstd::bits::{lemma_u64_pow2_no_overflow, lemma_u64_shl_is_mul};
use vstd::prelude::*;
use vstd::string::*;

use crate::domain::CommitHash;

verus! {

/// Parameters for updating a trigger's retry status.
#[derive(Debug, Clone, Copy, PartialEq, Eq)]
pub struct UpdateRetryStatus {
    /// The unique identifier of the trigger.
    pub id: i64,
    /// The current retry count of the trigger.
    pub retry_count: i64,
    /// The maximum number of attempts allowed.
    pub max_attempts: u32,
    /// The base backoff duration in seconds.
    pub backoff_base_secs: u64,
}

/// Parameters for upserting trigger events for a branch.
#[derive(Debug, Clone)]
pub struct TriggerQueueUpsertParams {
    /// The unique identifier of the branch.
    pub branch_id: i64,
    /// The new commit hash.
    pub new_hash: CommitHash,
    /// Optional serialized OpenTelemetry span context.
    pub span_context: Option<String>,
}

/// What a failed trigger becomes.
#[derive(Debug, Clone, Copy, PartialEq, Eq)]
pub enum RetryStatus {
    /// No attempt is left: the trigger is marked failed with this count.
    Failed { retry_count: i64 },
    /// The trigger is pending again with this count, to be retried after
    /// `backoff_secs` seconds.
    Pending { retry_count: i64, backoff_secs: i64 },
}

/// The attempt that just failed used up the last one: the next retry count,
/// taken as a `u32`, reaches the maximum.
pub open spec fn attempts_exhausted(retry_count: i64, max_attempts: u32) -> bool {
    ((retry_count + 1) as u32) >= max_attempts
}

/// The backoff before retry number `retry_count + 1` fits in a `u64`:
/// `base * 2^retry_count`.
pub open spec fn backoff_fits(retry_count: i64, backoff_base_secs: u64) -> bool {
    0 <= retry_count < 64 && backoff_base_secs * pow2(retry_count as nat) <= u64::MAX
}

/// The inputs on which the schedule is defined: the count can be
/// incremented, and when an attempt is left its backoff fits in a `u64`.
pub open spec fn retry_schedulable(p: UpdateRetryStatus) -> bool {
    p.retry_count < i64::MAX && (attempts_exhausted(p.retry_count, p.max_attempts) || backoff_fits(
        p.retry_count,
        p.backoff_base_secs,
    ))
}

/// The status a failed trigger gets: failed when the attempts are
/// exhausted, else pending with an exponential backoff
/// `base * 2^retry_count` seconds (as an `i64`).
pub open spec fn spec_retry_status(p: UpdateRetryStatus) -> RetryStatus {
    if attempts_exhausted(p.retry_count, p.max_attempts) {
        RetryStatus::Failed { retry_count: (p.retry_count + 1) as i64 }
    } else {
        RetryStatus::Pending {
            retry_count: (p.retry_count + 1) as i64,
            backoff_secs: (p.backoff_base_secs * pow2(p.retry_count as nat)) as i64,
        }
    }
}

/// The date modifier that selects tasks stuck for longer than
/// `threshold_seconds`: `-{threshold_seconds} seconds`.
pub fn stuck_threshold_modifier(threshold_seconds: u64) -> (m: String)
    ensures
        m@ == "-"@ + crate::text::int_decimal(threshold_seconds as int) + " seconds"@,
{
    let digits = crate::external::decimal_string(threshold_seconds as i128);
    String::from_str("-").concat(digits.as_str()).concat(" seconds")
}

/// Whether the attempt that just failed was the last one allowed.
pub fn retries_exhausted(retry_count: i64, max_attempts: u32) -> (r: bool)
    requires
        retry_count < i64::MAX,
    ensures
        r == attempts_exhausted(retry_count, max_attempts),
{
    let next_retry_count = retry_count + 1;
    next_retry_count as u32 >= max_attempts
}

/// Schedules a retry or marks the trigger as failed if the maximum number
/// of attempts is reached.
pub fn retry_status(params: &UpdateRetryStatus) -> (r: RetryStatus)
    requires
        retry_schedulable(*params),
    ensures
        r == spec_retry_status(*params),
{
    let next_retry_count = params.retry_count + 1;
    if retries_exhausted(params.retry_count, params.max_attempts) {
        RetryStatus::Failed { retry_count: next_retry_count }
    } else {
        let shift = (next_retry_count - 1) as u64;
        proof {
            lemma_u64_pow2_no_overflow(shift as nat);
            lemma_u64_shl_is_mul(1, shift);
        }
        let factor: u64 = 1u64 << shift;
        let backoff = params.backoff_base_secs * factor;
        RetryStatus::Pending { retry_count: next_retry_count, backoff_secs: #[verifier::truncate] (backoff as i64) }
    }
}

/// Whether the retry schedule is defined for `params`: the count can be
/// incremented and, when an attempt is left, its backoff fits in a `u64`.
pub fn retry_can_be_scheduled(params: &UpdateRetryStatus) -> (r: bool)
    ensures
        r == retry_schedulable(*params),
{
    if params.retry_count == i64::MAX {
        return false;
    }
    if retries_exhausted(params.retry_count, params.max_attempts) {
        return true;
    }
    if params.retry_count < 0 || params.retry_count >= 64 {
        return false;
    }
    let shift = params.retry_count as u64;
    proof {
        lemma_u64_pow2_no_overflow(shift as nat);
        lemma_u64_shl_is_mul(1, shift);
    }
    let factor: u64 = 1u64 << shift;
    params.backoff_base_secs.checked_mul(factor).is_some()
}

/// Once the attempts are exhausted they stay exhausted, as long as the
/// count stays within the range a `u32` holds.
pub proof fn lemma_exhausted_stays_exhausted(retry_count: i64, max_attempts: u32)
    requires
        0 <= retry_count,
        retry_count + 2 <= u32::MAX,
        attempts_exhausted(retry_count, max_attempts),
    ensures
        attempts_exhausted((retry_count + 1) as i64, max_attempts),
{
    assert(((retry_count + 1) as u32) == retry_count + 1) by (bit_vector)
        requires
            0 <= retry_count,
            retry_count + 2 <= 0xffff_ffffi64,
    ;
    assert(((retry_count + 2) as u32) == retry_count + 2) by (bit_vector)
        requires
            0 <= retry_count,
            retry_count + 2 <= 0xffff_ffffi64,
    ;
}

/// A trigger is marked failed exactly when the attempt that just failed
/// was number `max_attempts` or later, for counts a `u32` holds: with a
/// maximum of `n`, the first `n - 1` failures are retried.
pub proof fn lemma_failed_exactly_after_max_attempts(p: UpdateRetryStatus)
    requires
        0 <= p.retry_count,
        p.retry_count + 1 <= u32::MAX,
    ensures
        spec_retry_status(p) is Failed <==> p.retry_count + 1 >= p.max_attempts,
{
    let r = p.retry_count;
    assert(((r + 1) as u32) == r + 1) by (bit_vector)
        requires
            0 <= r,
            r + 1 <= 0xffff_ffffi64,
    ;
}

/// A retried trigger's count goes up by exactly one, whatever it becomes.
pub proof fn lemma_retry_counts_one_more_attempt(p: UpdateRetryStatus)
    requires
        retry_schedulable(p),
    ensures
        match spec_retry_status(p) {
            RetryStatus::Failed { retry_count } => retry_count == p.retry_count + 1,
            RetryStatus::Pending { retry_count, .. } => retry_count == p.retry_count + 1,
        },
{
}

/// Each further attempt doubles the backoff, while it fits.
pub proof fn lemma_backoff_doubles(p: UpdateRetryStatus)
    requires
        retry_schedulable(p),
        !attempts_exhausted(p.retry_count, p.max_attempts),
        !attempts_exhausted((p.retry_count + 1) as i64, p.max_attempts),
        backoff_fits((p.retry_count + 1) as i64, p.backoff_base_secs),
        p.backoff_base_secs * pow2((p.retry_count + 1) as nat) <= i64::MAX,
    ensures
        ({
            let next = spec_retry_status(UpdateRetryStatus { retry_count: (p.retry_count + 1) as i64, ..p });
            let now = spec_retry_status(p);
            &&& now is Pending
            &&& next is Pending
            &&& next->Pending_backoff_secs == 2 * now->Pending_backoff_secs
        }),
{
    let n = p.retry_count as nat;
    lemma_pow2_adds(n, 1);
    vstd::arithmetic::power2::lemma2_to64();
    vstd::arithmetic::power2::lemma_pow2_pos(n);
    assert(p.backoff_base_secs * pow2(n + 1) == 2 * (p.backoff_base_secs * pow2(n)))
        by (nonlinear_arith)
        requires
            pow2(n + 1) == pow2(n) * pow2(1),
            pow2(1) == 2,
    {}
}

} // verus!
