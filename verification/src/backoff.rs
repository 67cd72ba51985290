//! Policies that say whether, and when, something that failed is tried again.
use vstd::prelude::*;
use crate::time::Timestamp;

verus! {

/// The longest interval that a backoff policy may be given, in milliseconds.
pub const MAX_BACKOFF_INTERVAL_MS: u64 = 0x100_0000_0000;

/// The growth factor of the waiting time that policies have by default.
pub const DEFAULT_BACKOFF_EXPONENT: u32 = 3;

/// The least waiting time of a policy built without bounds, in milliseconds.
pub const BUILDER_MIN_INTERVAL_MS: u64 = 1_000;

/// The longest waiting time of a policy built without bounds, in milliseconds.
pub const BUILDER_MAX_INTERVAL_MS: u64 = 1_800_000;

/// A policy that waits longer after each failed attempt, for a bounded
/// number of attempts.
#[derive(Debug, Clone, Copy, PartialEq, Eq, Structural)]
pub struct ExponentialBackoff {
    /// Maximum number of allowed retries attempts.
    pub max_n_retries: u32,
    /// Minimum waiting time between two retry attempts, in milliseconds.
    pub min_retry_interval_ms: u64,
    /// Maximum waiting time between two retry attempts, in milliseconds.
    pub max_retry_interval_ms: u64,
    /// Growing factor governing how fast the retry interval increases with
    /// respect to the number of failed attempts.
    pub backoff_exponent: u32,
}

/// Outcome of evaluating a retry policy for a failed task.
#[derive(Debug, Clone, Copy, PartialEq, Eq, Structural)]
pub enum RetryDecision {
    /// Retry after the specified timestamp.
    Retry { execute_after: Timestamp },
    /// Give up.
    DoNotRetry,
}

/// The number of retries after which a policy with the given growth factor
/// and bounds has, on average, waited for the given total time.
pub uninterp spec fn retries_within(
    backoff_exponent: u32,
    min_retry_interval_ms: u64,
    max_retry_interval_ms: u64,
    total_ms: u64,
) -> u32;

/// Asks a policy whether an attempt that has failed `n_past_retries` times
/// is to be made again, and when: seconds since the epoch and nanoseconds
/// within the second.
///
/// Trusted: `retry_policies::policies::ExponentialBackoff::should_retry`
/// gives up exactly when `n_past_retries` has reached the policy's maximum.
/// The instant it names depends on the clock and on a random jitter, so
/// nothing is said of it. The intervals are bounded so that the policy's
/// arithmetic on durations and dates stays in range.
#[verifier::external_body]
fn policy_should_retry(policy: &ExponentialBackoff, n_past_retries: u32) -> (r: Option<(i64, u32)>)
    requires
        policy.min_retry_interval_ms <= MAX_BACKOFF_INTERVAL_MS,
        policy.max_retry_interval_ms <= MAX_BACKOFF_INTERVAL_MS,
    ensures
        r is None <==> n_past_retries >= policy.max_n_retries,
{
    let policy = retry_policies::policies::ExponentialBackoff {
        max_n_retries: policy.max_n_retries,
        min_retry_interval: core::time::Duration::from_millis(policy.min_retry_interval_ms),
        max_retry_interval: core::time::Duration::from_millis(policy.max_retry_interval_ms),
        backoff_exponent: policy.backoff_exponent,
    };
    match retry_policies::RetryPolicy::should_retry(&policy, n_past_retries) {
        retry_policies::RetryDecision::Retry { execute_after } => Some(
            (execute_after.timestamp(), execute_after.timestamp_subsec_nanos()),
        ),
        retry_policies::RetryDecision::DoNotRetry => None,
    }
}

/// Builds a policy that retries for about the given total time: its
/// maximum number of retries.
///
/// Trusted: `retry_policies::policies::ExponentialBackoffBuilder`, through
/// `retry_bounds`, `backoff_exponent` and `build_with_total_retry_duration`.
/// The number of retries is computed from the arguments alone. The builder
/// panics on bounds in the wrong order, and it adds delays up until they
/// reach the total or the longest interval, which takes a growth factor of
/// two at least and a least delay above zero to happen soon.
#[verifier::external_body]
pub(crate) fn policy_retries_within(
    backoff_exponent: u32,
    min_retry_interval_ms: u64,
    max_retry_interval_ms: u64,
    total_ms: u64,
) -> (r: u32)
    requires
        0 < min_retry_interval_ms <= max_retry_interval_ms <= MAX_BACKOFF_INTERVAL_MS,
        2 <= backoff_exponent,
        total_ms <= MAX_BACKOFF_INTERVAL_MS,
    ensures
        r == retries_within(backoff_exponent, min_retry_interval_ms, max_retry_interval_ms, total_ms),
{
    retry_policies::policies::ExponentialBackoff::builder()
        .retry_bounds(
            core::time::Duration::from_millis(min_retry_interval_ms),
            core::time::Duration::from_millis(max_retry_interval_ms),
        )
        .backoff_exponent(backoff_exponent)
        .build_with_total_retry_duration(core::time::Duration::from_millis(total_ms))
        .max_n_retries
}

impl ExponentialBackoff {
    /// The intervals of the policy are short enough for the policy to be
    /// evaluated: at most [`MAX_BACKOFF_INTERVAL_MS`], about 34 years.
    pub open spec fn is_bounded(&self) -> bool {
        self.min_retry_interval_ms <= MAX_BACKOFF_INTERVAL_MS && self.max_retry_interval_ms
            <= MAX_BACKOFF_INTERVAL_MS
    }

    /// Whether the intervals of the policy are short enough for the policy
    /// to be evaluated.
    pub fn check_bounded(&self) -> (r: bool)
        ensures
            r == self.is_bounded(),
    {
        self.min_retry_interval_ms <= MAX_BACKOFF_INTERVAL_MS && self.max_retry_interval_ms
            <= MAX_BACKOFF_INTERVAL_MS
    }

    /// A policy that allows `n` retries, waits between 1 second and 30
    /// minutes, and triples the waiting time with each retry.
    pub fn with_max_retries(n: u32) -> (r: ExponentialBackoff)
        ensures
            r == (ExponentialBackoff {
                max_n_retries: n,
                min_retry_interval_ms: BUILDER_MIN_INTERVAL_MS,
                max_retry_interval_ms: BUILDER_MAX_INTERVAL_MS,
                backoff_exponent: DEFAULT_BACKOFF_EXPONENT,
            }),
            r.is_bounded(),
    {
        ExponentialBackoff {
            max_n_retries: n,
            min_retry_interval_ms: BUILDER_MIN_INTERVAL_MS,
            max_retry_interval_ms: BUILDER_MAX_INTERVAL_MS,
            backoff_exponent: DEFAULT_BACKOFF_EXPONENT,
        }
    }

    /// A policy with the given bounds and growth factor that retries for
    /// about `total_ms` milliseconds, or `None` where no such policy can be
    /// built: the bounds are in the wrong order or beyond
    /// [`MAX_BACKOFF_INTERVAL_MS`], the least interval is zero, or the
    /// growth factor is below two.
    pub fn with_total_retry_duration(
        backoff_exponent: u32,
        min_retry_interval_ms: u64,
        max_retry_interval_ms: u64,
        total_ms: u64,
    ) -> (r: Option<ExponentialBackoff>)
        ensures
            r == if 0 < min_retry_interval_ms <= max_retry_interval_ms <= MAX_BACKOFF_INTERVAL_MS
                && 2 <= backoff_exponent && total_ms <= MAX_BACKOFF_INTERVAL_MS {
                Some(
                    ExponentialBackoff {
                        max_n_retries: retries_within(
                            backoff_exponent,
                            min_retry_interval_ms,
                            max_retry_interval_ms,
                            total_ms,
                        ),
                        min_retry_interval_ms,
                        max_retry_interval_ms,
                        backoff_exponent,
                    },
                )
            } else {
                None
            },
    {
        if 0 < min_retry_interval_ms && min_retry_interval_ms <= max_retry_interval_ms
            && max_retry_interval_ms <= MAX_BACKOFF_INTERVAL_MS && 2 <= backoff_exponent && total_ms
            <= MAX_BACKOFF_INTERVAL_MS {
            let max_n_retries = policy_retries_within(
                backoff_exponent,
                min_retry_interval_ms,
                max_retry_interval_ms,
                total_ms,
            );
            Some(
                ExponentialBackoff {
                    max_n_retries,
                    min_retry_interval_ms,
                    max_retry_interval_ms,
                    backoff_exponent,
                },
            )
        } else {
            None
        }
    }

    /// Determines whether an attempt that has failed `n_past_retries` times
    /// should be made again: it should, at an instant that the policy
    /// picks, unless the retries are used up.
    pub fn should_retry(&self, n_past_retries: u32) -> (r: RetryDecision)
        requires
            self.is_bounded(),
        ensures
            r is DoNotRetry <==> n_past_retries >= self.max_n_retries,
    {
        match policy_should_retry(self, n_past_retries) {
            Some((secs, subsec_nanos)) => RetryDecision::Retry {
                execute_after: Timestamp::from_unix(secs, subsec_nanos),
            },
            None => RetryDecision::DoNotRetry,
        }
    }
}

} // verus!
