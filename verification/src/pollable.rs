//! Common logic to poll for updates on resources.
//!
//! A poller fetches a resource again and again until a condition holds.
//! Fetching and sleeping are the caller's part; what to do after each fetch
//! is decided here.
use vstd::prelude::*;
use crate::apis::payments::refunds::{CreateRefundResponse, Refund};
use crate::apis::payments::{CreatePaymentResponse, Payment};
use crate::apis::payouts::{CreatePayoutResponse, Payout};
use crate::backoff::{
    policy_retries_within, retries_within, ExponentialBackoff, RetryDecision,
    DEFAULT_BACKOFF_EXPONENT,
};
use crate::time::{Interval, Timestamp, NANOS_PER_SEC};

verus! {

/// A resource that can be in a terminal state.
pub trait IsInTerminalState {
    /// Returns `true` if this resource is in a terminal state: no further
    /// change of it is to be expected from the server.
    fn is_in_terminal_state(&self) -> bool;
}

/// Marks the resources of this crate that can be polled.
pub trait Sealed {

}

impl Sealed for Payment {

}

impl Sealed for CreatePaymentResponse {

}

impl Sealed for Payout {

}

impl Sealed for CreatePayoutResponse {

}

/// A refund is polled together with the id of the payment it belongs to.
impl Sealed for (String, Refund) {

}

/// A refund that was just created is polled together with the id of the
/// payment it belongs to.
impl Sealed for (String, CreateRefundResponse) {

}

/// The least time between two fetches, in seconds.
pub const MIN_POLL_INTERVAL_SECS: u64 = 1;

/// The least waiting time between two fetches by default, in milliseconds.
pub const DEFAULT_POLL_MIN_INTERVAL_MS: u64 = 1_000;

/// The longest waiting time between two fetches by default, in milliseconds.
pub const DEFAULT_POLL_MAX_INTERVAL_MS: u64 = 30_000;

/// The time after which polling gives up by default, in milliseconds.
pub const DEFAULT_POLL_TOTAL_MS: u64 = 300_000;

/// Options to configure the behaviour of polling.
///
/// The default is an exponential backoff between retries from 1 to 30
/// seconds for a total of 5 minutes.
#[derive(Debug, Clone, Copy, PartialEq, Eq, Structural)]
pub struct PollOptions {
    /// The policy that says how long to wait, and when to give up.
    pub retry_policy: ExponentialBackoff,
}

impl PollOptions {
    /// The policy that is used where none is set.
    pub open spec fn default_policy() -> ExponentialBackoff {
        ExponentialBackoff {
            max_n_retries: retries_within(
                DEFAULT_BACKOFF_EXPONENT,
                DEFAULT_POLL_MIN_INTERVAL_MS,
                DEFAULT_POLL_MAX_INTERVAL_MS,
                DEFAULT_POLL_TOTAL_MS,
            ),
            min_retry_interval_ms: DEFAULT_POLL_MIN_INTERVAL_MS,
            max_retry_interval_ms: DEFAULT_POLL_MAX_INTERVAL_MS,
            backoff_exponent: DEFAULT_BACKOFF_EXPONENT,
        }
    }

    /// Sets a retry policy.
    pub fn with_retry_policy(self, retry_policy: ExponentialBackoff) -> (r: PollOptions)
        ensures
            r.retry_policy == retry_policy,
    {
        PollOptions { retry_policy }
    }
}

impl Default for PollOptions {
    fn default() -> (r: PollOptions)
        ensures
            r.retry_policy == PollOptions::default_policy(),
            r.retry_policy.is_bounded(),
    {
        let max_n_retries = policy_retries_within(
            DEFAULT_BACKOFF_EXPONENT,
            DEFAULT_POLL_MIN_INTERVAL_MS,
            DEFAULT_POLL_MAX_INTERVAL_MS,
            DEFAULT_POLL_TOTAL_MS,
        );
        PollOptions {
            retry_policy: ExponentialBackoff {
                max_n_retries,
                min_retry_interval_ms: DEFAULT_POLL_MIN_INTERVAL_MS,
                max_retry_interval_ms: DEFAULT_POLL_MAX_INTERVAL_MS,
                backoff_exponent: DEFAULT_BACKOFF_EXPONENT,
            },
        }
    }
}

/// Error returned from polling a resource whose fetches fail with `E`.
#[derive(Debug, Clone, PartialEq, Eq)]
pub enum PollError<E> {
    /// Polling timed out before the condition was met.
    Timeout,
    /// Other error.
    Error(E),
}

/// What a poller makes of one fetch.
#[derive(Debug)]
pub enum Fetched<T, E> {
    /// Polling is over, with the resource that met the condition or with
    /// the error of the fetch.
    Finished(Result<T, PollError<E>>),
    /// The resource does not meet the condition yet: the policy is to be
    /// asked whether to fetch again.
    Pending,
}

/// What a poller does next.
#[derive(Debug)]
pub enum NextPoll<T, E> {
    /// Polling is over.
    Finished(Result<T, PollError<E>>),
    /// The resource is to be fetched again after the given time.
    FetchAfter(Interval),
}

/// The time to wait before the next fetch when the policy names
/// `execute_after` and the clock reads `now`: what is left until then, but
/// one second at least.
pub open spec fn wait_nanos(execute_after: Timestamp, now: Timestamp) -> int {
    let floor = MIN_POLL_INTERVAL_SECS * NANOS_PER_SEC;
    if execute_after.nanos - now.nanos > floor {
        execute_after.nanos - now.nanos
    } else {
        floor
    }
}

/// The time to wait before the next fetch: what is left until
/// `execute_after`, but one second at least.
pub fn wait_time(execute_after: &Timestamp, now: &Timestamp) -> (r: Interval)
    ensures
        r.nanos == wait_nanos(*execute_after, *now),
        r.nanos >= MIN_POLL_INTERVAL_SECS * NANOS_PER_SEC,
{
    Interval::from_secs(MIN_POLL_INTERVAL_SECS).max(execute_after.saturating_since(now))
}

/// The resource says of itself that it is in a terminal state, or that it
/// is not: `terminal` is what its `is_in_terminal_state` returns.
pub open spec fn says_terminal<T: IsInTerminalState>(state: T, terminal: bool) -> bool {
    call_ensures(T::is_in_terminal_state, (&state,), terminal)
}

/// What one fetch means for polling: an error of the fetch ends it, and so
/// does a resource that meets the condition.
pub open spec fn spec_inspect<T, E>(fetched: Result<T, E>, matched: bool) -> Fetched<T, E> {
    match fetched {
        Err(e) => Fetched::Finished(Err(PollError::Error(e))),
        Ok(state) => if matched {
            Fetched::Finished(Ok(state))
        } else {
            Fetched::Pending
        },
    }
}

/// The progress of polling one resource.
#[derive(Debug, Clone, Copy, PartialEq, Eq, Structural)]
pub struct Poller {
    /// How many times the policy has said to fetch again.
    pub retries: u32,
}

impl Poller {
    /// A poller that has not fetched anything yet.
    pub fn new() -> (r: Poller)
        ensures
            r.retries == 0,
    {
        Poller { retries: 0 }
    }

    /// Looks at what a fetch brought. `matched` says whether the resource
    /// that was fetched meets the condition; it is not looked at where the
    /// fetch failed.
    pub fn inspect<T, E>(&self, fetched: Result<T, E>, matched: bool) -> (r: Fetched<T, E>)
        ensures
            r == spec_inspect(fetched, matched),
    {
        match fetched {
            Err(e) => Fetched::Finished(Err(PollError::Error(e))),
            Ok(state) => if matched {
                Fetched::Finished(Ok(state))
            } else {
                Fetched::Pending
            },
        }
    }

    /// Looks at what a fetch brought, for a resource that is polled until
    /// it reaches a terminal state: the condition is what the resource
    /// itself says of its state.
    pub fn inspect_terminal<T: IsInTerminalState, E>(&self, fetched: Result<T, E>) -> (r: Fetched<
        T,
        E,
    >)
        ensures
            fetched is Err ==> r == spec_inspect(fetched, false),
            fetched matches Ok(state) ==> exists|terminal: bool|
                #[trigger] says_terminal(state, terminal) && r == spec_inspect(fetched, terminal),
    {
        match fetched {
            Err(e) => Fetched::Finished(Err(PollError::Error(e))),
            Ok(state) => {
                let terminal = state.is_in_terminal_state();
                assert(says_terminal(state, terminal));
                if terminal {
                    Fetched::Finished(Ok(state))
                } else {
                    Fetched::Pending
                }
            },
        }
    }

    /// Follows the decision that the policy took on a resource that does
    /// not meet the condition yet, with the clock reading `now`: fetch
    /// again after the time that the decision leaves, one second at least,
    /// or give up.
    pub fn follow<T, E>(&mut self, decision: RetryDecision, now: &Timestamp) -> (r: NextPoll<T, E>)
        requires
            old(self).retries < u32::MAX,
        ensures
            match decision {
                RetryDecision::Retry { execute_after } => {
                    &&& r matches NextPoll::FetchAfter(wait)
                    &&& wait.nanos == wait_nanos(execute_after, *now)
                    &&& final(self).retries == old(self).retries + 1
                },
                RetryDecision::DoNotRetry => {
                    &&& r == NextPoll::<T, E>::Finished(Err(PollError::Timeout))
                    &&& final(self).retries == old(self).retries
                },
            },
    {
        match decision {
            RetryDecision::Retry { execute_after } => {
                let wait = wait_time(&execute_after, now);
                self.retries = self.retries + 1;
                NextPoll::FetchAfter(wait)
            },
            RetryDecision::DoNotRetry => NextPoll::Finished(Err(PollError::Timeout)),
        }
    }

    /// Decides what follows a fetch, under the policy of `options` and by
    /// the clock.
    ///
    /// An error of the fetch ends polling and is handed on as it is. A
    /// resource that meets the condition ends polling and is handed out.
    /// Otherwise the policy is asked: while it allows another retry, the
    /// resource is to be fetched again after one second at least; once its
    /// retries are used up, polling times out.
    pub fn next<T, E>(&mut self, options: &PollOptions, fetched: Result<T, E>, matched: bool) -> (r:
        NextPoll<T, E>)
        requires
            old(self).retries < u32::MAX,
            options.retry_policy.is_bounded(),
        ensures
            match spec_inspect(fetched, matched) {
                Fetched::Finished(result) => r == NextPoll::Finished(result),
                Fetched::Pending => if old(self).retries >= options.retry_policy.max_n_retries {
                    r == NextPoll::<T, E>::Finished(Err(PollError::Timeout))
                } else {
                    r matches NextPoll::FetchAfter(wait) && wait.nanos >= MIN_POLL_INTERVAL_SECS
                        * NANOS_PER_SEC
                },
            },
            final(self).retries == if r is FetchAfter {
                old(self).retries + 1
            } else {
                old(self).retries as int
            },
            outcome(r) == step(
                old(self).retries,
                fetched is Ok,
                matched,
                options.retry_policy.max_n_retries,
            ),
    {
        match self.inspect(fetched, matched) {
            Fetched::Finished(result) => NextPoll::Finished(result),
            Fetched::Pending => {
                let decision = options.retry_policy.should_retry(self.retries);
                let now = Timestamp::now();
                self.follow(decision, &now)
            },
        }
    }
}

/// How one round of polling ends.
#[derive(Debug, Clone, Copy, PartialEq, Eq, Structural)]
pub enum Outcome {
    /// The resource met the condition and was handed out.
    Matched,
    /// The fetch failed, and its error was handed on.
    Failed,
    /// The policy gave up.
    TimedOut,
    /// The resource is fetched again after a wait.
    Waiting,
}

/// How the round that a poller's decision closes has ended.
pub open spec fn outcome<T, E>(next: NextPoll<T, E>) -> Outcome {
    match next {
        NextPoll::Finished(Ok(_)) => Outcome::Matched,
        NextPoll::Finished(Err(PollError::Timeout)) => Outcome::TimedOut,
        NextPoll::Finished(Err(PollError::Error(_))) => Outcome::Failed,
        NextPoll::FetchAfter(_) => Outcome::Waiting,
    }
}

/// How a round ends for a poller that has been told `retries` times to
/// fetch again, under a policy that allows `max_n_retries` retries.
pub open spec fn step(retries: u32, fetch_ok: bool, matched: bool, max_n_retries: u32) -> Outcome {
    if !fetch_ok {
        Outcome::Failed
    } else if matched {
        Outcome::Matched
    } else if retries >= max_n_retries {
        Outcome::TimedOut
    } else {
        Outcome::Waiting
    }
}

/// One fetch of a polling run: whether it succeeded, and whether what it
/// brought met the condition.
pub struct Fetch {
    pub ok: bool,
    pub matched: bool,
}

/// What a polling run has come to.
pub struct Run {
    /// How many times the resource was fetched.
    pub fetches: nat,
    /// How many times the poller waited; each wait lasts one second at least.
    pub waits: nat,
    /// How the run ended, if it has ended.
    pub end: Option<Outcome>,
}

impl Run {
    /// The least time that the run has taken, in nanoseconds: one second
    /// for each of its waits.
    pub open spec fn least_elapsed_nanos(self) -> int {
        self.waits * MIN_POLL_INTERVAL_SECS * NANOS_PER_SEC
    }
}

/// The run of a poller over the fetches of `script`, in their order, from
/// the fetch with index `from` on, under a policy that allows
/// `max_n_retries` retries. The poller has waited once for every fetch
/// before `from`.
pub open spec fn run(script: Seq<Fetch>, max_n_retries: u32, from: nat) -> Run
    decreases script.len() - from,
{
    if from >= script.len() || from > u32::MAX {
        Run { fetches: 0, waits: 0, end: None }
    } else {
        match step(from as u32, script[from as int].ok, script[from as int].matched, max_n_retries) {
            Outcome::Waiting => {
                let rest = run(script, max_n_retries, from + 1);
                Run { fetches: rest.fetches + 1, waits: rest.waits + 1, end: rest.end }
            },
            end => Run { fetches: 1, waits: 0, end: Some(end) },
        }
    }
}

/// A run whose fetches all succeed, and in which the fetch with index
/// `first` is the first to meet the condition, hands the resource out
/// after `first + 1` fetches and `first` waits, that is after `first`
/// seconds at least, provided that the policy allows `first` retries.
pub proof fn lemma_poll_until_matched(script: Seq<Fetch>, max_n_retries: u32, first: nat, from: nat)
    requires
        from <= first < script.len(),
        first <= max_n_retries,
        forall|i: int| 0 <= i < script.len() ==> (#[trigger] script[i]).ok,
        forall|i: int| 0 <= i < first ==> !(#[trigger] script[i]).matched,
        script[first as int].matched,
    ensures
        run(script, max_n_retries, from) == (Run {
            fetches: (first + 1 - from) as nat,
            waits: (first - from) as nat,
            end: Some(Outcome::Matched),
        }),
        run(script, max_n_retries, from).least_elapsed_nanos() == (first - from) * NANOS_PER_SEC,
    decreases first - from,
{
    if from < first {
        lemma_poll_until_matched(script, max_n_retries, first, from + 1);
    }
}

/// A run whose fetches all succeed and never meet the condition times out
/// with the fetch that follows the last retry that the policy allows:
/// after `max_n_retries + 1` fetches and `max_n_retries` waits.
pub proof fn lemma_poll_until_timeout(script: Seq<Fetch>, max_n_retries: u32, from: nat)
    requires
        from <= max_n_retries < script.len(),
        forall|i: int| 0 <= i < script.len() ==> (#[trigger] script[i]).ok,
        forall|i: int| 0 <= i < script.len() ==> !(#[trigger] script[i]).matched,
    ensures
        run(script, max_n_retries, from) == (Run {
            fetches: (max_n_retries + 1 - from) as nat,
            waits: (max_n_retries - from) as nat,
            end: Some(Outcome::TimedOut),
        }),
        run(script, max_n_retries, from).least_elapsed_nanos() == (max_n_retries - from)
            * NANOS_PER_SEC,
    decreases max_n_retries - from,
{
    if from < max_n_retries {
        lemma_poll_until_timeout(script, max_n_retries, from + 1);
    }
}

/// The first fetch that fails ends the run with its error, whatever the
/// policy allows, if no earlier fetch met the condition and the policy
/// allowed the retries before it.
pub proof fn lemma_poll_until_error(script: Seq<Fetch>, max_n_retries: u32, failed: nat, from: nat)
    requires
        from <= failed < script.len(),
        failed <= max_n_retries,
        forall|i: int| 0 <= i < failed ==> (#[trigger] script[i]).ok && !script[i].matched,
        !script[failed as int].ok,
    ensures
        run(script, max_n_retries, from) == (Run {
            fetches: (failed + 1 - from) as nat,
            waits: (failed - from) as nat,
            end: Some(Outcome::Failed),
        }),
    decreases failed - from,
{
    if from < failed {
        lemma_poll_until_error(script, max_n_retries, failed, from + 1);
    }
}

} // verus!
