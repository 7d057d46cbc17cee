//! The network retry layer: push, fetch and pull are retried with a
//! bounded budget and a fixed delay. The attempt counter and delay travel
//! in an explicit configuration, never in ambient state, and the decision
//! after each attempt is a function of the budget, the attempts made and
//! that attempt's outcome.

use vstd::prelude::*;
use crate::errors::{GtError, GtResult};
use crate::repo::Repository;

verus! {

/// The retry budget and pacing of network operations.
#[derive(Debug, Clone)]
pub struct NetworkConfig {
    /// How many times the underlying operation is invoked before failing.
    pub max_attempts: usize,
    /// The fixed pause between attempts, in seconds.
    pub delay_seconds: u64,
    /// Whether progress is reported while retrying.
    pub verbose: bool,
}

impl Default for NetworkConfig {
    /// The default budget: up to 50 attempts, one second apart, reported.
    fn default() -> (r: NetworkConfig)
        ensures
            r.max_attempts == 50,
            r.delay_seconds == 1,
            r.verbose == true,
    {
        NetworkConfig { max_attempts: 50, delay_seconds: 1, verbose: true }
    }
}

/// What the retry layer does right after one attempt.
#[derive(Debug, Clone, Copy, PartialEq, Eq, Structural)]
pub enum RetryDecision {
    /// The attempt succeeded: stop at once, with no further retries.
    Success,
    /// The attempt failed with budget to spare: sleep this many seconds
    /// and invoke the operation again.
    RetryAfterDelay { delay_seconds: u64 },
    /// The attempt failed and the budget is exhausted: report the failure.
    GiveUp,
}

/// The decision after the `attempts_made`-th invocation: success stops at
/// once; a failure gives up exactly when the budget is used up, and
/// otherwise waits the configured delay and retries.
pub open spec fn spec_retry_decision(
    max_attempts: nat,
    delay_seconds: u64,
    attempts_made: nat,
    succeeded: bool,
) -> RetryDecision {
    if succeeded {
        RetryDecision::Success
    } else if attempts_made >= max_attempts {
        RetryDecision::GiveUp
    } else {
        RetryDecision::RetryAfterDelay { delay_seconds }
    }
}

/// How many times the operation is invoked under a budget of
/// `max_attempts`, when the successive attempts come out as `outcomes`
/// says: invocations stop at the first success, or when the budget is
/// exhausted.
pub open spec fn spec_attempts_used(max_attempts: nat, outcomes: Seq<bool>) -> nat
    decreases max_attempts,
{
    if max_attempts <= 1 || outcomes.len() == 0 {
        1
    } else if outcomes[0] {
        1
    } else {
        1 + spec_attempts_used((max_attempts - 1) as nat, outcomes.drop_first())
    }
}

/// The retry layer never invokes the operation less than once nor more
/// often than the budget allows.
pub proof fn lemma_attempts_bounds(max_attempts: nat, outcomes: Seq<bool>)
    requires
        max_attempts >= 1,
    ensures
        1 <= spec_attempts_used(max_attempts, outcomes) <= max_attempts,
    decreases max_attempts,
{
    if max_attempts > 1 && outcomes.len() > 0 && !outcomes[0] {
        lemma_attempts_bounds((max_attempts - 1) as nat, outcomes.drop_first());
    }
}

/// Law: when every attempt fails, the underlying operation is invoked
/// exactly `max_attempts` times before the layer fails.
pub proof fn lemma_retry_exhausts_budget(max_attempts: nat, outcomes: Seq<bool>)
    requires
        max_attempts >= 1,
        outcomes.len() >= max_attempts,
        forall|i: int| 0 <= i < max_attempts ==> !outcomes[i],
    ensures
        spec_attempts_used(max_attempts, outcomes) == max_attempts,
    decreases max_attempts,
{
    if max_attempts > 1 {
        assert(!outcomes[0]);
        let rest = outcomes.drop_first();
        assert forall|i: int| 0 <= i < max_attempts - 1 implies !rest[i] by {
            assert(rest[i] == outcomes[i + 1]);
        }
        lemma_retry_exhausts_budget((max_attempts - 1) as nat, rest);
    }
}

/// Law: the layer succeeds on the first successful attempt without
/// further retries: with the first success at position `i` (counted from
/// zero), the operation is invoked exactly `i + 1` times.
pub proof fn lemma_retry_stops_at_first_success(max_attempts: nat, outcomes: Seq<bool>, i: int)
    requires
        max_attempts >= 1,
        0 <= i < max_attempts,
        i < outcomes.len(),
        forall|j: int| 0 <= j < i ==> !outcomes[j],
        outcomes[i],
    ensures
        spec_attempts_used(max_attempts, outcomes) == i + 1,
    decreases max_attempts,
{
    if i == 0 {
    } else {
        assert(!outcomes[0]);
        let rest = outcomes.drop_first();
        assert forall|j: int| 0 <= j < i - 1 implies !rest[j] by {
            assert(rest[j] == outcomes[j + 1]);
        }
        assert(rest[i - 1] == outcomes[i]);
        lemma_retry_stops_at_first_success((max_attempts - 1) as nat, rest, i - 1);
    }
}

/// Law: while the invocation count has not been reached, every decision
/// is to wait and retry — the layer stops early only on success.
pub proof fn lemma_retry_keeps_going(
    max_attempts: nat,
    delay_seconds: u64,
    outcomes: Seq<bool>,
    k: nat,
)
    requires
        max_attempts >= 1,
        outcomes.len() >= max_attempts,
        1 <= k < spec_attempts_used(max_attempts, outcomes),
    ensures
        !outcomes[k - 1],
        k < max_attempts,
        spec_retry_decision(max_attempts, delay_seconds, k, outcomes[k - 1])
            is RetryAfterDelay,
    decreases max_attempts,
{
    lemma_attempts_bounds(max_attempts, outcomes);
    if k == 1 {
        assert(!outcomes[0]);
    } else {
        assert(!outcomes[0]);
        let rest = outcomes.drop_first();
        lemma_retry_keeps_going((max_attempts - 1) as nat, delay_seconds, rest, (k - 1) as nat);
        assert(rest[k - 2] == outcomes[k - 1]);
    }
}

/// Law: the final decision is success exactly when the last invocation
/// succeeded, and the layer gives up only with the whole budget spent.
pub proof fn lemma_retry_final_decision(
    max_attempts: nat,
    delay_seconds: u64,
    outcomes: Seq<bool>,
)
    requires
        max_attempts >= 1,
        outcomes.len() >= max_attempts,
    ensures
        ({
            let k = spec_attempts_used(max_attempts, outcomes);
            &&& (outcomes[k - 1] ==> spec_retry_decision(
                max_attempts,
                delay_seconds,
                k,
                outcomes[k - 1],
            ) is Success)
            &&& (!outcomes[k - 1] ==> k == max_attempts && spec_retry_decision(
                max_attempts,
                delay_seconds,
                k,
                outcomes[k - 1],
            ) is GiveUp)
        }),
    decreases max_attempts,
{
    lemma_attempts_bounds(max_attempts, outcomes);
    let k = spec_attempts_used(max_attempts, outcomes);
    if max_attempts == 1 {
    } else if outcomes[0] {
    } else {
        let rest = outcomes.drop_first();
        lemma_retry_final_decision((max_attempts - 1) as nat, delay_seconds, rest);
        lemma_attempts_bounds((max_attempts - 1) as nat, rest);
        assert(rest[k - 2] == outcomes[k - 1]);
    }
}

/// The manager that retried network operations go through.
pub struct NetworkOps {
    pub config: NetworkConfig,
}

impl NetworkOps {
    /// Creates the manager over a retry configuration.
    pub fn new(config: NetworkConfig) -> (r: NetworkOps)
        ensures
            r.config == config,
    {
        NetworkOps { config }
    }

    /// Decides what to do right after the `attempts_made`-th invocation of
    /// the underlying operation came out as `succeeded` says.
    pub fn next_step(&self, attempts_made: usize, succeeded: bool) -> (r: RetryDecision)
        ensures
            r == spec_retry_decision(
                self.config.max_attempts as nat,
                self.config.delay_seconds,
                attempts_made as nat,
                succeeded,
            ),
    {
        if succeeded {
            RetryDecision::Success
        } else if attempts_made >= self.config.max_attempts {
            RetryDecision::GiveUp
        } else {
            RetryDecision::RetryAfterDelay { delay_seconds: self.config.delay_seconds }
        }
    }

    /// The failure reported when the budget is exhausted: the retry count,
    /// wrapped as a network timeout.
    pub fn exhausted_error(&self) -> (r: GtError)
        ensures
            r matches GtError::NetworkTimeout { attempts } && attempts
                == if self.config.max_attempts <= u32::MAX as usize {
                self.config.max_attempts as u32
            } else {
                u32::MAX
            },
    {
        if self.config.max_attempts <= u32::MAX as usize {
            GtError::NetworkTimeout { attempts: self.config.max_attempts as u32 }
        } else {
            GtError::NetworkTimeout { attempts: u32::MAX }
        }
    }

    /// Checks connectivity to a remote by attempting one fetch; the
    /// outcome is reported as a flag, never as a failure.
    pub fn check_connectivity(&self, repo: &Repository, remote: &str) -> (r: GtResult<bool>)
        ensures
            r is Ok,
    {
        match repo.fetch(remote) {
            Ok(()) => Ok(true),
            Err(_) => Ok(false),
        }
    }
}

} // verus!
