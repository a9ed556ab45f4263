//! The two retry disciplines: an indefinite policy for reads that must not
//! abort the process, and a bounded policy for the record write. The state
//! machine decides, after each attempt's outcome, whether the run is over;
//! the host performs the attempts and the sleeps in between.

use vstd::prelude::*;

verus! {

/// Seconds the indefinite policy waits between attempts: long, so a flaky
/// dependency is not hammered.
pub const INDEFINITE_RETRY_DELAY_SECS: u64 = 60;

/// Seconds the bounded policy waits between attempts: short, so a failed
/// write does not hold up the next polling cycle for long.
pub const BOUNDED_RETRY_DELAY_SECS: u64 = 5;

/// Retries granted to the record write after its first attempt: a write is
/// tried at most this many times plus one before its failure is reported.
pub const WRITE_RETRY_BUDGET: u16 = 3;

/// How a fallible operation is to be re-invoked: forever until it succeeds,
/// or at most `budget` further times after the first attempt.
#[derive(Debug, Clone, Copy)]
pub enum RetryPolicy {
    Indefinite,
    Bounded { budget: u16 },
}

/// What the executor must do once an attempt's outcome is known.
#[derive(Debug, Clone, Copy, PartialEq, Eq, Structural)]
pub enum RetryDecision {
    /// The attempt succeeded: hand its value out.
    Done,
    /// The attempt failed and another is permitted: sleep, then retry.
    SleepAndRetry,
    /// The attempt failed and the budget is spent: report failure.
    GiveUp,
}

/// The executor's state between attempts: under the bounded policy, how
/// many attempts are still permitted, the next one included.
#[derive(Debug, Clone, Copy)]
pub enum RetryState {
    Indefinite,
    Bounded { remaining: u32 },
}

impl RetryState {
    /// At least one attempt is still permitted.
    pub open spec fn wf(self) -> bool {
        match self {
            RetryState::Indefinite => true,
            RetryState::Bounded { remaining } => remaining >= 1,
        }
    }

    /// The starting state of a run under `policy`. A bounded budget of n
    /// permits n + 1 attempts in all: the first try plus n retries.
    pub open spec fn of_policy(policy: RetryPolicy) -> RetryState {
        match policy {
            RetryPolicy::Indefinite => RetryState::Indefinite,
            RetryPolicy::Bounded { budget } => RetryState::Bounded {
                remaining: (budget + 1) as u32,
            },
        }
    }

    pub fn new(policy: RetryPolicy) -> (s: Self)
        ensures
            s == RetryState::of_policy(policy),
            s.wf(),
    {
        match policy {
            RetryPolicy::Indefinite => RetryState::Indefinite,
            RetryPolicy::Bounded { budget } => RetryState::Bounded {
                remaining: budget as u32 + 1,
            },
        }
    }

    /// The fixed delay this policy puts between attempts.
    pub fn delay_secs(&self) -> (d: u64)
        ensures
            self is Indefinite ==> d == INDEFINITE_RETRY_DELAY_SECS,
            self is Bounded ==> d == BOUNDED_RETRY_DELAY_SECS,
    {
        match self {
            RetryState::Indefinite => INDEFINITE_RETRY_DELAY_SECS,
            RetryState::Bounded { .. } => BOUNDED_RETRY_DELAY_SECS,
        }
    }

    /// Consumes one attempt's outcome. A success always ends the run; a
    /// failure ends it only when the attempt just made was the last one the
    /// budget permitted. The indefinite policy never gives up.
    pub fn on_outcome(&mut self, success: bool) -> (d: RetryDecision)
        requires
            old(self).wf(),
        ensures
            success ==> d == RetryDecision::Done && *final(self) == *old(self),
            !success ==> (match *old(self) {
                RetryState::Indefinite => d == RetryDecision::SleepAndRetry && *final(self) == *old(
                    self,
                ),
                RetryState::Bounded { remaining } => *final(self) == (RetryState::Bounded {
                    remaining: (remaining - 1) as u32,
                }) && d == (if remaining == 1 {
                    RetryDecision::GiveUp
                } else {
                    RetryDecision::SleepAndRetry
                }),
            }),
    {
        if success {
            return RetryDecision::Done;
        }
        match *self {
            RetryState::Indefinite => RetryDecision::SleepAndRetry,
            RetryState::Bounded { remaining } => {
                let left = remaining - 1;
                *self = RetryState::Bounded { remaining: left };
                if left == 0 {
                    RetryDecision::GiveUp
                } else {
                    RetryDecision::SleepAndRetry
                }
            },
        }
    }
}

/// One simulated run of a retry policy: whether it ended in success, and
/// how many attempts it made.
#[derive(Debug, Clone, Copy, PartialEq, Eq, Structural)]
pub struct RetryRun {
    pub succeeded: bool,
    pub attempts: usize,
}

/// Runs the bounded policy against an operation whose outcomes are scripted
/// in `outcomes` (entry k tells whether attempt k + 1 would succeed): the
/// run stops at the first success, or after budget + 1 failed attempts.
///
/// The last two clauses state the bounded discipline's laws: an operation
/// that always fails is attempted exactly budget + 1 times and the run
/// reports failure; one that first succeeds on attempt k + 1, with k within
/// the budget, is attempted exactly k + 1 times and the run reports success.
pub fn retry_times(budget: u16, outcomes: &Vec<bool>) -> (r: RetryRun)
    requires
        outcomes@.len() >= budget + 1,
    ensures
        r.succeeded ==> 1 <= r.attempts <= budget + 1 && outcomes@[r.attempts - 1] && (forall|
            j: int,
        | 0 <= j < r.attempts - 1 ==> !outcomes@[j]),
        !r.succeeded ==> r.attempts == budget + 1 && (forall|j: int|
            0 <= j <= budget ==> !outcomes@[j]),
        (forall|j: int| 0 <= j <= budget ==> !outcomes@[j]) ==> !r.succeeded && r.attempts
            == budget + 1,
        forall|k: int|
            0 <= k <= budget && outcomes@[k] && (forall|j: int| 0 <= j < k ==> !outcomes@[j])
                ==> r.succeeded && r.attempts == k + 1,
{
    let mut state = RetryState::new(RetryPolicy::Bounded { budget });
    let mut attempts: usize = 0;
    loop
        invariant
            outcomes@.len() >= budget + 1,
            attempts <= budget,
            state == (RetryState::Bounded { remaining: (budget + 1 - attempts) as u32 }),
            forall|j: int| 0 <= j < attempts ==> !outcomes@[j],
        decreases budget + 1 - attempts,
    {
        let success = outcomes[attempts];
        attempts = attempts + 1;
        match state.on_outcome(success) {
            RetryDecision::Done => {
                return RetryRun { succeeded: true, attempts };
            },
            RetryDecision::GiveUp => {
                return RetryRun { succeeded: false, attempts };
            },
            RetryDecision::SleepAndRetry => {},
        }
    }
}

/// Runs the indefinite policy against an operation whose outcomes are
/// scripted in `outcomes`: attempts are made until the first success, and
/// the count of attempts made is returned. There is no failure case to
/// return — the indefinite policy never gives up.
///
/// The last clause states the indefinite discipline's law: an operation
/// that fails exactly m times and then succeeds is attempted exactly m + 1
/// times.
pub fn retry_indefinitely(outcomes: &Vec<bool>) -> (attempts: usize)
    requires
        exists|i: int| 0 <= i < outcomes@.len() && outcomes@[i],
    ensures
        1 <= attempts <= outcomes@.len(),
        outcomes@[attempts - 1],
        forall|j: int| 0 <= j < attempts - 1 ==> !outcomes@[j],
        forall|m: int|
            0 <= m < outcomes@.len() && outcomes@[m] && (forall|j: int|
                0 <= j < m ==> !outcomes@[j]) ==> attempts == m + 1,
{
    let mut state = RetryState::new(RetryPolicy::Indefinite);
    let n = outcomes.len();
    let mut attempts: usize = 0;
    loop
        invariant
            state is Indefinite,
            n == outcomes@.len(),
            attempts <= n,
            exists|i: int| 0 <= i < outcomes@.len() && outcomes@[i],
            forall|j: int| 0 <= j < attempts ==> !outcomes@[j],
        decreases outcomes@.len() - attempts,
    {
        proof {
            let i = choose|i: int| 0 <= i < outcomes@.len() && outcomes@[i];
            assert(attempts <= i);
        }
        let success = outcomes[attempts];
        attempts = attempts + 1;
        match state.on_outcome(success) {
            RetryDecision::Done => {
                return attempts;
            },
            RetryDecision::GiveUp => {},
            RetryDecision::SleepAndRetry => {},
        }
    }
}

} // verus!
