//! Bounded polling: wait for a predicate by re-checking it a fixed number
//! of times at a fixed interval, with a mid-point warning. The verified
//! part decides the outcome from the sequence of observations; the
//! unverified shell sleeps and observes.

use vstd::prelude::*;

verus! {

/// How one polling loop is paced: the sleep between attempts, the attempt
/// budget, and the attempt index at which a slow run is worth a warning.
#[derive(Debug, Clone, Copy, PartialEq, Eq, Structural)]
pub struct PollSchedule {
    pub interval_ms: u64,
    pub max_attempts: usize,
    pub warn_at: usize,
}

/// How a polling loop ended.
#[derive(Debug, Clone, Copy, PartialEq, Eq, Structural)]
pub enum PollOutcome {
    /// The predicate held; the carried count is the number of attempts
    /// spent, the last of which observed success.
    Satisfied(usize),
    /// The predicate never held; the carried count is the whole attempt
    /// budget, all of it spent.
    TimedOut(usize),
}

/// The index of the first successful observation among the first `max`,
/// if any.
pub open spec fn first_success(obs: Seq<bool>, max: int) -> Option<int>
    decreases obs.len(),
{
    if max <= 0 || obs.len() == 0 {
        None
    } else if obs[0] {
        Some(0)
    } else {
        match first_success(obs.skip(1), max - 1) {
            Some(i) => Some(i + 1),
            None => None,
        }
    }
}

/// A successful observation at `i`, preceded by failures only, is what
/// `first_success` finds.
pub proof fn lemma_first_success_at(obs: Seq<bool>, max: int, i: int)
    requires
        0 <= i < max,
        i < obs.len(),
        obs[i],
        forall|j: int| 0 <= j < i ==> !obs[j],
    ensures
        first_success(obs, max) == Some(i),
    decreases obs.len(),
{
    if i == 0 {
    } else {
        assert(!obs[0]);
        assert(obs.skip(1)[i - 1] == obs[i]);
        assert(forall|j: int| 0 <= j < i - 1 ==> obs.skip(1)[j] == obs[j + 1]);
        lemma_first_success_at(obs.skip(1), max - 1, i - 1);
    }
}

/// With no successful observation among the first `max`, `first_success`
/// finds nothing.
pub proof fn lemma_first_success_none(obs: Seq<bool>, max: int)
    requires
        forall|j: int| 0 <= j < max && j < obs.len() ==> !obs[j],
    ensures
        first_success(obs, max) is None,
    decreases obs.len(),
{
    if max <= 0 || obs.len() == 0 {
    } else {
        assert(!obs[0]);
        assert(forall|j: int|
            0 <= j < max - 1 && j < obs.skip(1).len() ==> obs.skip(1)[j] == obs[j + 1]);
        lemma_first_success_none(obs.skip(1), max - 1);
    }
}

/// The outcome of a polling loop with attempt budget `max_attempts`,
/// given what each attempt observed: success on the first attempt that
/// observed the predicate, a timeout with the whole budget spent when
/// none did.
pub fn run_poll(max_attempts: usize, obs: &Vec<bool>) -> (r: PollOutcome)
    ensures
        match first_success(obs@, max_attempts as int) {
            Some(i) => r == PollOutcome::Satisfied((i + 1) as usize),
            None => r == PollOutcome::TimedOut(max_attempts),
        },
{
    let mut attempt: usize = 0;
    while attempt < max_attempts
        invariant
            attempt <= max_attempts,
            forall|j: int| 0 <= j < attempt && j < obs@.len() ==> !obs@[j],
        decreases max_attempts - attempt,
    {
        if attempt < obs.len() && obs[attempt] {
            proof {
                lemma_first_success_at(obs@, max_attempts as int, attempt as int);
            }
            return PollOutcome::Satisfied(attempt + 1);
        }
        attempt += 1;
    }
    proof {
        lemma_first_success_none(obs@, max_attempts as int);
    }
    PollOutcome::TimedOut(max_attempts)
}

} // verus!
