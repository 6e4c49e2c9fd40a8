//! The retry-until-success connection loop for the peer-presence client.
//!
//! The loop has no upper bound on attempts and no cancellation: the feature
//! it serves is optional and low-priority, so it retries silently, forever
//! if need be, sleeping one fixed interval after every failed attempt.  The
//! decision logic is verified here; the host program performs the actual
//! attempts and sleeps, feeding each outcome back into the loop.

use vstd::prelude::*;

verus! {

/// Seconds slept between two connection attempts (fixed; no jitter, no
/// backoff growth).
pub const RETRY_INTERVAL_SECS: u64 = 3;

/// What the loop does after one attempt.
#[derive(Clone, Copy, Debug, PartialEq, Eq, Structural)]
pub enum RetryDecision {
    /// The attempt yielded a live handle: hand it upward and stop.
    Accept,
    /// The attempt failed: sleep one interval, then try again.
    SleepThenRetry,
}

/// One decision of the loop.  A success is terminal; a failure is never
/// dropped — it always schedules the next attempt.
pub fn next_decision(attempt_succeeded: bool) -> (d: RetryDecision)
    ensures
        (d == RetryDecision::Accept) <==> attempt_succeeded,
        (d == RetryDecision::SleepThenRetry) <==> !attempt_succeeded,
{
    if attempt_succeeded {
        RetryDecision::Accept
    } else {
        RetryDecision::SleepThenRetry
    }
}

/// The connector's bookkeeping while the loop runs.
pub struct RetryConnector {
    /// The identity presented to the peer service on every attempt.
    pub identity: Vec<u8>,
    /// Completed attempts that failed so far; one interval is slept after
    /// each of them.
    pub failed_attempts: u64,
}

impl RetryConnector {
    /// A connector that has not attempted anything yet.
    pub fn new(identity: Vec<u8>) -> (c: RetryConnector)
        ensures
            c.identity == identity,
            c.failed_attempts == 0,
    {
        RetryConnector { identity, failed_attempts: 0 }
    }

    /// Records one failed attempt (the host sleeps one interval after it).
    pub fn record_failure(&mut self)
        requires
            old(self).failed_attempts < u64::MAX,
        ensures
            final(self).identity == old(self).identity,
            final(self).failed_attempts == old(self).failed_attempts + 1,
    {
        self.failed_attempts = self.failed_attempts + 1;
    }

    /// Total seconds spent sleeping so far: one interval per failed attempt.
    pub fn waited_secs(&self) -> (w: u64)
        requires
            self.failed_attempts <= u64::MAX / RETRY_INTERVAL_SECS,
        ensures
            w == self.failed_attempts * RETRY_INTERVAL_SECS,
    {
        self.failed_attempts * RETRY_INTERVAL_SECS
    }
}

/// The report of a connection loop that found a live handle.
#[derive(Clone, Copy, Debug, PartialEq, Eq, Structural)]
pub struct ConnectResult {
    /// The handle returned by the attempt that succeeded.
    pub handle: u64,
    /// How many attempts failed before it.
    pub failed_attempts: usize,
    /// Total seconds spent sleeping before success: one interval per
    /// failed attempt.
    pub waited_secs: u64,
}

/// Runs the retry loop against a pre-recorded run of attempt outcomes:
/// `outcomes[i]` is the handle attempt `i` would yield, or `None` where it
/// would fail.  The loop accepts the first success and never looks past it;
/// it reports nothing while the script holds only failures (the unbounded
/// live loop simply keeps going in that case).
pub fn connect_from_script(outcomes: &Vec<Option<u64>>) -> (r: Option<ConnectResult>)
    requires
        outcomes@.len() * RETRY_INTERVAL_SECS <= u64::MAX,
    ensures
        match r {
            Some(c) => {
                &&& c.failed_attempts < outcomes@.len()
                &&& outcomes@[c.failed_attempts as int] is Some
                &&& c.handle == outcomes@[c.failed_attempts as int]->Some_0
                &&& forall|j: int| 0 <= j < c.failed_attempts ==> outcomes@[j] is None
                &&& c.waited_secs == c.failed_attempts * RETRY_INTERVAL_SECS
            },
            None => forall|j: int| 0 <= j < outcomes@.len() ==> outcomes@[j] is None,
        },
{
    let mut i: usize = 0;
    while i < outcomes.len()
        invariant
            i <= outcomes@.len(),
            outcomes@.len() * RETRY_INTERVAL_SECS <= u64::MAX,
            forall|j: int| 0 <= j < i ==> outcomes@[j] is None,
        decreases outcomes@.len() - i,
    {
        match outcomes[i] {
            Some(h) => {
                let waited: u64 = (i as u64) * RETRY_INTERVAL_SECS;
                return Some(
                    ConnectResult { handle: h, failed_attempts: i, waited_secs: waited },
                );
            },
            None => {
                i = i + 1;
            },
        }
    }
    None
}

} // verus!
