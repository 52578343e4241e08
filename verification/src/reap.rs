//! The supervisor's reap loop decision.
//!
//! After all watchers are scheduled, the supervisor blocks waiting for any
//! child's state change, logs the affected process id, and repeats forever.
//! The wait itself is a blocking system call made outside this crate; what
//! is verified here is the loop's one decision: a transient wait failure is
//! retried in place, anything else names a dead child to log. No
//! correlation back to which service died is kept — the supervisor keeps no
//! process table, so it structurally cannot restart a crashed service.

use vstd::prelude::*;

verus! {

/// What the reap loop does with one wait result.
#[derive(Clone, Copy, Debug, PartialEq, Eq, Structural)]
pub enum ReapOutcome {
    /// The wait failed transiently: retry in place, neither fatal nor
    /// logged as an anomaly.
    Retry,
    /// This child process changed state: log its process id and wait
    /// again.
    ChildDied(i32),
}

/// Decides the reap loop's next step from the wait call's result: a
/// failure indication (a negative result) is retried, any other result is
/// the process id of a dead child.
pub fn reap_outcome(wait_result: i32) -> (r: ReapOutcome)
    ensures
        r == if wait_result < 0 {
            ReapOutcome::Retry
        } else {
            ReapOutcome::ChildDied(wait_result)
        },
{
    if wait_result < 0 {
        ReapOutcome::Retry
    } else {
        ReapOutcome::ChildDied(wait_result)
    }
}

} // verus!
