//! The accept loop's decisions. The loop polls a non-blocking listener; what
//! a poll returned and whether shutdown was requested decide what it does
//! next.
use vstd::prelude::*;

verus! {

/// What one poll of the non-blocking listener returned.
#[derive(PartialEq, Eq, Structural, Clone, Copy, Debug)]
pub enum PollOutcome {
    /// A connection was accepted.
    Connection,
    /// No connection was pending.
    WouldBlock,
    /// Accepting failed for another reason.
    Failed,
}

/// What the accept loop does after a poll.
#[derive(PartialEq, Eq, Structural, Clone, Copy, Debug)]
pub enum LoopAction {
    /// Hand the connection to the pool, then poll again.
    Dispatch,
    /// Leave the loop, so that the pool's teardown runs.
    Stop,
    /// Yield the thread, then poll again.
    Yield,
    /// Report the error, then poll again.
    Report,
}

/// The action that follows a poll with `outcome` while the shutdown flag reads
/// `shutdown_requested`. The flag is consulted only when nothing is pending:
/// an accepted connection is always dispatched.
pub open spec fn action_of(outcome: PollOutcome, shutdown_requested: bool) -> LoopAction {
    match outcome {
        PollOutcome::Connection => LoopAction::Dispatch,
        PollOutcome::WouldBlock => if shutdown_requested {
            LoopAction::Stop
        } else {
            LoopAction::Yield
        },
        PollOutcome::Failed => LoopAction::Report,
    }
}

/// Decides what the accept loop does after a poll.
pub fn next_action(outcome: PollOutcome, shutdown_requested: bool) -> (r: LoopAction)
    ensures
        r == action_of(outcome, shutdown_requested),
{
    match outcome {
        PollOutcome::Connection => LoopAction::Dispatch,
        PollOutcome::WouldBlock => {
            if shutdown_requested {
                LoopAction::Stop
            } else {
                LoopAction::Yield
            }
        },
        PollOutcome::Failed => LoopAction::Report,
    }
}

} // verus!
