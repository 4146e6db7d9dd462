//! Waiting for a child process with a time limit: what to do after each
//! look at the child. The caller polls the child, keeps the clock and
//! performs the step.

use vstd::prelude::*;

verus! {

/// The pause between two looks at a running child, in milliseconds.
pub const WAIT_POLL_MS: u64 = 50;

/// What one look at the child showed.
pub enum ChildPoll {
    /// It has exited, successfully or not.
    Exited(bool),
    /// It is still running.
    Running,
    /// Its state could not be read.
    Failed,
}

/// What the waiter does next.
#[derive(Debug, PartialEq, Eq, Structural)]
pub enum WaitStep {
    /// Stop waiting and report whether the child succeeded.
    Done(bool),
    /// Pause `WAIT_POLL_MS` and look again.
    Sleep,
    /// Kill the child's process tree, reap it, and report failure.
    KillAndFail,
}

/// An exited child ends the wait with its outcome; a running one is waited
/// for while less than `timeout_ms` has passed, and killed after that; a
/// child whose state cannot be read is killed.
pub fn wait_step(poll: ChildPoll, elapsed_ms: u64, timeout_ms: u64) -> (r: WaitStep)
    ensures
        r == match poll {
            ChildPoll::Exited(success) => WaitStep::Done(success),
            ChildPoll::Running => if elapsed_ms < timeout_ms {
                WaitStep::Sleep
            } else {
                WaitStep::KillAndFail
            },
            ChildPoll::Failed => WaitStep::KillAndFail,
        },
{
    match poll {
        ChildPoll::Exited(success) => WaitStep::Done(success),
        ChildPoll::Running => if elapsed_ms < timeout_ms {
            WaitStep::Sleep
        } else {
            WaitStep::KillAndFail
        },
        ChildPoll::Failed => WaitStep::KillAndFail,
    }
}

} // verus!
