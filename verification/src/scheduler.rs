//! The background schedule: a first check shortly after startup, then one
//! every few hours, for as long as the process lives.
//!
//! The schedule only decides when a check is due. It starts no check while
//! one is in flight, it rests for a full interval after each round, and it
//! ignores what a check returns: failures reach observers as events.

use vstd::prelude::*;
use crate::state::{UpdaterState, UpdaterStateView};

verus! {

/// The pause between startup and the first check, in seconds.
pub const INITIAL_CHECK_DELAY_SECS: u64 = 30;

/// The pause between two rounds, in seconds: four hours.
pub const AUTO_CHECK_INTERVAL_SECS: u64 = 14_400;

/// Where the schedule stands.
#[derive(Debug, Clone, Copy, PartialEq, Eq, Structural)]
pub enum Scheduler {
    /// The process has just started.
    Starting,
    /// A pause has ended: a check is due.
    Due,
    /// A check was run in this round: the pause is due.
    Resting,
}

/// What the host does next for the schedule.
#[derive(Debug, Clone, Copy, PartialEq, Eq, Structural)]
pub enum SchedulerAction {
    /// Sleep for `secs` seconds.
    Sleep { secs: u64 },
    /// Run a check to its end and drop its result.
    RunCheck,
}

impl Scheduler {
    /// The action at this point of the schedule, given whether a check is in
    /// flight, and the point that follows it.
    pub open spec fn step(self, is_checking: bool) -> (Scheduler, SchedulerAction) {
        match self {
            Scheduler::Starting => (
                Scheduler::Due,
                SchedulerAction::Sleep { secs: INITIAL_CHECK_DELAY_SECS },
            ),
            Scheduler::Due => if is_checking {
                (Scheduler::Due, SchedulerAction::Sleep { secs: AUTO_CHECK_INTERVAL_SECS })
            } else {
                (Scheduler::Resting, SchedulerAction::RunCheck)
            },
            Scheduler::Resting => (
                Scheduler::Due,
                SchedulerAction::Sleep { secs: AUTO_CHECK_INTERVAL_SECS },
            ),
        }
    }

    /// Moves the schedule on and says what to do. The host calls this again
    /// when it has carried the action out; there is no last action.
    pub fn advance(&mut self, state: &UpdaterState) -> (action: SchedulerAction)
        ensures
            (*final(self), action) == old(self).step(state@.is_checking),
    {
        let (next, action) = match *self {
            Scheduler::Starting => (
                Scheduler::Due,
                SchedulerAction::Sleep { secs: INITIAL_CHECK_DELAY_SECS },
            ),
            Scheduler::Due => if state.is_checking() {
                (Scheduler::Due, SchedulerAction::Sleep { secs: AUTO_CHECK_INTERVAL_SECS })
            } else {
                (Scheduler::Resting, SchedulerAction::RunCheck)
            },
            Scheduler::Resting => (
                Scheduler::Due,
                SchedulerAction::Sleep { secs: AUTO_CHECK_INTERVAL_SECS },
            ),
        };
        *self = next;
        action
    }
}

/// The shared state of a process that has not checked yet, and the schedule
/// at its start. The host keeps the first for every operation and drives the
/// second from one background task.
pub fn start_auto_updater() -> (started: (UpdaterState, Scheduler))
    ensures
        started.0@ == UpdaterStateView::idle(),
        started.0@.wf(),
        started.1 == Scheduler::Starting,
{
    (UpdaterState::default(), Scheduler::Starting)
}

} // verus!
