//! The connection supervisor: launches one task per channel kind and awaits
//! the three in a fixed order.
//!
//! The supervisor awaits the tasks themselves, not what their workers
//! returned. A worker's failure is dealt with inside its task, so the
//! supervisor fails only where a task could not be joined.

use crate::error::SampleError;
use crate::worker::ChannelKind;
use vstd::prelude::*;

verus! {

/// Where the supervisor of one connection stands.
#[derive(Clone, Copy, Debug, PartialEq, Eq, Structural)]
pub enum Stage {
    /// The connection is established; no task has been launched.
    Start,
    /// The three tasks are launched; none has been awaited to its end.
    Spawned,
    /// The tasks before this kind are joined; the task of this kind is being
    /// awaited.
    Joining(ChannelKind),
    /// Supervision is over.
    Done,
}

/// What the supervisor does after a task has been joined.
#[derive(Debug, Clone, PartialEq, Eq)]
pub enum Verdict {
    /// Await the task of this kind next.
    Await(ChannelKind),
    /// All three tasks are joined: return to the accept loop.
    Finished,
    /// The task could not be joined: give up the connection with this
    /// failure.
    Failed(SampleError),
}

/// The state of the supervisor of one connection.
#[derive(Clone, Copy, Debug, PartialEq, Eq, Structural)]
pub struct Supervisor {
    /// Where the supervisor stands.
    pub stage: Stage,
    /// Whether a task could not be joined.
    pub failed: bool,
}

/// The order in which the tasks are launched, and in which they are joined.
pub open spec fn launch_order() -> Seq<ChannelKind> {
    seq![ChannelKind::Bi, ChannelKind::Uni, ChannelKind::Datagram]
}

/// The kind that follows `kind` in the order, if any does.
pub open spec fn successor(kind: ChannelKind) -> Option<ChannelKind> {
    match kind {
        ChannelKind::Bi => Some(ChannelKind::Uni),
        ChannelKind::Uni => Some(ChannelKind::Datagram),
        ChannelKind::Datagram => None,
    }
}

/// What follows from joining the task of `kind` with `result`.
pub open spec fn verdict_for(kind: ChannelKind, result: Result<(), String>) -> Verdict {
    match result {
        Err(cause) => Verdict::Failed(SampleError::JoinError(cause)),
        Ok(_) => match successor(kind) {
            Some(next) => Verdict::Await(next),
            None => Verdict::Finished,
        },
    }
}

impl Supervisor {
    /// A failure is recorded only at the end, and the first task is awaited
    /// from the stage `Spawned`.
    pub open spec fn wf(self) -> bool {
        &&& self.failed ==> self.stage == Stage::Done
        &&& self.stage != Stage::Joining(ChannelKind::Bi)
    }

    /// The supervisor of a connection that has just been established.
    pub open spec fn fresh() -> Supervisor {
        Supervisor { stage: Stage::Start, failed: false }
    }

    /// The supervisor once the three tasks are launched.
    pub open spec fn spawned() -> Supervisor {
        Supervisor { stage: Stage::Spawned, failed: false }
    }

    /// The kind of the task that is awaited, where one is.
    pub open spec fn pending_join(self) -> Option<ChannelKind> {
        match self.stage {
            Stage::Spawned => Some(ChannelKind::Bi),
            Stage::Joining(kind) => Some(kind),
            _ => None,
        }
    }

    /// The supervisor after the awaited task was joined with `result`.
    pub open spec fn after_join(self, result: Result<(), String>) -> Supervisor {
        match self.pending_join() {
            Some(kind) => match verdict_for(kind, result) {
                Verdict::Await(next) => Supervisor { stage: Stage::Joining(next), failed: false },
                Verdict::Finished => Supervisor { stage: Stage::Done, failed: false },
                Verdict::Failed(_) => Supervisor { stage: Stage::Done, failed: true },
            },
            None => self,
        }
    }

    /// The supervisor of a connection that has just been established.
    pub fn new() -> (supervisor: Supervisor)
        ensures
            supervisor == Supervisor::fresh(),
            supervisor.wf(),
    {
        Supervisor { stage: Stage::Start, failed: false }
    }

    /// Records that the tasks are being launched, and gives the kinds in the
    /// order in which to launch them.
    pub fn spawn(&mut self) -> (order: Vec<ChannelKind>)
        requires
            old(self).stage == Stage::Start,
        ensures
            *final(self) == Supervisor::spawned(),
            final(self).wf(),
            order@ == launch_order(),
    {
        self.stage = Stage::Spawned;
        self.failed = false;
        let mut order: Vec<ChannelKind> = Vec::new();
        order.push(ChannelKind::Bi);
        order.push(ChannelKind::Uni);
        order.push(ChannelKind::Datagram);
        assert(order@ =~= launch_order());
        order
    }

    /// The kind of the task to await now: `None` before the tasks are
    /// launched and after supervision is over.
    pub fn next_join(&self) -> (kind: Option<ChannelKind>)
        ensures
            kind == self.pending_join(),
    {
        match self.stage {
            Stage::Spawned => Some(ChannelKind::Bi),
            Stage::Joining(kind) => Some(kind),
            _ => None,
        }
    }

    /// Takes the result of joining the awaited task: `Err` with the runtime's
    /// account where the task did not run to its end.
    pub fn joined(&mut self, result: Result<(), String>) -> (verdict: Verdict)
        requires
            old(self).wf(),
            old(self).pending_join() is Some,
        ensures
            *final(self) == old(self).after_join(result),
            final(self).wf(),
            verdict == verdict_for(old(self).pending_join()->0, result),
    {
        let kind = match self.stage {
            Stage::Joining(kind) => kind,
            _ => ChannelKind::Bi,
        };
        match result {
            Err(cause) => {
                self.stage = Stage::Done;
                self.failed = true;
                Verdict::Failed(SampleError::JoinError(cause))
            },
            Ok(_) => match kind {
                ChannelKind::Bi => {
                    self.stage = Stage::Joining(ChannelKind::Uni);
                    Verdict::Await(ChannelKind::Uni)
                },
                ChannelKind::Uni => {
                    self.stage = Stage::Joining(ChannelKind::Datagram);
                    Verdict::Await(ChannelKind::Datagram)
                },
                ChannelKind::Datagram => {
                    self.stage = Stage::Done;
                    Verdict::Finished
                },
            },
        }
    }

    /// Whether supervision is over.
    pub fn is_done(&self) -> (done: bool)
        ensures
            done == (self.stage == Stage::Done),
    {
        matches!(self.stage, Stage::Done)
    }
}

/// Joining goes through the tasks in the launch order and ends after the
/// third: three joins without a failure lead from `Spawned` to `Done`, by way
/// of the unidirectional and the datagram task.
pub proof fn law_join_order_is_fixed()
    ensures
        Supervisor::spawned().pending_join() == Some(launch_order()[0]),
        Supervisor::spawned().after_join(Ok(())).pending_join() == Some(launch_order()[1]),
        Supervisor::spawned().after_join(Ok(())).after_join(Ok(())).pending_join() == Some(
            launch_order()[2],
        ),
        Supervisor::spawned().after_join(Ok(())).after_join(Ok(())).after_join(Ok(()))
            == (Supervisor { stage: Stage::Done, failed: false }),
{
}

/// The first join that fails ends supervision at once, with the failure of
/// the join as the connection's failure.
pub proof fn law_join_failure_is_fatal(supervisor: Supervisor, cause: String)
    requires
        supervisor.wf(),
        supervisor.pending_join() is Some,
    ensures
        supervisor.after_join(Err(cause)) == (Supervisor { stage: Stage::Done, failed: true }),
        verdict_for(supervisor.pending_join()->0, Err(cause)) == Verdict::Failed(
            SampleError::JoinError(cause),
        ),
{
}

} // verus!
