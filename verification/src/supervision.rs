//! One connection under supervision, seen as a whole: the supervisor, the
//! cancellation signal, the three tasks with their workers, and the handles
//! that keep the connection alive.
//!
//! The tasks of a connection run side by side. Here their turns are taken
//! one at a time, in any order: each turn is what one task does the next
//! time it is scheduled.

use crate::error::SampleError;
use crate::signal::Signal;
use crate::supervisor::{verdict_for, Stage, Supervisor, Verdict};
use crate::task::{
    judge, settled_log, settled_state, triggers_cancellation, Finish, Settlement, TaskState,
};
use crate::worker::{
    next_operation, receipt_for, ChannelKind, Operation, OperationView, Outcome, Phase, Receipt,
    Worker,
};
use vstd::prelude::*;

verus! {

/// A task and the worker that it wraps.
#[derive(Clone, Copy, Debug, PartialEq, Eq, Structural)]
pub struct Task {
    /// The state of the task.
    pub state: TaskState,
    /// The worker inside it.
    pub worker: Worker,
}

/// What one turn of a task brings about.
#[derive(Debug, Clone, PartialEq, Eq)]
pub struct Turn {
    /// The operation that the task goes on to perform on the connection, if
    /// it goes on at all.
    pub operation: Option<Operation>,
    /// The unit of work to report, if one arrived.
    pub receipt: Option<Receipt>,
    /// The line to log, if the worker failed in this turn.
    pub log: Option<String>,
}

impl Turn {
    /// The operation, with its payload as a sequence of bytes.
    pub open spec fn operation_view(self) -> Option<OperationView> {
        match self.operation {
            Some(operation) => Some(operation@),
            None => None,
        }
    }

    /// The line to log, as text.
    pub open spec fn log_text(self) -> Option<Seq<char>> {
        match self.log {
            Some(line) => Some(line@),
            None => None,
        }
    }
}

/// One connection under supervision, from the moment its tasks are launched.
#[derive(Clone, Copy, Debug, PartialEq, Eq, Structural)]
pub struct Supervision {
    /// The supervisor.
    pub supervisor: Supervisor,
    /// The cancellation signal that the three tasks share.
    pub signal: Signal,
    /// The task for bidirectional streams.
    pub bi: Task,
    /// The task for unidirectional streams.
    pub uni: Task,
    /// The task for datagrams.
    pub datagram: Task,
    /// How many handles to the connection are alive: the supervisor's own,
    /// and one in each task that has not exited.
    pub handles: usize,
}

impl Task {
    /// A task that has just been launched for `kind`.
    pub open spec fn launched(kind: ChannelKind) -> Task {
        Task { state: TaskState::Running, worker: Worker::fresh(kind) }
    }

    /// One if the task is running, zero if it has exited.
    pub open spec fn holds(self) -> nat {
        if self.state == TaskState::Running {
            1
        } else {
            0
        }
    }

    /// A worker is stopped exactly in a task that ended with the worker's
    /// failure, and no task ends with a worker's success, since a worker
    /// returns only when it fails.
    pub open spec fn wf(self, kind: ChannelKind) -> bool {
        &&& self.worker.kind == kind
        &&& self.state == TaskState::CompletedErr <==> self.worker.phase == Phase::Stopped
        &&& self.state != TaskState::CompletedOk
    }
}

impl Supervision {
    /// The task of `kind`.
    pub open spec fn task(self, kind: ChannelKind) -> Task {
        match kind {
            ChannelKind::Bi => self.bi,
            ChannelKind::Uni => self.uni,
            ChannelKind::Datagram => self.datagram,
        }
    }

    /// This supervision, with `task` in the place of the task of `kind`.
    pub open spec fn with_task(self, kind: ChannelKind, task: Task) -> Supervision {
        match kind {
            ChannelKind::Bi => Supervision { bi: task, ..self },
            ChannelKind::Uni => Supervision { uni: task, ..self },
            ChannelKind::Datagram => Supervision { datagram: task, ..self },
        }
    }

    /// This supervision with one handle fewer.
    pub open spec fn with_handle_dropped(self) -> Supervision {
        Supervision { handles: (self.handles - 1) as usize, ..self }
    }

    /// How many tasks are running.
    pub open spec fn running(self) -> nat {
        self.bi.holds() + self.uni.holds() + self.datagram.holds()
    }

    /// Whether every task has exited.
    pub open spec fn all_exited(self) -> bool {
        self.bi.state.exited() && self.uni.state.exited() && self.datagram.state.exited()
    }

    /// Whether some worker has failed.
    pub open spec fn some_worker_failed(self) -> bool {
        ||| self.bi.state == TaskState::CompletedErr
        ||| self.uni.state == TaskState::CompletedErr
        ||| self.datagram.state == TaskState::CompletedErr
    }

    /// Whether the connection has been released: no handle to it is left.
    pub open spec fn released(self) -> bool {
        self.handles == 0
    }

    /// What holds of a connection under supervision at every moment.
    pub open spec fn wf(self) -> bool {
        &&& self.supervisor.wf()
        &&& self.supervisor.stage != Stage::Start
        &&& self.signal.wf()
        &&& self.bi.wf(ChannelKind::Bi)
        &&& self.uni.wf(ChannelKind::Uni)
        &&& self.datagram.wf(ChannelKind::Datagram)
        // The signal is raised by a worker's failure and by nothing else.
        &&& self.signal.cancelled <==> self.some_worker_failed()
        // The supervisor holds its handle until it is done; each running
        // task holds one.
        &&& self.handles == self.running() + (if self.supervisor.stage == Stage::Done {
            0nat
        } else {
            1nat
        })
        // A task that has been joined has exited.
        &&& self.supervisor.stage == Stage::Joining(ChannelKind::Uni) ==> self.bi.state.exited()
        &&& self.supervisor.stage == Stage::Joining(ChannelKind::Datagram)
            ==> self.bi.state.exited() && self.uni.state.exited()
        &&& self.supervisor.stage == Stage::Done && !self.supervisor.failed ==> self.all_exited()
    }

    /// The supervision of a connection whose three tasks have just been
    /// launched.
    pub open spec fn launched() -> Supervision {
        Supervision {
            supervisor: Supervisor::spawned(),
            signal: Signal::fresh(),
            bi: Task::launched(ChannelKind::Bi),
            uni: Task::launched(ChannelKind::Uni),
            datagram: Task::launched(ChannelKind::Datagram),
            handles: 4,
        }
    }

    /// Whether the task of `kind` can take a turn in which `outcome` is
    /// what came of its pending operation. Where the task has exited, or
    /// the signal is raised, the outcome plays no part.
    pub open spec fn admits_turn(self, kind: ChannelKind, outcome: Outcome) -> bool {
        self.task(kind).state == TaskState::Running && !self.signal.cancelled ==> self.task(
            kind,
        ).worker.admits(outcome)
    }

    /// How the race of the task of `kind` ends in a turn with `outcome`, if
    /// it ends in that turn.
    ///
    /// A task that has exited has no race left. A running task that finds
    /// the signal raised loses its worker to the signal. Otherwise the
    /// worker takes the outcome, and returns only if that is a failure.
    pub open spec fn turn_finish(self, kind: ChannelKind, outcome: Outcome) -> Option<Finish> {
        if self.task(kind).state != TaskState::Running {
            None
        } else if self.signal.cancelled {
            Some(Finish::Cancelled)
        } else {
            match outcome {
                Outcome::Failed(error) => Some(Finish::Returned(Err(error))),
                _ => None,
            }
        }
    }

    /// Whether the task of `kind` goes on working in a turn with `outcome`.
    pub open spec fn goes_on(self, kind: ChannelKind, outcome: Outcome) -> bool {
        self.task(kind).state == TaskState::Running && self.turn_finish(kind, outcome) is None
    }

    /// The supervision after one turn of the task of `kind`.
    ///
    /// Where the race ends, the task takes the state that the end of the
    /// race settles, lets go of its handle, and raises the signal if the
    /// settlement says so. The worker has taken the outcome unless the
    /// signal came first.
    pub open spec fn after_turn(self, kind: ChannelKind, outcome: Outcome) -> Supervision {
        let task = self.task(kind);
        match self.turn_finish(kind, outcome) {
            Some(finish) => {
                let worker = if finish is Cancelled {
                    task.worker
                } else {
                    task.worker.after(outcome)
                };
                let signal = if triggers_cancellation(finish) {
                    self.signal.triggered()
                } else {
                    self.signal
                };
                (Supervision { signal, ..self }).with_task(
                    kind,
                    Task { state: settled_state(finish), worker },
                ).with_handle_dropped()
            },
            None => if task.state == TaskState::Running {
                self.with_task(
                    kind,
                    Task { state: TaskState::Running, worker: task.worker.after(outcome) },
                )
            } else {
                self
            },
        }
    }

    /// The operation that the task of `kind` goes on to perform.
    pub open spec fn turn_operation(self, kind: ChannelKind, outcome: Outcome) -> Option<
        OperationView,
    > {
        if self.goes_on(kind, outcome) {
            Some(next_operation(kind, outcome))
        } else {
            None
        }
    }

    /// The unit of work that the turn reports.
    pub open spec fn turn_receipt(self, kind: ChannelKind, outcome: Outcome) -> Option<Receipt> {
        if self.goes_on(kind, outcome) {
            receipt_for(kind, outcome)
        } else {
            None
        }
    }

    /// The line that the turn logs: the failure of the worker, if it fails
    /// in this turn.
    pub open spec fn turn_log(self, kind: ChannelKind, outcome: Outcome) -> Option<Seq<char>> {
        match self.turn_finish(kind, outcome) {
            Some(finish) => settled_log(kind.task_name_text(), finish),
            None => None,
        }
    }

    /// The supervision after the task of `kind` was aborted, if it was
    /// running.
    pub open spec fn after_abort(self, kind: ChannelKind) -> Supervision {
        let task = self.task(kind);
        if task.state != TaskState::Running {
            self
        } else {
            self.with_task(
                kind,
                Task { state: TaskState::Aborted, worker: task.worker },
            ).with_handle_dropped()
        }
    }

    /// Whether the awaited task can be joined with `result`: it has exited,
    /// and the join fails exactly if the task did not run to its end.
    pub open spec fn admits_join(self, result: Result<(), String>) -> bool {
        match self.supervisor.pending_join() {
            Some(kind) => {
                &&& self.task(kind).state.exited()
                &&& result is Err <==> self.task(kind).state == TaskState::Aborted
            },
            None => false,
        }
    }

    /// The supervision after the awaited task was joined with `result`. The
    /// supervisor lets go of its handle when it is done.
    pub open spec fn after_join(self, result: Result<(), String>) -> Supervision {
        let supervisor = self.supervisor.after_join(result);
        let joined = Supervision { supervisor, ..self };
        if supervisor.stage == Stage::Done {
            joined.with_handle_dropped()
        } else {
            joined
        }
    }

    /// Launches the three tasks of a connection.
    pub fn launch() -> (supervision: Supervision)
        ensures
            supervision == Supervision::launched(),
            supervision.wf(),
    {
        let mut supervisor = Supervisor::new();
        let _ = supervisor.spawn();
        Supervision {
            supervisor,
            signal: Signal::new(),
            bi: Task { state: TaskState::Running, worker: Worker::launch(ChannelKind::Bi).0 },
            uni: Task { state: TaskState::Running, worker: Worker::launch(ChannelKind::Uni).0 },
            datagram: Task {
                state: TaskState::Running,
                worker: Worker::launch(ChannelKind::Datagram).0,
            },
            handles: 4,
        }
    }

    /// The task of `kind`.
    pub fn task_of(&self, kind: ChannelKind) -> (task: Task)
        ensures
            task == self.task(kind),
    {
        match kind {
            ChannelKind::Bi => self.bi,
            ChannelKind::Uni => self.uni,
            ChannelKind::Datagram => self.datagram,
        }
    }

    /// Puts `task` in the place of the task of `kind`.
    fn set_task(&mut self, kind: ChannelKind, task: Task)
        ensures
            *final(self) == old(self).with_task(kind, task),
    {
        match kind {
            ChannelKind::Bi => {
                self.bi = task;
            },
            ChannelKind::Uni => {
                self.uni = task;
            },
            ChannelKind::Datagram => {
                self.datagram = task;
            },
        }
    }

    /// Whether the connection has been released.
    pub fn is_released(&self) -> (released: bool)
        ensures
            released == self.released(),
    {
        self.handles == 0
    }

    /// Ends the task of `kind` as `settlement` says, with `worker` as the
    /// worker it leaves behind.
    fn end_task(&mut self, kind: ChannelKind, worker: Worker, settlement: Settlement) -> (turn:
        Turn)
        requires
            old(self).signal.wf(),
            old(self).handles >= 1,
        ensures
            *final(self) == (Supervision {
                signal: if settlement.cancels {
                    old(self).signal.triggered()
                } else {
                    old(self).signal
                },
                ..*old(self)
            }).with_task(kind, Task { state: settlement.state, worker }).with_handle_dropped(),
            turn.operation is None,
            turn.receipt is None,
            turn.log == settlement.log,
    {
        if settlement.cancels {
            self.signal.trigger();
        }
        self.set_task(kind, Task { state: settlement.state, worker });
        self.handles = self.handles - 1;
        Turn { operation: None, receipt: None, log: settlement.log }
    }

    /// Lets the task of `kind` take one turn, in which `outcome` is what
    /// came of its pending operation.
    pub fn turn(&mut self, kind: ChannelKind, outcome: Outcome) -> (turn: Turn)
        requires
            old(self).wf(),
            old(self).admits_turn(kind, outcome),
        ensures
            *final(self) == old(self).after_turn(kind, outcome),
            final(self).wf(),
            turn.operation_view() == old(self).turn_operation(kind, outcome),
            turn.receipt == old(self).turn_receipt(kind, outcome),
            turn.log_text() == old(self).turn_log(kind, outcome),
    {
        let task = self.task_of(kind);
        if task.state != TaskState::Running {
            return Turn { operation: None, receipt: None, log: None };
        }
        if self.signal.is_cancelled() {
            let settlement = judge(kind.task_name(), Finish::Cancelled);
            return self.end_task(kind, task.worker, settlement);
        }
        let mut worker = task.worker;
        let step = worker.step(outcome);
        match step.next {
            Operation::Stop(error) => {
                let settlement = judge(kind.task_name(), Finish::Returned(Err(error)));
                self.end_task(kind, worker, settlement)
            },
            next => {
                self.set_task(kind, Task { state: TaskState::Running, worker });
                Turn { operation: Some(next), receipt: step.receipt, log: None }
            },
        }
    }

    /// Records that the task of `kind` was aborted: it panicked, or the
    /// runtime ended it. A task that has exited is left as it is.
    pub fn abort(&mut self, kind: ChannelKind)
        requires
            old(self).wf(),
        ensures
            *final(self) == old(self).after_abort(kind),
            final(self).wf(),
    {
        let task = self.task_of(kind);
        if task.state == TaskState::Running {
            self.set_task(kind, Task { state: TaskState::Aborted, worker: task.worker });
            self.handles = self.handles - 1;
        }
    }

    /// Whether the awaited task can be joined with `result`.
    pub fn can_join(&self, result: &Result<(), String>) -> (ok: bool)
        ensures
            ok == self.admits_join(*result),
    {
        match self.supervisor.next_join() {
            Some(kind) => {
                let state = self.task_of(kind).state;
                state != TaskState::Running && (result.is_err() == (state == TaskState::Aborted))
            },
            None => false,
        }
    }

    /// Joins the awaited task with `result`.
    pub fn join(&mut self, result: Result<(), String>) -> (verdict: Verdict)
        requires
            old(self).wf(),
            old(self).admits_join(result),
        ensures
            *final(self) == old(self).after_join(result),
            final(self).wf(),
            verdict == verdict_for(old(self).supervisor.pending_join()->0, result),
    {
        let verdict = self.supervisor.joined(result);
        if self.supervisor.is_done() {
            self.handles = self.handles - 1;
        }
        verdict
    }
}

/// The well-formedness of a supervision holds when the tasks are launched
/// and is kept by every turn of a task, every abort and every join.
pub proof fn law_supervision_stays_well_formed(
    supervision: Supervision,
    kind: ChannelKind,
    outcome: Outcome,
    result: Result<(), String>,
)
    requires
        supervision.wf(),
    ensures
        Supervision::launched().wf(),
        supervision.admits_turn(kind, outcome) ==> supervision.after_turn(kind, outcome).wf(),
        supervision.after_abort(kind).wf(),
        supervision.admits_join(result) ==> supervision.after_join(result).wf(),
{
}

/// At most one change of the signal for each connection: the signal of a
/// supervision has changed once if a worker has failed, and never otherwise,
/// however many workers fail.
pub proof fn law_signal_changes_at_most_once(supervision: Supervision)
    requires
        supervision.wf(),
    ensures
        supervision.signal.transitions <= 1,
        supervision.signal.transitions == 1 <==> supervision.some_worker_failed(),
        supervision.signal.cancelled <==> supervision.some_worker_failed(),
{
}

/// When a worker fails, its task raises the signal in that same turn, and
/// the next turn of each sibling is its last: the sibling exits with its
/// worker left where it stood, and performs no operation on the connection,
/// whatever had come of the operation it had pending.
pub proof fn law_failure_cancels_siblings(
    supervision: Supervision,
    failing: ChannelKind,
    error: SampleError,
    sibling: ChannelKind,
    outcome: Outcome,
)
    requires
        supervision.wf(),
        supervision.task(failing).state == TaskState::Running,
        !supervision.signal.cancelled,
        sibling != failing,
    ensures
        supervision.admits_turn(failing, Outcome::Failed(error)),
        ({
            let failed = supervision.after_turn(failing, Outcome::Failed(error));
            let next = failed.after_turn(sibling, outcome);
            &&& failed.wf()
            &&& failed.signal.cancelled
            &&& failed.task(failing).state == TaskState::CompletedErr
            &&& failed.task(sibling) == supervision.task(sibling)
            &&& failed.admits_turn(sibling, outcome)
            &&& failed.turn_operation(sibling, outcome) is None
            &&& failed.turn_receipt(sibling, outcome) is None
            &&& failed.turn_log(sibling, outcome) is None
            &&& next.wf()
            &&& next.task(sibling).state.exited()
            &&& supervision.task(sibling).state == TaskState::Running ==> next.task(sibling).state
                == TaskState::Cancelled
            &&& next.task(sibling).worker == supervision.task(sibling).worker
        }),
{
}

/// Once the signal is raised no task performs another operation, and when
/// each task has taken one more turn, in any order, all three have exited.
pub proof fn law_cancellation_ends_all_tasks(
    supervision: Supervision,
    first: ChannelKind,
    second: ChannelKind,
    third: ChannelKind,
    outcome: Outcome,
)
    requires
        supervision.wf(),
        supervision.signal.cancelled,
        first != second,
        first != third,
        second != third,
    ensures
        supervision.turn_operation(first, outcome) is None,
        supervision.after_turn(first, outcome).after_turn(second, outcome).after_turn(
            third,
            outcome,
        ).all_exited(),
{
}

/// A turn of the task for unidirectional streams puts no bytes on the
/// connection and leaves the other two tasks as they were: what arrives on
/// a unidirectional stream is answered on no channel of the connection.
pub proof fn law_uni_turn_sends_nothing(supervision: Supervision, outcome: Outcome)
    requires
        supervision.wf(),
        supervision.admits_turn(ChannelKind::Uni, outcome),
    ensures
        match supervision.turn_operation(ChannelKind::Uni, outcome) {
            Some(operation) => !operation.transmits(),
            None => true,
        },
        supervision.after_turn(ChannelKind::Uni, outcome).bi == supervision.bi,
        supervision.after_turn(ChannelKind::Uni, outcome).datagram == supervision.datagram,
{
}

/// The connection is released only when the supervisor is done and every
/// task has exited: while a task is running, or the supervisor is still at
/// work, a handle is alive.
pub proof fn law_no_premature_release(supervision: Supervision)
    requires
        supervision.wf(),
    ensures
        supervision.released() <==> supervision.supervisor.stage == Stage::Done
            && supervision.all_exited(),
        supervision.running() > 0 ==> !supervision.released(),
{
}

/// When all three joins succeed, no task of the connection is left running
/// and the connection is released.
pub proof fn law_no_task_outlives_supervision(supervision: Supervision)
    requires
        supervision.wf(),
        supervision.supervisor.stage == Stage::Done,
        !supervision.supervisor.failed,
    ensures
        supervision.all_exited(),
        supervision.released(),
{
}

} // verus!
