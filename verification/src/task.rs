//! The cancellable task wrapper: a worker raced against the cancellation
//! signal of its connection.
//!
//! The caller runs the race. This module decides what its end means: whether
//! the task stopped because of the signal or because its worker returned,
//! what to log, and whether the siblings are to be cancelled.

use crate::error::{ErrorView, SampleError};
use tokio_util::sync::CancellationToken;
use vstd::prelude::*;
use vstd::string::StringExecFns;

verus! {

/// The cancellation token of `tokio_util`, carried through as an opaque
/// value.
#[verifier::external_type_specification]
#[verifier::external_body]
pub struct ExCancellationToken(CancellationToken);

/// The states of a task that wraps a worker.
#[derive(Clone, Copy, Debug, PartialEq, Eq, Structural)]
pub enum TaskState {
    /// The worker is being run.
    Running,
    /// The task saw the cancellation signal and dropped its worker.
    Cancelled,
    /// The worker returned without a failure.
    CompletedOk,
    /// The worker returned a failure.
    CompletedErr,
    /// The task itself did not run to its end: it panicked or was aborted.
    /// Joining it reports a failure.
    Aborted,
}

impl TaskState {
    /// Whether the task is over, in whichever way.
    pub open spec fn exited(self) -> bool {
        self != TaskState::Running
    }
}

/// How the race between a worker and the cancellation signal ended.
#[derive(Debug, PartialEq, Eq)]
pub enum Finish {
    /// The signal came first. The worker is dropped where it stands.
    Cancelled,
    /// The worker returned first, with this result.
    Returned(Result<(), SampleError>),
}

/// What follows from the end of a race.
#[derive(Debug, Clone, PartialEq, Eq)]
pub struct Settlement {
    /// The state in which the task ends.
    pub state: TaskState,
    /// The line to log, where the worker failed.
    pub log: Option<String>,
    /// Whether the cancellation signal is triggered for the siblings.
    pub cancels: bool,
}

/// The state in which a task ends, given how its race ended.
pub open spec fn settled_state(finish: Finish) -> TaskState {
    match finish {
        Finish::Cancelled => TaskState::Cancelled,
        Finish::Returned(Ok(_)) => TaskState::CompletedOk,
        Finish::Returned(Err(_)) => TaskState::CompletedErr,
    }
}

/// Whether the end of a race triggers the cancellation signal: it does
/// exactly when the worker returned a failure.
pub open spec fn triggers_cancellation(finish: Finish) -> bool {
    finish matches Finish::Returned(Err(_))
}

/// The line that reports a worker's failure: the task's name, the words
/// ` failed: ` and the failure as it is rendered for logs.
pub open spec fn failure_line_text(task_name: Seq<char>, error: ErrorView) -> Seq<char> {
    task_name + " failed: "@ + error.diagnostic()
}

/// The line to log at the end of a race: none unless the worker failed.
pub open spec fn settled_log(task_name: Seq<char>, finish: Finish) -> Option<Seq<char>> {
    match finish {
        Finish::Returned(Err(error)) => Some(failure_line_text(task_name, error@)),
        _ => None,
    }
}

impl Settlement {
    /// The line to log, as text.
    pub open spec fn log_text(self) -> Option<Seq<char>> {
        match self.log {
            Some(line) => Some(line@),
            None => None,
        }
    }

    /// Whether this settlement is the one that follows from `finish` for the
    /// task named `task_name`.
    pub open spec fn follows_from(self, task_name: Seq<char>, finish: Finish) -> bool {
        &&& self.state == settled_state(finish)
        &&& self.cancels == triggers_cancellation(finish)
        &&& self.log_text() == settled_log(task_name, finish)
    }
}

/// The line that reports a worker's failure.
pub fn failure_line(task_name: &str, error: &SampleError) -> (line: String)
    ensures
        line@ == failure_line_text(task_name@, error@),
{
    let rendered = error.diagnostic();
    String::from_str(task_name).concat(" failed: ").concat(rendered.as_str())
}

/// Decides what follows from the end of a race, without touching any signal.
pub fn judge(task_name: &str, finish: Finish) -> (settlement: Settlement)
    ensures
        settlement.follows_from(task_name@, finish),
{
    match finish {
        Finish::Cancelled => Settlement { state: TaskState::Cancelled, log: None, cancels: false },
        Finish::Returned(Ok(_)) => Settlement {
            state: TaskState::CompletedOk,
            log: None,
            cancels: false,
        },
        Finish::Returned(Err(error)) => Settlement {
            state: TaskState::CompletedErr,
            log: Some(failure_line(task_name, &error)),
            cancels: true,
        },
    }
}

/// Calls `CancellationToken::cancel`, which marks the token and all its
/// clones as cancelled and wakes the tasks that wait for it. It returns
/// nothing, and the token is shared, so the contract claims nothing.
#[verifier::external_body]
fn cancel_token(token: &CancellationToken) {
    token.cancel()
}

/// Settles the end of a race on the connection's own token: decides as
/// `judge` does, and cancels `token` exactly when the settlement says that
/// the siblings are to be cancelled.
pub fn settle(task_name: &str, finish: Finish, token: &CancellationToken) -> (settlement:
    Settlement)
    ensures
        settlement.follows_from(task_name@, finish),
{
    let settlement = judge(task_name, finish);
    if settlement.cancels {
        cancel_token(token);
    }
    settlement
}

} // verus!
