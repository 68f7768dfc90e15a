use echo_supervisor::error::SampleError;
use echo_supervisor::signal::Signal;
use echo_supervisor::supervision::{Supervision, Task, Turn};
use echo_supervisor::supervisor::{Stage, Supervisor, Verdict};
use echo_supervisor::task::TaskState;
use echo_supervisor::worker::{ChannelKind, Operation, Outcome, Phase, Receipt, Worker};

const KINDS: [ChannelKind; 3] = [ChannelKind::Bi, ChannelKind::Uni, ChannelKind::Datagram];

fn reset() -> SampleError {
    SampleError::StreamReadError("Reset(7)".to_string())
}

fn idle() -> Turn {
    Turn { operation: None, receipt: None, log: None }
}

#[test]
fn launch_starts_three_running_tasks() {
    let supervision = Supervision::launch();
    assert_eq!(
        supervision,
        Supervision {
            supervisor: Supervisor { stage: Stage::Spawned, failed: false },
            signal: Signal { cancelled: false, transitions: 0 },
            bi: Task {
                state: TaskState::Running,
                worker: Worker { kind: ChannelKind::Bi, phase: Phase::Awaiting },
            },
            uni: Task {
                state: TaskState::Running,
                worker: Worker { kind: ChannelKind::Uni, phase: Phase::Awaiting },
            },
            datagram: Task {
                state: TaskState::Running,
                worker: Worker { kind: ChannelKind::Datagram, phase: Phase::Awaiting },
            },
            handles: 4,
        }
    );
    assert!(!supervision.is_released());
}

#[test]
fn turns_serve_each_channel() {
    let mut supervision = Supervision::launch();
    let turn = supervision.turn(ChannelKind::Bi, Outcome::Accepted);
    assert_eq!(turn.operation, Some(Operation::Read { limit: 4096 }));
    let turn = supervision.turn(ChannelKind::Datagram, Outcome::Received(12));
    assert_eq!(turn.operation, Some(Operation::Send(b"12".to_vec())));
    assert_eq!(turn.receipt, Some(Receipt { kind: ChannelKind::Datagram, count: 12 }));
    let turn = supervision.turn(ChannelKind::Bi, Outcome::Read(Some(5)));
    assert_eq!(turn.operation, Some(Operation::Write(b"5".to_vec())));
    assert_eq!(turn.receipt, Some(Receipt { kind: ChannelKind::Bi, count: 5 }));
    assert_eq!(turn.log, None);
    assert_eq!(supervision.handles, 4);
    assert!(!supervision.signal.cancelled);
}

#[test]
fn data_on_a_uni_stream_brings_no_reply_anywhere() {
    let mut supervision = Supervision::launch();
    supervision.turn(ChannelKind::Bi, Outcome::Accepted);
    let before = supervision;
    let turn = supervision.turn(ChannelKind::Uni, Outcome::Accepted);
    assert_eq!(turn.operation, Some(Operation::Read { limit: 4096 }));
    let turn = supervision.turn(ChannelKind::Uni, Outcome::Read(Some(100)));
    assert_eq!(turn.operation, Some(Operation::Accept));
    assert_eq!(turn.receipt, Some(Receipt { kind: ChannelKind::Uni, count: 100 }));
    assert_eq!(supervision.bi, before.bi);
    assert_eq!(supervision.datagram, before.datagram);
}

#[test]
fn one_failure_cancels_the_other_two() {
    for failing in KINDS {
        let mut supervision = Supervision::launch();
        let turn = supervision.turn(failing, Outcome::Failed(reset()));
        assert_eq!(
            turn,
            Turn {
                operation: None,
                receipt: None,
                log: Some(format!("{} failed: StreamReadError(Reset(7))", failing.task_name())),
            }
        );
        assert_eq!(supervision.signal, Signal { cancelled: true, transitions: 1 });
        assert_eq!(supervision.task_of(failing).state, TaskState::CompletedErr);
        for sibling in KINDS {
            if sibling != failing {
                let worker = supervision.task_of(sibling).worker;
                let offered = if sibling == ChannelKind::Datagram {
                    Outcome::Received(9)
                } else {
                    Outcome::Accepted
                };
                assert_eq!(supervision.turn(sibling, offered), idle());
                assert_eq!(
                    supervision.task_of(sibling),
                    Task { state: TaskState::Cancelled, worker }
                );
            }
        }
        assert_eq!(supervision.handles, 1);
        assert_eq!(supervision.signal.transitions, 1);
    }
}

#[test]
fn exited_tasks_take_no_more_turns() {
    let mut supervision = Supervision::launch();
    supervision.turn(ChannelKind::Uni, Outcome::Failed(reset()));
    supervision.turn(ChannelKind::Bi, Outcome::Accepted);
    let settled = supervision;
    assert_eq!(supervision.turn(ChannelKind::Uni, Outcome::Accepted), idle());
    assert_eq!(supervision.turn(ChannelKind::Bi, Outcome::Read(Some(3))), idle());
    assert_eq!(supervision, settled);
}

#[test]
fn connection_is_released_after_the_last_join() {
    let mut supervision = Supervision::launch();
    supervision.turn(ChannelKind::Datagram, Outcome::Failed(reset()));
    supervision.turn(ChannelKind::Bi, Outcome::Accepted);
    supervision.turn(ChannelKind::Uni, Outcome::Accepted);
    assert_eq!(supervision.handles, 1);
    assert!(!supervision.is_released());
    assert!(supervision.can_join(&Ok(())));
    assert!(!supervision.can_join(&Err("x".to_string())));
    assert_eq!(supervision.join(Ok(())), Verdict::Await(ChannelKind::Uni));
    assert!(!supervision.is_released());
    assert_eq!(supervision.join(Ok(())), Verdict::Await(ChannelKind::Datagram));
    assert!(!supervision.is_released());
    assert_eq!(supervision.join(Ok(())), Verdict::Finished);
    assert!(supervision.is_released());
    assert_eq!(supervision.handles, 0);
    assert_eq!(supervision.supervisor, Supervisor { stage: Stage::Done, failed: false });
}

#[test]
fn running_task_cannot_be_joined() {
    let supervision = Supervision::launch();
    assert!(!supervision.can_join(&Ok(())));
    assert!(!supervision.can_join(&Err("x".to_string())));
}

#[test]
fn running_tasks_keep_the_connection_after_a_failed_join() {
    let mut supervision = Supervision::launch();
    supervision.abort(ChannelKind::Bi);
    assert_eq!(supervision.bi.state, TaskState::Aborted);
    assert_eq!(supervision.handles, 3);
    assert!(!supervision.signal.cancelled);
    assert!(supervision.can_join(&Err("panicked".to_string())));
    assert!(!supervision.can_join(&Ok(())));
    let verdict = supervision.join(Err("panicked".to_string()));
    assert_eq!(verdict, Verdict::Failed(SampleError::JoinError("panicked".to_string())));
    assert_eq!(supervision.supervisor, Supervisor { stage: Stage::Done, failed: true });
    assert_eq!(supervision.handles, 2);
    assert!(!supervision.is_released());
    assert_eq!(supervision.uni.state, TaskState::Running);
    assert_eq!(supervision.datagram.state, TaskState::Running);
    supervision.turn(ChannelKind::Uni, Outcome::Failed(reset()));
    assert!(!supervision.is_released());
    supervision.turn(ChannelKind::Datagram, Outcome::Received(1));
    assert!(supervision.is_released());
}

#[test]
fn abort_leaves_an_exited_task_alone() {
    let mut supervision = Supervision::launch();
    supervision.turn(ChannelKind::Bi, Outcome::Failed(reset()));
    let before = supervision;
    supervision.abort(ChannelKind::Bi);
    assert_eq!(supervision, before);
}

#[test]
fn second_failure_cannot_happen_after_the_first() {
    let mut supervision = Supervision::launch();
    supervision.turn(ChannelKind::Bi, Outcome::Failed(reset()));
    let turn = supervision.turn(ChannelKind::Uni, Outcome::Failed(reset()));
    assert_eq!(turn, idle());
    assert_eq!(supervision.uni.state, TaskState::Cancelled);
    assert_eq!(supervision.signal.transitions, 1);
}
