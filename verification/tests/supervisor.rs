use echo_supervisor::error::SampleError;
use echo_supervisor::supervisor::{Stage, Supervisor, Verdict};
use echo_supervisor::worker::ChannelKind;

#[test]
fn supervisor_starts_before_any_task() {
    let supervisor = Supervisor::new();
    assert_eq!(supervisor, Supervisor { stage: Stage::Start, failed: false });
    assert_eq!(supervisor.next_join(), None);
    assert!(!supervisor.is_done());
}

#[test]
fn tasks_are_launched_in_a_fixed_order() {
    let mut supervisor = Supervisor::new();
    let order = supervisor.spawn();
    assert_eq!(order, vec![ChannelKind::Bi, ChannelKind::Uni, ChannelKind::Datagram]);
    assert_eq!(supervisor.stage, Stage::Spawned);
    assert_eq!(supervisor.next_join(), Some(ChannelKind::Bi));
}

#[test]
fn tasks_are_joined_in_the_launch_order() {
    let mut supervisor = Supervisor::new();
    supervisor.spawn();
    assert_eq!(supervisor.joined(Ok(())), Verdict::Await(ChannelKind::Uni));
    assert_eq!(supervisor.stage, Stage::Joining(ChannelKind::Uni));
    assert_eq!(supervisor.next_join(), Some(ChannelKind::Uni));
    assert_eq!(supervisor.joined(Ok(())), Verdict::Await(ChannelKind::Datagram));
    assert_eq!(supervisor.stage, Stage::Joining(ChannelKind::Datagram));
    assert_eq!(supervisor.next_join(), Some(ChannelKind::Datagram));
    assert_eq!(supervisor.joined(Ok(())), Verdict::Finished);
    assert_eq!(supervisor, Supervisor { stage: Stage::Done, failed: false });
    assert_eq!(supervisor.next_join(), None);
    assert!(supervisor.is_done());
}

#[test]
fn first_join_failure_ends_supervision() {
    let mut supervisor = Supervisor::new();
    supervisor.spawn();
    let verdict = supervisor.joined(Err("task 7 panicked".to_string()));
    assert_eq!(verdict, Verdict::Failed(SampleError::JoinError("task 7 panicked".to_string())));
    assert_eq!(supervisor, Supervisor { stage: Stage::Done, failed: true });
    assert_eq!(supervisor.next_join(), None);
}

#[test]
fn later_join_failure_ends_supervision() {
    let mut supervisor = Supervisor::new();
    supervisor.spawn();
    supervisor.joined(Ok(()));
    supervisor.joined(Ok(()));
    let verdict = supervisor.joined(Err("cancelled".to_string()));
    assert_eq!(verdict, Verdict::Failed(SampleError::JoinError("cancelled".to_string())));
    assert_eq!(supervisor, Supervisor { stage: Stage::Done, failed: true });
}
