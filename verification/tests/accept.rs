use echo_supervisor::accept::{conclude, AcceptLoop, Directive, LoopEvent, LoopState};
use echo_supervisor::error::SampleError;
use echo_supervisor::supervision::Supervision;
use echo_supervisor::supervisor::Verdict;
use echo_supervisor::worker::{ChannelKind, Outcome};

#[test]
fn loop_begins_by_accepting() {
    let (accept_loop, directive) = AcceptLoop::start();
    assert_eq!(accept_loop, AcceptLoop { state: LoopState::Waiting });
    assert_eq!(directive, Directive::Accept);
}

#[test]
fn announcements() {
    assert_eq!(Directive::Accept.announcement(), Some("Waiting for incoming connection..."));
    assert_eq!(Directive::Supervise.announcement(), Some("Waiting for data from client..."));
    assert_eq!(Directive::Handshake.announcement(), None);
    assert_eq!(Directive::Exit(SampleError::Io("x".to_string())).announcement(), None);
}

#[test]
fn one_connection_after_another() {
    let (mut accept_loop, _) = AcceptLoop::start();
    for _ in 0..3 {
        assert_eq!(accept_loop.step(LoopEvent::Attempted(true)), Directive::Handshake);
        assert_eq!(accept_loop.state, LoopState::Handshaking);
        assert_eq!(accept_loop.step(LoopEvent::Handshaken(Ok(()))), Directive::Supervise);
        assert_eq!(accept_loop.state, LoopState::Serving);
        assert_eq!(accept_loop.step(LoopEvent::Supervised(Ok(()))), Directive::Accept);
        assert_eq!(accept_loop.state, LoopState::Waiting);
    }
}

#[test]
fn no_attempt_is_fatal() {
    let (mut accept_loop, _) = AcceptLoop::start();
    let directive = accept_loop.step(LoopEvent::Attempted(false));
    assert_eq!(
        directive,
        Directive::Exit(SampleError::Generic("No Connecting instance returned".to_string()))
    );
    assert_eq!(accept_loop.state, LoopState::Stopped);
}

#[test]
fn failed_handshake_is_fatal() {
    let (mut accept_loop, _) = AcceptLoop::start();
    accept_loop.step(LoopEvent::Attempted(true));
    let directive = accept_loop.step(LoopEvent::Handshaken(Err("TimedOut".to_string())));
    assert_eq!(directive, Directive::Exit(SampleError::ConnectionError("TimedOut".to_string())));
    assert_eq!(accept_loop.state, LoopState::Stopped);
}

#[test]
fn failed_join_is_fatal() {
    let (mut accept_loop, _) = AcceptLoop::start();
    accept_loop.step(LoopEvent::Attempted(true));
    accept_loop.step(LoopEvent::Handshaken(Ok(())));
    let failure = SampleError::JoinError("panicked".to_string());
    let directive = accept_loop.step(LoopEvent::Supervised(Err(failure.clone())));
    assert_eq!(directive, Directive::Exit(failure));
    assert_eq!(accept_loop.state, LoopState::Stopped);
}

#[test]
fn events_are_expected_in_their_state_only() {
    let events = || {
        [
            LoopEvent::Attempted(true),
            LoopEvent::Attempted(false),
            LoopEvent::Handshaken(Ok(())),
            LoopEvent::Handshaken(Err("x".to_string())),
            LoopEvent::Supervised(Ok(())),
            LoopEvent::Supervised(Err(SampleError::JoinError("x".to_string()))),
        ]
    };
    let expected = |state: LoopState| -> Vec<bool> {
        let accept_loop = AcceptLoop { state };
        events().iter().map(|e| accept_loop.expects(e)).collect()
    };
    assert_eq!(expected(LoopState::Waiting), vec![true, true, false, false, false, false]);
    assert_eq!(expected(LoopState::Handshaking), vec![false, false, true, true, false, false]);
    assert_eq!(expected(LoopState::Serving), vec![false, false, false, false, true, true]);
    assert_eq!(expected(LoopState::Stopped), vec![false; 6]);
}

#[test]
fn verdicts_become_events() {
    assert_eq!(conclude(Verdict::Await(ChannelKind::Uni)), None);
    assert_eq!(conclude(Verdict::Finished), Some(LoopEvent::Supervised(Ok(()))));
    let failure = SampleError::JoinError("panicked".to_string());
    assert_eq!(
        conclude(Verdict::Failed(failure.clone())),
        Some(LoopEvent::Supervised(Err(failure)))
    );
}

#[test]
fn failure_in_one_connection_leaves_the_next_untouched() {
    let (mut accept_loop, _) = AcceptLoop::start();
    // Connection A: its datagram worker fails, the other two are cancelled.
    accept_loop.step(LoopEvent::Attempted(true));
    accept_loop.step(LoopEvent::Handshaken(Ok(())));
    let mut first = Supervision::launch();
    let failure = SampleError::SendDatagramError("TooLarge".to_string());
    first.turn(ChannelKind::Datagram, Outcome::Received(70000));
    first.turn(ChannelKind::Datagram, Outcome::Failed(failure));
    first.turn(ChannelKind::Bi, Outcome::Accepted);
    first.turn(ChannelKind::Uni, Outcome::Accepted);
    assert_eq!(conclude(first.join(Ok(()))), None);
    assert_eq!(conclude(first.join(Ok(()))), None);
    let event = conclude(first.join(Ok(()))).unwrap();
    assert!(first.is_released());
    assert_eq!(accept_loop.step(event), Directive::Accept);
    assert_eq!(accept_loop, AcceptLoop::start().0);
    // Connection B is served as if A had never been.
    accept_loop.step(LoopEvent::Attempted(true));
    assert_eq!(accept_loop.step(LoopEvent::Handshaken(Ok(()))), Directive::Supervise);
    let mut second = Supervision::launch();
    assert_eq!(second, Supervision::launch());
    assert!(!second.signal.cancelled);
    let turn = second.turn(ChannelKind::Datagram, Outcome::Received(12));
    assert_eq!(turn.operation, Some(echo_supervisor::worker::Operation::Send(b"12".to_vec())));
}
