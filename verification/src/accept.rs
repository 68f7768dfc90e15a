//! The accept loop: one connection at a time, each supervised to its end
//! before the next is accepted.

use crate::error::{ErrorKind, ErrorView, SampleError};
use crate::supervision::Supervision;
use crate::supervisor::{verdict_for, Stage, Verdict};
use crate::worker::ChannelKind;
use vstd::prelude::*;
use vstd::string::StringExecFns;

verus! {

/// Where the accept loop stands.
#[derive(Clone, Copy, Debug, PartialEq, Eq, Structural)]
pub enum LoopState {
    /// Waiting for the endpoint to yield a connection attempt.
    Waiting,
    /// Completing the handshake of an attempt.
    Handshaking,
    /// Supervising an established connection.
    Serving,
    /// The loop has ended with a failure.
    Stopped,
}

/// What came of the step that the loop asked for.
#[derive(Debug, PartialEq, Eq)]
pub enum LoopEvent {
    /// The endpoint yielded a connection attempt (`true`) or none (`false`).
    Attempted(bool),
    /// The handshake was completed, or failed with this cause.
    Handshaken(Result<(), String>),
    /// The supervisor of the connection returned.
    Supervised(Result<(), SampleError>),
}

/// What the loop asks the caller to do next.
#[derive(Debug, Clone, PartialEq, Eq)]
pub enum Directive {
    /// Wait for the next connection attempt.
    Accept,
    /// Complete the handshake of the attempt.
    Handshake,
    /// Supervise the established connection to its end.
    Supervise,
    /// Leave the loop with this failure.
    Exit(SampleError),
}

/// A directive with its failure as a plain value.
pub enum DirectiveView {
    Accept,
    Handshake,
    Supervise,
    Exit(ErrorView),
}

impl View for Directive {
    type V = DirectiveView;

    open spec fn view(&self) -> DirectiveView {
        match *self {
            Directive::Accept => DirectiveView::Accept,
            Directive::Handshake => DirectiveView::Handshake,
            Directive::Supervise => DirectiveView::Supervise,
            Directive::Exit(error) => DirectiveView::Exit(error@),
        }
    }
}

/// The state of the accept loop.
#[derive(Clone, Copy, Debug, PartialEq, Eq, Structural)]
pub struct AcceptLoop {
    /// Where the loop stands.
    pub state: LoopState,
}

/// The message of the failure with which the loop ends when the endpoint
/// yields no connection attempt.
pub open spec fn no_attempt_text() -> Seq<char> {
    "No Connecting instance returned"@
}

/// Whether `event` can be what came of the step that the loop has pending
/// in `state`.
pub open spec fn loop_admits(state: LoopState, event: LoopEvent) -> bool {
    match state {
        LoopState::Waiting => event is Attempted,
        LoopState::Handshaking => event is Handshaken,
        LoopState::Serving => event is Supervised,
        LoopState::Stopped => false,
    }
}

/// The state that the loop enters on an event. Every failure at the level of
/// the loop ends it; a connection that was supervised to its end leads back
/// to waiting.
pub open spec fn loop_next_state(event: LoopEvent) -> LoopState {
    match event {
        LoopEvent::Attempted(true) => LoopState::Handshaking,
        LoopEvent::Handshaken(Ok(_)) => LoopState::Serving,
        LoopEvent::Supervised(Ok(_)) => LoopState::Waiting,
        _ => LoopState::Stopped,
    }
}

/// What the loop asks for on an event.
pub open spec fn directive_for(event: LoopEvent) -> DirectiveView {
    match event {
        LoopEvent::Attempted(true) => DirectiveView::Handshake,
        LoopEvent::Attempted(false) => DirectiveView::Exit(
            ErrorView { kind: ErrorKind::Generic, text: no_attempt_text() },
        ),
        LoopEvent::Handshaken(Ok(_)) => DirectiveView::Supervise,
        LoopEvent::Handshaken(Err(cause)) => DirectiveView::Exit(
            ErrorView { kind: ErrorKind::Connection, text: cause@ },
        ),
        LoopEvent::Supervised(Ok(_)) => DirectiveView::Accept,
        LoopEvent::Supervised(Err(error)) => DirectiveView::Exit(error@),
    }
}

/// What a directive announces before it is carried out.
pub open spec fn announcement_text(directive: DirectiveView) -> Option<Seq<char>> {
    match directive {
        DirectiveView::Accept => Some("Waiting for incoming connection..."@),
        DirectiveView::Supervise => Some("Waiting for data from client..."@),
        _ => None,
    }
}

/// What the accept loop learns from the supervisor's verdict on a join:
/// nothing while tasks remain to be joined, then the end of the supervision.
pub open spec fn event_for(verdict: Verdict) -> Option<LoopEvent> {
    match verdict {
        Verdict::Await(_) => None,
        Verdict::Finished => Some(LoopEvent::Supervised(Ok(()))),
        Verdict::Failed(error) => Some(LoopEvent::Supervised(Err(error))),
    }
}

impl Directive {
    /// The line to print before the directive is carried out, if it has
    /// one.
    pub fn announcement(&self) -> (line: Option<&'static str>)
        ensures
            match line {
                Some(text) => announcement_text(self@) == Some(text@),
                None => announcement_text(self@) is None,
            },
    {
        match self {
            Directive::Accept => Some("Waiting for incoming connection..."),
            Directive::Supervise => Some("Waiting for data from client..."),
            _ => None,
        }
    }
}

impl AcceptLoop {
    /// A loop that waits for its first connection.
    pub open spec fn fresh() -> AcceptLoop {
        AcceptLoop { state: LoopState::Waiting }
    }

    /// Whether `event` can be what came of the pending step.
    pub open spec fn admits(self, event: LoopEvent) -> bool {
        loop_admits(self.state, event)
    }

    /// The loop after it has taken `event`.
    pub open spec fn after(self, event: LoopEvent) -> AcceptLoop {
        AcceptLoop { state: loop_next_state(event) }
    }

    /// Starts the loop, with the directive that it begins with.
    pub fn start() -> (started: (AcceptLoop, Directive))
        ensures
            started.0 == AcceptLoop::fresh(),
            started.1@ == DirectiveView::Accept,
    {
        (AcceptLoop { state: LoopState::Waiting }, Directive::Accept)
    }

    /// Whether `event` can be what came of the step that the loop has
    /// pending.
    pub fn expects(&self, event: &LoopEvent) -> (ok: bool)
        ensures
            ok == self.admits(*event),
    {
        match self.state {
            LoopState::Waiting => matches!(event, LoopEvent::Attempted(_)),
            LoopState::Handshaking => matches!(event, LoopEvent::Handshaken(_)),
            LoopState::Serving => matches!(event, LoopEvent::Supervised(_)),
            LoopState::Stopped => false,
        }
    }

    /// Takes what came of the pending step and names the next one.
    pub fn step(&mut self, event: LoopEvent) -> (directive: Directive)
        requires
            old(self).admits(event),
        ensures
            *final(self) == old(self).after(event),
            directive@ == directive_for(event),
    {
        match event {
            LoopEvent::Attempted(true) => {
                self.state = LoopState::Handshaking;
                Directive::Handshake
            },
            LoopEvent::Attempted(false) => {
                self.state = LoopState::Stopped;
                Directive::Exit(
                    SampleError::Generic(String::from_str("No Connecting instance returned")),
                )
            },
            LoopEvent::Handshaken(Ok(_)) => {
                self.state = LoopState::Serving;
                Directive::Supervise
            },
            LoopEvent::Handshaken(Err(cause)) => {
                self.state = LoopState::Stopped;
                Directive::Exit(SampleError::ConnectionError(cause))
            },
            LoopEvent::Supervised(Ok(_)) => {
                self.state = LoopState::Waiting;
                Directive::Accept
            },
            LoopEvent::Supervised(Err(error)) => {
                self.state = LoopState::Stopped;
                Directive::Exit(error)
            },
        }
    }
}

/// Turns the supervisor's verdict on a join into what the accept loop
/// learns from it.
pub fn conclude(verdict: Verdict) -> (event: Option<LoopEvent>)
    ensures
        event == event_for(verdict),
{
    match verdict {
        Verdict::Await(_) => None,
        Verdict::Finished => Some(LoopEvent::Supervised(Ok(()))),
        Verdict::Failed(error) => Some(LoopEvent::Supervised(Err(error))),
    }
}

/// What happens to the workers of a connection stays with that connection.
/// Whichever of them failed or were cancelled, as long as its tasks could be
/// joined the supervisor reports no failure, the connection is released, and
/// the loop stands exactly where it stood before that connection came: it
/// accepts the next one.
pub proof fn law_connections_are_isolated(supervision: Supervision)
    requires
        supervision.wf(),
        supervision.supervisor.stage == Stage::Joining(ChannelKind::Datagram),
        supervision.admits_join(Ok(())),
    ensures
        ({
            let verdict = verdict_for(ChannelKind::Datagram, Ok(()));
            let served = supervision.after_join(Ok(()));
            let event = LoopEvent::Supervised(Ok(()));
            let serving = AcceptLoop { state: LoopState::Serving };
            &&& verdict == Verdict::Finished
            &&& event_for(verdict) == Some(event)
            &&& served.released()
            &&& served.all_exited()
            &&& serving.admits(event)
            &&& serving.after(event) == AcceptLoop::fresh()
            &&& directive_for(event) == DirectiveView::Accept
        }),
{
}

/// A failure at the level of the loop ends it: no connection attempt, a
/// failed handshake, or a task that could not be joined. The loop then
/// admits no further event.
pub proof fn law_loop_failures_are_fatal(state: LoopState, event: LoopEvent)
    requires
        loop_admits(state, event),
    ensures
        directive_for(event) is Exit <==> loop_next_state(event) == LoopState::Stopped,
        directive_for(event) is Exit <==> (event == LoopEvent::Attempted(false)
            || event matches LoopEvent::Handshaken(Err(_))
            || event matches LoopEvent::Supervised(Err(_))),
        forall|later: LoopEvent| !loop_admits(LoopState::Stopped, later),
{
}

} // verus!
