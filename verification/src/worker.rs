//! Channel workers: the service loop of one channel kind on one connection.
//!
//! A worker does no transport operation itself. It names the next operation,
//! the caller performs it and hands back what came of it, and the worker
//! names the one after. A worker never finishes of its own accord: it goes on
//! until an operation fails.

use crate::decimal::{decimal, decimal_string, decimal_text, encode_decimal};
use crate::error::{ErrorView, SampleError};
use vstd::prelude::*;
use vstd::string::StringExecFns;

verus! {

/// The most bytes that a worker reads from a stream before it replies.
pub const READ_LIMIT: usize = 4096;

/// The three kinds of channel that a connection carries.
#[derive(Clone, Copy, Debug, PartialEq, Eq, Structural)]
pub enum ChannelKind {
    /// Bidirectional streams.
    Bi,
    /// Unidirectional streams, from the peer to the server.
    Uni,
    /// Datagrams.
    Datagram,
}

/// Where a worker is in its loop.
#[derive(Clone, Copy, Debug, PartialEq, Eq, Structural)]
pub enum Phase {
    /// Waiting for the next unit of work: a stream to accept or a datagram
    /// to receive.
    Awaiting,
    /// Reading from the stream that was accepted.
    Reading,
    /// Writing the reply to the stream, or sending the reply datagram.
    Replying,
    /// An operation failed; the worker has returned the failure.
    Stopped,
}

/// What came of the operation that a worker asked for.
#[derive(Debug, Clone, PartialEq, Eq)]
pub enum Outcome {
    /// A stream of the worker's kind was accepted.
    Accepted,
    /// The read ended with this many bytes, or with `None` where the peer had
    /// finished the stream before any byte came.
    Read(Option<usize>),
    /// A datagram of this many bytes was received.
    Received(usize),
    /// The reply was written or sent.
    Sent,
    /// The operation failed.
    Failed(SampleError),
}

/// What a worker asks the caller to do next.
#[derive(Debug, Clone, PartialEq, Eq)]
pub enum Operation {
    /// Accept the next stream of the worker's kind.
    Accept,
    /// Read at most `limit` bytes from the accepted stream.
    Read { limit: usize },
    /// Write these bytes to the sending half of the accepted stream.
    Write(Vec<u8>),
    /// Receive the next datagram.
    Receive,
    /// Send these bytes as one datagram on the same connection.
    Send(Vec<u8>),
    /// Do nothing more and return this failure.
    Stop(SampleError),
}

/// An operation with its payload as a sequence of bytes.
pub enum OperationView {
    Accept,
    Read { limit: nat },
    Write(Seq<u8>),
    Receive,
    Send(Seq<u8>),
    Stop(ErrorView),
}

impl View for Operation {
    type V = OperationView;

    open spec fn view(&self) -> OperationView {
        match *self {
            Operation::Accept => OperationView::Accept,
            Operation::Read { limit } => OperationView::Read { limit: limit as nat },
            Operation::Write(payload) => OperationView::Write(payload@),
            Operation::Receive => OperationView::Receive,
            Operation::Send(payload) => OperationView::Send(payload@),
            Operation::Stop(error) => OperationView::Stop(error@),
        }
    }
}

impl OperationView {
    /// Whether the operation puts bytes on the connection.
    pub open spec fn transmits(self) -> bool {
        self is Write || self is Send
    }

    /// Whether the operation touches the connection at all.
    pub open spec fn uses_connection(self) -> bool {
        !(self is Stop)
    }
}

/// A record that a unit of work arrived, for the caller to log.
#[derive(Clone, Copy, Debug, PartialEq, Eq, Structural)]
pub struct Receipt {
    /// The kind of channel it arrived on.
    pub kind: ChannelKind,
    /// How many bytes it held.
    pub count: usize,
}

/// One turn of a worker: what to log, if anything, and what to do next.
#[derive(Debug, Clone, PartialEq, Eq)]
pub struct Step {
    pub receipt: Option<Receipt>,
    pub next: Operation,
}

/// The operation that waits for the next unit of work on a channel kind.
pub open spec fn first_operation(kind: ChannelKind) -> OperationView {
    match kind {
        ChannelKind::Bi => OperationView::Accept,
        ChannelKind::Uni => OperationView::Accept,
        ChannelKind::Datagram => OperationView::Receive,
    }
}

/// The number of bytes that a read brought: none where the stream had ended.
pub open spec fn bytes_read(count: Option<usize>) -> nat {
    match count {
        Some(n) => n as nat,
        None => 0,
    }
}

/// Whether `outcome` can be what came of the operation that a worker of this
/// kind has pending in this phase. Any pending operation can fail; a stopped
/// worker has none pending.
pub open spec fn admits(kind: ChannelKind, phase: Phase, outcome: Outcome) -> bool {
    match phase {
        Phase::Awaiting => match outcome {
            Outcome::Accepted => kind != ChannelKind::Datagram,
            Outcome::Received(_) => kind == ChannelKind::Datagram,
            Outcome::Failed(_) => true,
            _ => false,
        },
        Phase::Reading => outcome is Read || outcome is Failed,
        Phase::Replying => outcome is Sent || outcome is Failed,
        Phase::Stopped => false,
    }
}

/// The phase that a worker enters on an outcome.
pub open spec fn next_phase(kind: ChannelKind, outcome: Outcome) -> Phase {
    match outcome {
        Outcome::Accepted => Phase::Reading,
        Outcome::Read(_) => if kind == ChannelKind::Bi {
            Phase::Replying
        } else {
            Phase::Awaiting
        },
        Outcome::Received(_) => Phase::Replying,
        Outcome::Sent => Phase::Awaiting,
        Outcome::Failed(_) => Phase::Stopped,
    }
}

/// The operation that a worker asks for on an outcome.
///
/// A bidirectional stream is answered with the decimal count of the bytes
/// read, also where that count is zero. A unidirectional stream gets no
/// answer. A datagram is answered with a datagram that holds its length in
/// decimal.
pub open spec fn next_operation(kind: ChannelKind, outcome: Outcome) -> OperationView {
    match outcome {
        Outcome::Accepted => OperationView::Read { limit: READ_LIMIT as nat },
        Outcome::Read(count) => if kind == ChannelKind::Bi {
            OperationView::Write(decimal(bytes_read(count)))
        } else {
            first_operation(kind)
        },
        Outcome::Received(length) => OperationView::Send(decimal(length as nat)),
        Outcome::Sent => first_operation(kind),
        Outcome::Failed(error) => OperationView::Stop(error@),
    }
}

/// What a worker reports on an outcome: the size of each unit of work as it
/// arrives.
pub open spec fn receipt_for(kind: ChannelKind, outcome: Outcome) -> Option<Receipt> {
    match outcome {
        Outcome::Read(count) => Some(Receipt { kind, count: bytes_read(count) as usize }),
        Outcome::Received(length) => Some(Receipt { kind, count: length }),
        _ => None,
    }
}

impl ChannelKind {
    /// The name under which the worker of this kind runs.
    pub open spec fn task_name_text(self) -> Seq<char> {
        match self {
            ChannelKind::Bi => "accept_bi"@,
            ChannelKind::Uni => "accept_uni"@,
            ChannelKind::Datagram => "receive_datagram"@,
        }
    }

    /// The name under which the worker of this kind runs.
    pub fn task_name(self) -> (name: &'static str)
        ensures
            name@ == self.task_name_text(),
    {
        match self {
            ChannelKind::Bi => "accept_bi",
            ChannelKind::Uni => "accept_uni",
            ChannelKind::Datagram => "receive_datagram",
        }
    }
}

impl Receipt {
    /// The line that reports the receipt.
    pub open spec fn line_text(self) -> Seq<char> {
        match self.kind {
            ChannelKind::Bi => "Received "@ + decimal_text(self.count as nat)
                + " bytes on bi-stream"@,
            ChannelKind::Uni => "Received "@ + decimal_text(self.count as nat)
                + " bytes on uni-stream"@,
            ChannelKind::Datagram => "Received datagram of "@ + decimal_text(self.count as nat)
                + " bytes"@,
        }
    }

    /// The line that reports the receipt.
    pub fn line(&self) -> (out: String)
        ensures
            out@ == self.line_text(),
    {
        let count = decimal_string(self.count);
        match self.kind {
            ChannelKind::Bi => String::from_str("Received ").concat(count.as_str()).concat(
                " bytes on bi-stream",
            ),
            ChannelKind::Uni => String::from_str("Received ").concat(count.as_str()).concat(
                " bytes on uni-stream",
            ),
            ChannelKind::Datagram => String::from_str("Received datagram of ").concat(
                count.as_str(),
            ).concat(" bytes"),
        }
    }
}

/// The state of one channel worker.
#[derive(Clone, Copy, Debug, PartialEq, Eq, Structural)]
pub struct Worker {
    /// The kind of channel that the worker serves.
    pub kind: ChannelKind,
    /// Where the worker is in its loop.
    pub phase: Phase,
}

/// Whether a worker of `kind` ever is in `phase`: there is nothing to read
/// from a datagram, and nothing to reply to a unidirectional stream.
pub open spec fn visits(kind: ChannelKind, phase: Phase) -> bool {
    match kind {
        ChannelKind::Bi => true,
        ChannelKind::Uni => phase != Phase::Replying,
        ChannelKind::Datagram => phase != Phase::Reading,
    }
}

/// Whether `next` comes directly after `phase` in the loop of a worker of
/// `kind`: accept, read, reply for bidirectional streams; accept, read for
/// unidirectional streams; receive, reply for datagrams.
pub open spec fn follows(kind: ChannelKind, phase: Phase, next: Phase) -> bool {
    match kind {
        ChannelKind::Bi => {
            ||| phase == Phase::Awaiting && next == Phase::Reading
            ||| phase == Phase::Reading && next == Phase::Replying
            ||| phase == Phase::Replying && next == Phase::Awaiting
        },
        ChannelKind::Uni => {
            ||| phase == Phase::Awaiting && next == Phase::Reading
            ||| phase == Phase::Reading && next == Phase::Awaiting
        },
        ChannelKind::Datagram => {
            ||| phase == Phase::Awaiting && next == Phase::Replying
            ||| phase == Phase::Replying && next == Phase::Awaiting
        },
    }
}

impl Worker {
    /// A worker of this kind that waits for its first unit of work.
    pub open spec fn fresh(kind: ChannelKind) -> Worker {
        Worker { kind, phase: Phase::Awaiting }
    }

    /// Whether `outcome` can be what came of the pending operation.
    pub open spec fn admits(self, outcome: Outcome) -> bool {
        admits(self.kind, self.phase, outcome)
    }

    /// The worker after it has taken `outcome`.
    pub open spec fn after(self, outcome: Outcome) -> Worker {
        Worker { kind: self.kind, phase: next_phase(self.kind, outcome) }
    }

    /// Starts a worker for `kind`, with the operation that it begins with.
    pub fn launch(kind: ChannelKind) -> (started: (Worker, Operation))
        ensures
            started.0 == Worker::fresh(kind),
            started.1@ == first_operation(kind),
    {
        (Worker { kind, phase: Phase::Awaiting }, wait_for_work(kind))
    }

    /// Whether `outcome` can be what came of the operation that the worker
    /// has pending.
    pub fn expects(&self, outcome: &Outcome) -> (ok: bool)
        ensures
            ok == self.admits(*outcome),
    {
        match self.phase {
            Phase::Awaiting => match outcome {
                Outcome::Accepted => !matches!(self.kind, ChannelKind::Datagram),
                Outcome::Received(_) => matches!(self.kind, ChannelKind::Datagram),
                Outcome::Failed(_) => true,
                _ => false,
            },
            Phase::Reading => matches!(outcome, Outcome::Read(_) | Outcome::Failed(_)),
            Phase::Replying => matches!(outcome, Outcome::Sent | Outcome::Failed(_)),
            Phase::Stopped => false,
        }
    }

    /// Takes what came of the pending operation and names the next one.
    pub fn step(&mut self, outcome: Outcome) -> (step: Step)
        requires
            old(self).admits(outcome),
        ensures
            *final(self) == old(self).after(outcome),
            step.next@ == next_operation(old(self).kind, outcome),
            step.receipt == receipt_for(old(self).kind, outcome),
    {
        let kind = self.kind;
        match outcome {
            Outcome::Accepted => {
                self.phase = Phase::Reading;
                Step { receipt: None, next: Operation::Read { limit: READ_LIMIT } }
            },
            Outcome::Read(count) => {
                let count: usize = match count {
                    Some(n) => n,
                    None => 0,
                };
                let receipt = Some(Receipt { kind, count });
                match kind {
                    ChannelKind::Bi => {
                        self.phase = Phase::Replying;
                        Step { receipt, next: Operation::Write(encode_decimal(count)) }
                    },
                    _ => {
                        self.phase = Phase::Awaiting;
                        Step { receipt, next: wait_for_work(kind) }
                    },
                }
            },
            Outcome::Received(length) => {
                self.phase = Phase::Replying;
                Step {
                    receipt: Some(Receipt { kind, count: length }),
                    next: Operation::Send(encode_decimal(length)),
                }
            },
            Outcome::Sent => {
                self.phase = Phase::Awaiting;
                Step { receipt: None, next: wait_for_work(kind) }
            },
            Outcome::Failed(error) => {
                self.phase = Phase::Stopped;
                Step { receipt: None, next: Operation::Stop(error) }
            },
        }
    }
}

/// Whatever is read from a bidirectional stream, be it nothing at all, the
/// worker answers on that stream with the number of bytes in decimal.
pub proof fn law_bi_stream_echo(count: Option<usize>)
    ensures
        admits(ChannelKind::Bi, Phase::Reading, Outcome::Read(count)),
        next_operation(ChannelKind::Bi, Outcome::Read(count)) == OperationView::Write(
            decimal(bytes_read(count)),
        ),
        next_phase(ChannelKind::Bi, Outcome::Read(count)) == Phase::Replying,
{
}

/// Whatever the length of a datagram, the worker answers with a datagram
/// that holds that length in decimal.
pub proof fn law_datagram_echo(length: usize)
    ensures
        admits(ChannelKind::Datagram, Phase::Awaiting, Outcome::Received(length)),
        next_operation(ChannelKind::Datagram, Outcome::Received(length)) == OperationView::Send(
            decimal(length as nat),
        ),
        next_phase(ChannelKind::Datagram, Outcome::Received(length)) == Phase::Replying,
{
}

/// The worker for unidirectional streams never puts bytes on the
/// connection, in any phase and whatever comes of its operations, and it
/// never enters the phase in which a reply is under way.
pub proof fn law_uni_stream_is_silent(phase: Phase, outcome: Outcome)
    requires
        admits(ChannelKind::Uni, phase, outcome),
    ensures
        !next_operation(ChannelKind::Uni, outcome).transmits(),
        next_phase(ChannelKind::Uni, outcome) != Phase::Replying,
{
}

/// The turns of a worker follow one another in the order of its loop: as
/// long as nothing fails, each outcome that the worker admits takes it to the
/// phase that comes next for its kind, and to no phase that its kind never
/// visits.
pub proof fn law_iterations_are_sequential(worker: Worker, outcome: Outcome)
    requires
        visits(worker.kind, worker.phase),
        worker.admits(outcome),
    ensures
        visits(worker.kind, worker.after(outcome).phase),
        !(outcome is Failed) ==> follows(worker.kind, worker.phase, worker.after(outcome).phase),
        visits(worker.kind, Worker::fresh(worker.kind).phase),
{
}

/// A worker never returns of its own accord: as long as no operation fails,
/// each turn names another operation on the connection.
pub proof fn law_worker_stops_only_on_failure(worker: Worker, outcome: Outcome)
    requires
        worker.admits(outcome),
    ensures
        next_operation(worker.kind, outcome) is Stop <==> outcome is Failed,
        worker.after(outcome).phase == Phase::Stopped <==> outcome is Failed,
{
}

/// The operation that waits for the next unit of work on a channel kind.
fn wait_for_work(kind: ChannelKind) -> (operation: Operation)
    ensures
        operation@ == first_operation(kind),
{
    match kind {
        ChannelKind::Datagram => Operation::Receive,
        _ => Operation::Accept,
    }
}

} // verus!
