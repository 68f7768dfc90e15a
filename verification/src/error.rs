//! The failures that end a worker, a connection or the accept loop.

use vstd::prelude::*;
use vstd::string::StringExecFns;

verus! {

/// Why an operation failed.
///
/// Every variant but `Generic` stands for a failure reported by the
/// transport, the task runtime or the file system, and carries the cause as
/// that collaborator renders it for diagnostics. `Generic` carries a message
/// of this crate's own.
#[derive(Debug, Clone, PartialEq, Eq)]
pub enum SampleError {
    /// The connection failed or was closed, during the handshake or later.
    ConnectionError(String),
    /// A stream could not be opened.
    StreamOpeningError(String),
    /// Reading from a stream failed.
    StreamReadError(String),
    /// Writing to a stream failed.
    StreamWriteError(String),
    /// A datagram could not be sent.
    SendDatagramError(String),
    /// A spawned task did not run to completion.
    JoinError(String),
    /// Loading the certificate or binding the endpoint failed.
    Io(String),
    /// The endpoint yielded no connection attempt, or another failure without
    /// a kind of its own.
    Generic(String),
}

/// What `<str as Debug>::fmt` writes for a string: the text in double quotes,
/// with the characters escaped that Rust's debug formatting escapes.
pub uninterp spec fn quoted_text(text: Seq<char>) -> Seq<char>;

/// Renders `text` with `<str as Debug>::fmt`, through `format!`. The result
/// is a function of the text alone; the contract gives it its name and claims
/// nothing else of it.
#[verifier::external_body]
fn quote(text: &str) -> (out: String)
    ensures
        out@ == quoted_text(text@),
{
    format!("{:?}", text)
}

/// The kinds of failure, one for each variant of `SampleError`.
#[derive(Clone, Copy, Debug, PartialEq, Eq, Structural)]
pub enum ErrorKind {
    Connection,
    StreamOpening,
    StreamRead,
    StreamWrite,
    SendDatagram,
    Join,
    Io,
    Generic,
}

/// A failure as a plain value: its kind, and the text that it carries.
pub struct ErrorView {
    pub kind: ErrorKind,
    pub text: Seq<char>,
}

impl ErrorView {
    /// The message shown to a user: a fixed sentence for each kind of
    /// failure, followed by the message itself for `Generic`.
    pub open spec fn message(self) -> Seq<char> {
        match self.kind {
            ErrorKind::Connection => "Connection error"@,
            ErrorKind::StreamOpening => "Stream opening error"@,
            ErrorKind::StreamRead => "Stream read error"@,
            ErrorKind::StreamWrite => "Stream write error"@,
            ErrorKind::SendDatagram => "Send datagram error"@,
            ErrorKind::Join => "Join error"@,
            ErrorKind::Io => "I/O error"@,
            ErrorKind::Generic => "Generic error: "@ + self.text,
        }
    }

    /// The rendering used in logs: the variant's name, then in parentheses
    /// the cause, or for `Generic` the message in quotes.
    pub open spec fn diagnostic(self) -> Seq<char> {
        match self.kind {
            ErrorKind::Connection => "ConnectionError("@ + self.text + ")"@,
            ErrorKind::StreamOpening => "StreamOpeningError("@ + self.text + ")"@,
            ErrorKind::StreamRead => "StreamReadError("@ + self.text + ")"@,
            ErrorKind::StreamWrite => "StreamWriteError("@ + self.text + ")"@,
            ErrorKind::SendDatagram => "SendDatagramError("@ + self.text + ")"@,
            ErrorKind::Join => "JoinError("@ + self.text + ")"@,
            ErrorKind::Io => "Io("@ + self.text + ")"@,
            ErrorKind::Generic => "Generic("@ + quoted_text(self.text) + ")"@,
        }
    }
}

impl View for SampleError {
    type V = ErrorView;

    open spec fn view(&self) -> ErrorView {
        match *self {
            SampleError::ConnectionError(cause) => ErrorView {
                kind: ErrorKind::Connection,
                text: cause@,
            },
            SampleError::StreamOpeningError(cause) => ErrorView {
                kind: ErrorKind::StreamOpening,
                text: cause@,
            },
            SampleError::StreamReadError(cause) => ErrorView {
                kind: ErrorKind::StreamRead,
                text: cause@,
            },
            SampleError::StreamWriteError(cause) => ErrorView {
                kind: ErrorKind::StreamWrite,
                text: cause@,
            },
            SampleError::SendDatagramError(cause) => ErrorView {
                kind: ErrorKind::SendDatagram,
                text: cause@,
            },
            SampleError::JoinError(cause) => ErrorView { kind: ErrorKind::Join, text: cause@ },
            SampleError::Io(cause) => ErrorView { kind: ErrorKind::Io, text: cause@ },
            SampleError::Generic(message) => ErrorView {
                kind: ErrorKind::Generic,
                text: message@,
            },
        }
    }
}

impl SampleError {
    /// The kind of the failure.
    pub fn kind(&self) -> (kind: ErrorKind)
        ensures
            kind == self@.kind,
    {
        match self {
            SampleError::ConnectionError(_) => ErrorKind::Connection,
            SampleError::StreamOpeningError(_) => ErrorKind::StreamOpening,
            SampleError::StreamReadError(_) => ErrorKind::StreamRead,
            SampleError::StreamWriteError(_) => ErrorKind::StreamWrite,
            SampleError::SendDatagramError(_) => ErrorKind::SendDatagram,
            SampleError::JoinError(_) => ErrorKind::Join,
            SampleError::Io(_) => ErrorKind::Io,
            SampleError::Generic(_) => ErrorKind::Generic,
        }
    }

    /// The message shown to a user.
    pub fn message(&self) -> (out: String)
        ensures
            out@ == self@.message(),
    {
        match self {
            SampleError::ConnectionError(_) => String::from_str("Connection error"),
            SampleError::StreamOpeningError(_) => String::from_str("Stream opening error"),
            SampleError::StreamReadError(_) => String::from_str("Stream read error"),
            SampleError::StreamWriteError(_) => String::from_str("Stream write error"),
            SampleError::SendDatagramError(_) => String::from_str("Send datagram error"),
            SampleError::JoinError(_) => String::from_str("Join error"),
            SampleError::Io(_) => String::from_str("I/O error"),
            SampleError::Generic(message) => String::from_str("Generic error: ").concat(
                message.as_str(),
            ),
        }
    }

    /// The rendering used in logs.
    pub fn diagnostic(&self) -> (out: String)
        ensures
            out@ == self@.diagnostic(),
    {
        match self {
            SampleError::ConnectionError(cause) => wrap("ConnectionError(", cause.as_str()),
            SampleError::StreamOpeningError(cause) => wrap("StreamOpeningError(", cause.as_str()),
            SampleError::StreamReadError(cause) => wrap("StreamReadError(", cause.as_str()),
            SampleError::StreamWriteError(cause) => wrap("StreamWriteError(", cause.as_str()),
            SampleError::SendDatagramError(cause) => wrap("SendDatagramError(", cause.as_str()),
            SampleError::JoinError(cause) => wrap("JoinError(", cause.as_str()),
            SampleError::Io(cause) => wrap("Io(", cause.as_str()),
            SampleError::Generic(message) => {
                let quoted = quote(message.as_str());
                wrap("Generic(", quoted.as_str())
            },
        }
    }
}

/// `opening`, then `inner`, then a closing parenthesis.
fn wrap(opening: &str, inner: &str) -> (out: String)
    ensures
        out@ == opening@ + inner@ + ")"@,
{
    String::from_str(opening).concat(inner).concat(")")
}

} // verus!
