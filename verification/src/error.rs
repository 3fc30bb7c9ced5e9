//! The error type shared by every component of the fuzzer.

use vstd::prelude::*;

verus! {

/// What went wrong with a file, pipe or socket, as far as the fuzzer tells
/// the cases apart.
#[derive(Debug, Clone, Copy, PartialEq, Eq, Structural)]
pub enum ErrorKind {
    ConnectionRefused,
    ConnectionAborted,
    ConnectionReset,
    BrokenPipe,
    NotConnected,
    TimedOut,
    Other,
}

/// The errors of the fuzzer. Each variant but `ShuttingDown` carries a
/// message for the operator.
#[derive(Debug, Clone)]
pub enum Error {
    /// An argument or the state of a directory is not acceptable.
    IllegalArgument(String),
    /// An invariant of the fuzzer or of the forkserver protocol is broken.
    IllegalState(String),
    /// A piece of metadata that a component relies on is absent.
    KeyNotFound(String),
    /// Reading or writing failed; the kind of the failure is kept.
    File(ErrorKind, String),
    /// Anything else, such as a system call interrupted by a signal.
    Unknown(String),
    /// Not a failure: the forkserver has to be made anew.
    ShuttingDown,
}

/// An error as contracts speak of it: its variant, and the characters of
/// its message.
pub ghost enum ErrorView {
    IllegalArgument(Seq<char>),
    IllegalState(Seq<char>),
    KeyNotFound(Seq<char>),
    File(ErrorKind, Seq<char>),
    Unknown(Seq<char>),
    ShuttingDown,
}

impl View for Error {
    type V = ErrorView;

    open spec fn view(&self) -> ErrorView {
        match *self {
            Error::IllegalArgument(msg) => ErrorView::IllegalArgument(msg@),
            Error::IllegalState(msg) => ErrorView::IllegalState(msg@),
            Error::KeyNotFound(msg) => ErrorView::KeyNotFound(msg@),
            Error::File(kind, msg) => ErrorView::File(kind, msg@),
            Error::Unknown(msg) => ErrorView::Unknown(msg@),
            Error::ShuttingDown => ErrorView::ShuttingDown,
        }
    }
}

impl ErrorKind {
    /// Whether the kind is one of the connection failures after which the
    /// fuzzer goes on with another target state.
    pub open spec fn is_connection_failure(self) -> bool {
        self is ConnectionRefused || self is ConnectionAborted || self is ConnectionReset
            || self is BrokenPipe || self is NotConnected
    }

    /// Tells the connection failures from the other kinds.
    pub fn connection_failure(&self) -> (r: bool)
        ensures
            r == self.is_connection_failure(),
    {
        match self {
            ErrorKind::ConnectionRefused => true,
            ErrorKind::ConnectionAborted => true,
            ErrorKind::ConnectionReset => true,
            ErrorKind::BrokenPipe => true,
            ErrorKind::NotConnected => true,
            ErrorKind::TimedOut => false,
            ErrorKind::Other => false,
        }
    }
}

impl Error {
    /// An `IllegalArgument` with the given message.
    pub fn illegal_argument(msg: &str) -> (e: Error)
        ensures
            e@ == ErrorView::IllegalArgument(msg@),
    {
        Error::IllegalArgument(msg.to_owned())
    }

    /// An `IllegalState` with the given message.
    pub fn illegal_state(msg: &str) -> (e: Error)
        ensures
            e@ == ErrorView::IllegalState(msg@),
    {
        Error::IllegalState(msg.to_owned())
    }

    /// A `KeyNotFound` with the given message.
    pub fn key_not_found(msg: &str) -> (e: Error)
        ensures
            e@ == ErrorView::KeyNotFound(msg@),
    {
        Error::KeyNotFound(msg.to_owned())
    }

    /// An `Unknown` with the given message.
    pub fn unknown(msg: &str) -> (e: Error)
        ensures
            e@ == ErrorView::Unknown(msg@),
    {
        Error::Unknown(msg.to_owned())
    }

    /// A `File` error of the given kind.
    pub fn file(kind: ErrorKind, msg: &str) -> (e: Error)
        ensures
            e@ == ErrorView::File(kind, msg@),
    {
        Error::File(kind, msg.to_owned())
    }

    /// The sentinel that asks for a new forkserver.
    pub fn shutting_down() -> (e: Error)
        ensures
            e == Error::ShuttingDown,
    {
        Error::ShuttingDown
    }

    /// Whether the error says that a wait ran out of time.
    pub open spec fn is_timeout(self) -> bool {
        self is File && self->File_0 == ErrorKind::TimedOut
    }
}

/// The error for a wait that ran out of time: a `File` error of kind
/// `TimedOut` with the given message.
pub fn create_timeout_error(msg: &str) -> (e: Error)
    ensures
        e@ == ErrorView::File(ErrorKind::TimedOut, msg@),
        e.is_timeout(),
{
    Error::File(ErrorKind::TimedOut, msg.to_owned())
}

} // verus!
