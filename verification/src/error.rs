//! The error values that the sources and the selector hand back.

use std::io::ErrorKind;
use vstd::prelude::*;

verus! {

/// The standard library's list of I/O error kinds, used as plain data.
#[verifier::external_type_specification]
pub struct ExErrorKind(std::io::ErrorKind);

/// An I/O error as plain data: its kind and the message it carries.
///
/// An error built from a kind alone has the empty message.
#[derive(Debug)]
pub struct Error {
    pub kind: ErrorKind,
    pub message: String,
}

/// An error as a value: its kind and the characters of its message.
pub struct ErrorView {
    pub kind: ErrorKind,
    pub message: Seq<char>,
}

impl ErrorView {
    /// The error of an operation that cannot make progress yet.
    pub open spec fn would_block() -> ErrorView {
        ErrorView { kind: ErrorKind::WouldBlock, message: Seq::empty() }
    }

    /// A setup error that carries `message`.
    pub open spec fn other(message: Seq<char>) -> ErrorView {
        ErrorView { kind: ErrorKind::Other, message }
    }

    /// The error of `kind` that carries no message.
    pub open spec fn of_kind(kind: ErrorKind) -> ErrorView {
        ErrorView { kind, message: Seq::empty() }
    }

    /// True when the error tells that the peer closed or reset the connection.
    pub open spec fn closes_connection(self) -> bool {
        self.kind == ErrorKind::ConnectionReset || self.kind == ErrorKind::ConnectionAborted
            || self.kind == ErrorKind::BrokenPipe
    }
}

impl View for Error {
    type V = ErrorView;

    open spec fn view(&self) -> ErrorView {
        ErrorView { kind: self.kind, message: self.message@ }
    }
}

/// A result whose failure is taken by its view.
pub open spec fn result_view<T>(res: Result<T, Error>) -> Result<T, ErrorView> {
    match res {
        Ok(v) => Ok(v),
        Err(e) => Err(e@),
    }
}

impl Error {
    /// An error of `kind` that carries `message`.
    pub fn new(kind: ErrorKind, message: &str) -> (e: Error)
        ensures
            e@ == (ErrorView { kind, message: message@ }),
    {
        Error { kind, message: message.to_owned() }
    }

    /// An error of `kind` with no message.
    pub fn from_kind(kind: ErrorKind) -> (e: Error)
        ensures
            e@ == ErrorView::of_kind(kind),
    {
        Error { kind, message: String::new() }
    }

    /// The kind of this error.
    pub fn kind(&self) -> (k: ErrorKind)
        ensures
            k == self.kind,
    {
        self.kind
    }

    /// The message of this error.
    pub fn message(&self) -> (m: &str)
        ensures
            m@ == self.message@,
    {
        self.message.as_str()
    }

    /// The message of this error, as an owned string.
    pub fn to_string(&self) -> (m: String)
        ensures
            m@ == self.message@,
    {
        self.message.clone()
    }
}

/// A setup error: kind `Other`, carrying `s`.
pub fn other(s: &str) -> (e: Error)
    ensures
        e@ == ErrorView::other(s@),
{
    Error::new(ErrorKind::Other, s)
}

/// The transient error of an operation that cannot make progress yet.
pub fn would_block() -> (e: Error)
    ensures
        e@ == ErrorView::would_block(),
{
    Error::from_kind(ErrorKind::WouldBlock)
}

/// Whether `e` reports a connection that was reset, aborted, or whose pipe broke.
pub fn is_connection_closed(e: &Error) -> (closed: bool)
    ensures
        closed == e@.closes_connection(),
{
    match e.kind {
        ErrorKind::ConnectionReset | ErrorKind::ConnectionAborted | ErrorKind::BrokenPipe => true,
        _ => false,
    }
}

} // verus!
