//! The error that every fallible operation of the crate returns.

use vstd::prelude::*;
use vstd::string::*;

verus! {

/// What went wrong, by the step that failed.
#[derive(Clone, Copy, Debug, PartialEq, Eq, Structural)]
pub enum ErrorKind {
    /// A host, a port or a network in CIDR notation could not be read or resolved.
    Addressing,
    /// No usable interface has the name asked for.
    NotFound,
    /// The configuration cannot be carried out on the chosen interface.
    Configuration,
    /// The NAT classification failed or timed out.
    Classification,
    /// The tunnel could not be started.
    Tunnel,
    /// The redirection engine could not be started.
    Redirection,
    /// Any other failure, such as that of the latency probe to start.
    Other,
}

/// An error: its kind and the message to show.
#[derive(Debug, Clone)]
pub struct Error {
    kind: ErrorKind,
    message: String,
}

/// An error as contracts speak of it.
pub struct ErrorView {
    pub kind: ErrorKind,
    pub message: Seq<char>,
}

impl View for Error {
    type V = ErrorView;

    closed spec fn view(&self) -> ErrorView {
        ErrorView { kind: self.kind, message: self.message@ }
    }
}

/// A failure as contracts speak of it: its kind, and its message where this
/// crate words it. Where the message is that of another crate, it is left open.
pub struct Failure {
    pub kind: ErrorKind,
    pub message: Option<Seq<char>>,
}

impl Failure {
    /// The failure of the given kind with the given message.
    pub open spec fn worded(kind: ErrorKind, message: Seq<char>) -> Failure {
        Failure { kind, message: Some(message) }
    }

    /// A failure of the given kind, whatever its message.
    pub open spec fn of_kind(kind: ErrorKind) -> Failure {
        Failure { kind, message: None }
    }
}

impl Error {
    /// Whether the error is the failure `failure`: of its kind, and with its
    /// message where it has one.
    pub open spec fn reports(self, failure: Failure) -> bool {
        self@.kind == failure.kind && (failure.message matches Some(m) ==> self@.message == m)
    }

    /// An error of kind `Other` with the given message.
    pub fn new(message: String) -> (r: Error)
        ensures
            r@ == (ErrorView { kind: ErrorKind::Other, message: message@ }),
    {
        Error { kind: ErrorKind::Other, message }
    }

    /// An error of the given kind with the given message.
    pub fn with_kind(kind: ErrorKind, message: String) -> (r: Error)
        ensures
            r@ == (ErrorView { kind, message: message@ }),
    {
        Error { kind, message }
    }

    /// An error of the given kind whose message is `text`.
    pub fn describe(kind: ErrorKind, text: &str) -> (r: Error)
        ensures
            r@ == (ErrorView { kind, message: text@ }),
    {
        Error { kind, message: text.to_owned() }
    }

    /// The kind of the error.
    pub fn kind(&self) -> (r: ErrorKind)
        ensures
            r == self@.kind,
    {
        self.kind
    }

    /// The message of the error.
    pub fn message(&self) -> (r: &str)
        ensures
            r@ == self@.message,
    {
        self.message.as_str()
    }

    /// The message of the error, as an owned string.
    pub fn to_string(&self) -> (r: String)
        ensures
            r@ == self@.message,
    {
        self.message.clone()
    }
}

} // verus!
