//! The error type for I/O operations.

use vstd::prelude::*;

verus! {

/// What went wrong, by kind.
#[derive(Clone, Copy, Debug, PartialEq, Eq, Structural)]
pub enum ErrorKind {
    /// The peer closed the connection while more bytes were owed to it.
    ConnectionReset,
    /// A parameter was malformed, such as a seek to a negative position.
    InvalidInput,
    /// A transfer could not move everything it owed: its byte bound ran out
    /// before the stream closed.
    WriteZero,
    /// Any other failure; the message carries the host's diagnostic text.
    Other,
}

/// The error type for I/O operations: a kind, plus the host-reported
/// diagnostic text where one exists.
#[derive(Clone, Debug)]
pub struct IoError {
    /// What went wrong.
    pub kind: ErrorKind,
    /// The host's diagnostic text, verbatim; empty when the kind says it all.
    pub message: String,
}

impl IoError {
    /// An error of the given kind, with no diagnostic text.
    pub fn from_kind(kind: ErrorKind) -> (e: IoError)
        ensures
            e.kind == kind,
            e.message@.len() == 0,
    {
        IoError { kind, message: String::new() }
    }

    /// A generic error carrying the given diagnostic text.
    pub fn other(message: String) -> (e: IoError)
        ensures
            e.kind == ErrorKind::Other,
            e.message == message,
    {
        IoError { kind: ErrorKind::Other, message }
    }
}

} // verus!
