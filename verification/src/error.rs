//! The errors of the sending half.
//!
//! A subscriber that went away is no error to a broadcast: it shows as a
//! verdict. Errors arise only where a sender is driven by hand, as a sink.

use vstd::prelude::*;
use futures::channel::mpsc::SendError;
use crate::transport::disconnected;

verus! {

/// Why a sender refused.
#[derive(Clone, Copy, Debug, PartialEq, Eq, Structural)]
pub enum ErrorKind {
    /// The receiving half was closed or dropped. This is how a subscription
    /// ends.
    Closed,
    /// An item was handed over while the queue had no room for it: the
    /// sender had not reported that it was ready.
    Full,
}

impl ErrorKind {
    /// The refusal in words.
    pub open spec fn text(self) -> Seq<char> {
        match self {
            ErrorKind::Closed => "the subscriber has closed or dropped its stream"@,
            ErrorKind::Full => "the queue has no room: the sender was not ready"@,
        }
    }

    /// The refusal in words.
    pub fn message(&self) -> (text: &'static str)
        ensures
            text@ == self.text(),
    {
        match self {
            ErrorKind::Closed => "the subscriber has closed or dropped its stream",
            ErrorKind::Full => "the queue has no room: the sender was not ready",
        }
    }
}

/// The error of a sender that is used as a sink.
#[derive(Clone, Copy, Debug, PartialEq, Eq, Structural)]
pub struct Error {
    pub kind: ErrorKind,
}

impl Error {
    /// The error of the given kind.
    pub fn new(kind: ErrorKind) -> (err: Error)
        ensures
            err.kind == kind,
    {
        Error { kind }
    }

    /// Why the sender refused.
    pub fn kind(&self) -> (kind: ErrorKind)
        ensures
            kind == self.kind,
    {
        self.kind
    }
}

impl From<SendError> for Error {
    /// A refusal of the queue as an error of this crate: `Closed` where the
    /// receiving half is gone, `Full` otherwise.
    fn from(e: SendError) -> (err: Error) {
        if e.is_disconnected() {
            Error { kind: ErrorKind::Closed }
        } else {
            Error { kind: ErrorKind::Full }
        }
    }
}

impl vstd::std_specs::convert::FromSpecImpl<SendError> for Error {
    open spec fn obeys_from_spec() -> bool {
        true
    }

    open spec fn from_spec(e: SendError) -> Error {
        if disconnected(e) {
            Error { kind: ErrorKind::Closed }
        } else {
            Error { kind: ErrorKind::Full }
        }
    }
}

} // verus!
