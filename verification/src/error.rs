//! The channel's errors.

use vstd::prelude::*;
use vstd::string::StringExecFns;

verus! {

/// An error returned from [`Sender::send()`](crate::Sender::send).
///
/// The entangled receiver was already dropped; the field hands the value back.
#[derive(Debug, Clone, Copy, PartialEq, Eq)]
pub struct SendError<T>(
    /// The `value` argument of `Sender::send()`.
    pub T,
);

/// An error returned from [`Receiver::poll()`](crate::Receiver::poll).
///
/// The entangled sender was already dropped without sending a value, or a value
/// was already received.
#[derive(Debug, Default, Clone, Copy, PartialEq, Eq)]
pub struct RecvError;

/// An error returned from [`Receiver::try_recv()`](crate::Receiver::try_recv).
#[derive(Debug, Clone, Copy, PartialEq, Eq)]
pub enum TryRecvError {
    /// No value was sent, yet.
    Empty,
    /// The sender was dropped without sending a value, or a value was already received.
    Disconnected,
}

impl<T> SendError<T> {
    /// The error's message.
    pub fn to_string(&self) -> (s: String)
        ensures
            s@ == "sending on a closed channel"@,
    {
        String::from_str("sending on a closed channel")
    }
}

impl RecvError {
    /// The error's message.
    pub fn to_string(&self) -> (s: String)
        ensures
            s@ == "receiving on a closed channel"@,
    {
        String::from_str("receiving on a closed channel")
    }
}

impl TryRecvError {
    /// The error's message.
    pub fn to_string(&self) -> (s: String)
        ensures
            *self == TryRecvError::Empty ==> s@ == "receiving on an empty channel"@,
            *self == TryRecvError::Disconnected ==> s@ == "receiving on a closed channel"@,
    {
        match self {
            TryRecvError::Empty => String::from_str("receiving on an empty channel"),
            TryRecvError::Disconnected => String::from_str("receiving on a closed channel"),
        }
    }
}

} // verus!
