//! The outcome of polling the receiver.

use vstd::prelude::*;

verus! {

/// Whether a poll found the receiver's result ready.
#[derive(Debug, Clone, Copy, PartialEq, Eq)]
pub enum Poll<T> {
    /// The result is ready.
    Ready(T),
    /// No result yet: the waker that was handed in will be woken.
    Pending,
}

} // verus!
