//! The task waker of `core::task`, and the few calls the channel makes on it.

use vstd::prelude::*;

verus! {

#[verifier::external_type_specification]
#[verifier::external_body]
pub struct ExWaker(core::task::Waker);

/// Calls `Waker::wake`, which consumes the waker and wakes its task.
/// Nothing is claimed of what waking does.
#[verifier::external_body]
pub(crate) fn wake(waker: core::task::Waker) {
    waker.wake()
}

/// Calls `Waker::wake_by_ref`, which wakes the task without consuming the waker.
/// Nothing is claimed of what waking does.
#[verifier::external_body]
pub(crate) fn wake_by_ref(waker: &core::task::Waker) {
    waker.wake_by_ref()
}

/// Calls `Waker::will_wake`. Its answer is a best-effort comparison of the two
/// wakers' data pointers and vtables, so it depends on addresses: nothing is
/// claimed of it.
#[verifier::external_body]
pub(crate) fn will_wake(waker: &core::task::Waker, other: &core::task::Waker) -> bool {
    waker.will_wake(other)
}

/// Calls `Waker::clone`, which asks the waker's vtable for a new handle to the
/// same task. Nothing is claimed of the new value.
#[verifier::external_body]
pub(crate) fn clone_waker(waker: &core::task::Waker) -> core::task::Waker {
    waker.clone()
}

} // verus!
