//! Laws of the channel, stated over the steps of the shared slot.
//!
//! Each side changes the slot only by the steps of [`Shared`]: the sender by
//! `send` and `close`, the receiver by `try_recv`, `poll` and `close`. Their
//! contracts are given by the spec functions used below.

use vstd::prelude::*;

use core::task::Waker;

use crate::error::{RecvError, TryRecvError};
use crate::poll::Poll;
use crate::shared::{Shared, State};

verus! {

/// A value sent on a live channel is what the receiver gets, whether it waits or
/// not, and also after the sender went away behind it.
pub proof fn lemma_sent_value_is_received<T>(s: Shared<T>, value: T)
    requires
        s.state is Alive,
    ensures
        s.send_outcome(value) is Ok,
        s.sent(value).recv_result() == Ok::<T, RecvError>(value),
        s.sent(value).try_recv_result() == Ok::<T, TryRecvError>(value),
        s.sent(value).closed().recv_result() == Ok::<T, RecvError>(value),
        s.sent(value).closed().try_recv_result() == Ok::<T, TryRecvError>(value),
{
}

/// Once the receiver went away, a send hands its value back and leaves the slot
/// as it was.
pub proof fn lemma_send_after_receiver_closed<T>(s: Shared<T>, value: T)
    ensures
        s.closed().send_outcome(value) == Err::<Option<Waker>, T>(value),
        s.closed().sent(value) == s.closed(),
{
}

/// A sender that went away without sending leaves the receiver an error, whether
/// it waits or not.
pub proof fn lemma_receive_after_sender_closed<T>(s: Shared<T>)
    requires
        s.state is Alive,
    ensures
        s.closed().recv_result() == Err::<T, RecvError>(RecvError),
        s.closed().try_recv_result() == Err::<T, TryRecvError>(TryRecvError::Disconnected),
{
}

/// A value is received at most once: once the receiver took from the slot, every
/// later receive is an error and every later send is refused.
pub proof fn lemma_received_at_most_once<T>(s: Shared<T>, value: T)
    ensures
        s.taken().recv_result() == Err::<T, RecvError>(RecvError),
        s.taken().try_recv_result() == Err::<T, TryRecvError>(TryRecvError::Disconnected),
        s.taken().send_outcome(value) == Err::<Option<Waker>, T>(value),
{
}

/// No step brings a channel back to life, and a sent value stays in the slot
/// until the receiver takes it.
pub proof fn lemma_no_step_revives<T>(s: Shared<T>, value: T)
    requires
        !(s.state is Alive),
    ensures
        !(s.sent(value).state is Alive),
        !(s.closed().state is Alive),
        !(s.taken().state is Alive),
        s.sent(value) == s,
        s.closed().value() == s.value(),
{
}

/// A receiver that waits is handed over to whoever changes the slot next: the
/// sender's step and a closing side's step each take the registered waker to
/// wake it.
pub proof fn lemma_waiting_receiver_is_woken<T>(s: Shared<T>, waker: Waker, value: T)
    requires
        s.state is Alive,
        s.waker == Some(waker),
    ensures
        s.send_outcome(value) == Ok::<Option<Waker>, T>(Some(waker)),
        s.sent(value).waker is None,
        s.closed().waker is None,
{
}

/// Looking without waiting finds nothing exactly while the channel is alive;
/// otherwise it agrees with what a waiting receiver gets.
pub proof fn lemma_try_recv_agrees_with_poll<T>(s: Shared<T>)
    ensures
        s.try_recv_result() == Err::<T, TryRecvError>(TryRecvError::Empty) <==> s.state is Alive,
        !(s.state is Alive) ==> (match s.recv_result() {
            Ok(v) => s.try_recv_result() == Ok::<T, TryRecvError>(v),
            Err(_) => s.try_recv_result() == Err::<T, TryRecvError>(TryRecvError::Disconnected),
        }),
{
}

/// A receiver that looked without waiting and was told `Empty` left the slot
/// exactly as it found it, alive: a later send is accepted, and the receiver then
/// gets that value.
pub proof fn lemma_empty_try_recv_leaves_channel_open<T>(found: Shared<T>, left: Shared<T>, value: T)
    requires
        found.try_recv_step(left, Err(TryRecvError::Empty)),
    ensures
        found.state is Alive,
        left == found,
        left.send_outcome(value) == Ok::<Option<Waker>, T>(found.waker),
        left.sent(value).try_recv_result() == Ok::<T, TryRecvError>(value),
{
}

/// A receiver that looked without waiting at a slot holding a sent value got
/// exactly that value, and nothing is left to receive again.
pub proof fn lemma_try_recv_delivers_sent_value<T>(
    found: Shared<T>,
    left: Shared<T>,
    r: Result<T, TryRecvError>,
    value: T,
)
    requires
        found.value() == Some(value),
        found.try_recv_step(left, r),
    ensures
        r == Ok::<T, TryRecvError>(value),
        left.value() is None,
        !(left.state is Alive),
{
}

/// A poll of a slot holding a sent value answers with exactly that value, for
/// every value type, and nothing is left to receive again.
pub proof fn lemma_poll_delivers_sent_value<T>(
    found: Shared<T>,
    left: Shared<T>,
    r: Poll<Result<T, RecvError>>,
    value: T,
)
    requires
        found.value() == Some(value),
        found.poll_step(left, r),
    ensures
        r == Poll::Ready(Ok::<T, RecvError>(value)),
        left.value() is None,
        !(left.state is Alive),
{
}

/// A poll that answered `Pending` left the channel alive with a waker to wake: a
/// later send is accepted, hands that waker over, and the value is then received.
pub proof fn lemma_pending_poll_leaves_channel_open<T>(
    found: Shared<T>,
    left: Shared<T>,
    r: Poll<Result<T, RecvError>>,
    value: T,
)
    requires
        found.poll_step(left, r),
        r is Pending,
    ensures
        found.state is Alive,
        left.state is Alive,
        left.send_outcome(value) matches Ok(Some(_)),
        left.sent(value).recv_result() == Ok::<T, RecvError>(value),
{
}

/// An end that went away left a live channel dead, whatever waker it held: every
/// later send hands its value back, and a receiver that still looks is told the
/// channel is closed.
pub proof fn lemma_closing_a_live_channel_refuses_sends<T>(
    found: Shared<T>,
    left: Shared<T>,
    value: T,
    later: Shared<T>,
    answer: Result<T, TryRecvError>,
    polled: Poll<Result<T, RecvError>>,
)
    requires
        found.state is Alive,
        left == found.closed(),
    ensures
        left.state is Dead,
        left.send_outcome(value) == Err::<Option<Waker>, T>(value),
        left.sent(value) == left,
        left.try_recv_step(later, answer) ==> answer == Err::<T, TryRecvError>(TryRecvError::Disconnected),
        left.poll_step(later, polled) ==> polled == Poll::Ready(Err::<T, RecvError>(RecvError)),
{
}

/// A sender that went away after sending left its value for the receiver.
pub proof fn lemma_closing_after_send_keeps_value<T>(found: Shared<T>, left: Shared<T>, value: T)
    requires
        found.value() == Some(value),
        left == found.closed(),
    ensures
        left.value() == Some(value),
        left.try_recv_result() == Ok::<T, TryRecvError>(value),
        left.recv_result() == Ok::<T, RecvError>(value),
{
}

} // verus!
