//! The two ends of the channel.
//!
//! Each end holds one handle of a two-handle lock around the [`Shared`] slot, and
//! changes the slot only by the steps of [`Shared`] while it holds the lock. What
//! an end finds in the slot depends on what the other end did before, so the
//! contracts here speak of what an end knows of itself: whether the receiver is
//! finished, and which value comes back to the sender.

use vstd::prelude::*;

use core::task::Waker;

use crate::error::{RecvError, SendError, TryRecvError};
use crate::lock::{guarded, lock, new_pair, try_lock, unlock, LockHandle, Visit};
use crate::poll::Poll;
use crate::shared::{Shared, State};
use crate::task::{wake, wake_by_ref};

verus! {

/// Returns an entangled `(Sender, Receiver)` pair.
///
/// The receiver waits for a value to be sent by its sender. Both ends share one
/// slot, made alive and with no waker.
#[must_use]
pub fn channel<T>() -> (pair: (Sender<T>, Receiver<T>))
    ensures
        pair.0.initial_slot().state is Alive,
        pair.0.initial_slot().waker is None,
        pair.1.initial_slot() == pair.0.initial_slot(),
        !pair.1.is_terminated(),
{
    let (sender, receiver) = new_pair(Shared::new());
    let initial = Ghost(receiver.initial_value());
    (Sender { holder: sender }, Receiver { holder: Some(receiver), initial, last: None })
}

/// Call [`send()`](Sender::send) to send a value to the [`Receiver`].
///
/// A sender that is given up without sending must be passed to
/// [`close()`](Sender::close), so that the receiver learns that no value will come.
#[verifier::reject_recursive_types(T)]
pub struct Sender<T> {
    holder: LockHandle<Shared<T>>,
}

/// Waits for the [`Sender`] to send a value.
///
/// Polling it is drop-safe: a value that was not yet received stays in the slot.
/// The receiver answers <code>[Err]\([RecvError])</code> if the entangled sender was
/// closed without sending a value. A receiver that is given up before it
/// finished must be passed to [`close()`](Receiver::close).
#[verifier::reject_recursive_types(T)]
pub struct Receiver<T> {
    holder: Option<LockHandle<Shared<T>>>,
    initial: Ghost<Shared<T>>,
    last: Option<Visit<Shared<T>>>,
}

/// Wakes the task of `waker`, if there is one.
fn wake_if_any(waker: Option<Waker>) {
    if let Some(waker) = waker {
        wake(waker);
    }
}

/// Gives up one handle of the lock: the slot is closed, and a waiting task is
/// woken after the lock was released. Returns the record of that last visit.
fn release<T>(holder: LockHandle<Shared<T>>) -> (record: Visit<Shared<T>>)
    ensures
        record.id() == holder.id(),
        record.visit() == holder.visits() + 1,
        record.left() == record.found().closed(),
{
    let mut holder = holder;
    let (waker, record) = {
        let mut guard = lock(&mut holder);
        let shared = guarded(&mut guard);
        let waker = shared.close();
        let record = unlock(guard);
        (waker, record)
    };
    wake_if_any(waker);
    record
}

/// What the sender answers after its step on the slot: `Ok` once the value was
/// stored (the waker it took is woken), or the value handed back in a
/// `SendError`.
fn send_result<T>(outcome: Result<Option<Waker>, T>) -> (r: Result<(), SendError<T>>)
    ensures
        outcome is Ok ==> r is Ok,
        forall|v: T| outcome == Err::<Option<Waker>, T>(v) ==> r == Err::<(), SendError<T>>(SendError(v)),
{
    match outcome {
        Ok(waker) => {
            wake_if_any(waker);
            Ok(())
        },
        Err(value) => Err(SendError(value)),
    }
}

impl<T> Sender<T> {
    /// The slot that the channel was made with.
    pub closed spec fn initial_slot(&self) -> Shared<T> {
        self.holder.initial_value()
    }

    /// The lock pair that the sender holds.
    pub closed spec fn lock_id(&self) -> int {
        self.holder.id()
    }

    /// How many times the sender has taken its lock.
    pub closed spec fn visits(&self) -> nat {
        self.holder.visits()
    }

    /// Consumes the sender and transmits `value` to the [`Receiver`].
    ///
    /// Returns <code>[Err]\([SendError]\(value))</code> if the receiver was already
    /// closed; the value then comes back unchanged.
    pub fn send(self, value: T) -> (r: Result<(), SendError<T>>)
        ensures
            r is Ok || r == Err::<(), SendError<T>>(SendError(value)),
    {
        let mut holder = self.holder;
        let outcome = {
            let mut guard = lock(&mut holder);
            let shared = guarded(&mut guard);
            let outcome = shared.send(value);
            let _record = unlock(guard);
            outcome
        };
        let result = send_result(outcome);
        release(holder);
        result
    }

    /// Gives up the sender without sending: a receiver that waits is woken and
    /// learns that no value will come.
    ///
    /// Returns the record of the sender's last visit to the slot: it took its lock
    /// once more and closed the slot, so that a live channel is left dead and a
    /// sent value stays for the receiver.
    pub fn close(self) -> (record: Visit<Shared<T>>)
        ensures
            record.id() == self.lock_id(),
            record.visit() == self.visits() + 1,
            record.left() == record.found().closed(),
    {
        release(self.holder)
    }
}

impl<T> Receiver<T> {
    /// True once the receiver has its final answer: a value was received, or the
    /// sender was found gone.
    pub closed spec fn is_terminated(&self) -> bool {
        self.holder is None
    }

    /// The slot that the channel was made with.
    pub closed spec fn initial_slot(&self) -> Shared<T> {
        self.initial@
    }

    /// The lock pair that a receiver still waiting holds.
    pub closed spec fn lock_id(&self) -> int {
        match self.holder {
            Some(h) => h.id(),
            None => 0,
        }
    }

    /// How many times a receiver still waiting has taken its lock.
    pub closed spec fn visits(&self) -> nat {
        match self.holder {
            Some(h) => h.visits(),
            None => 0,
        }
    }

    /// The receiver's last visit to the lock of pair `id`, if its last call
    /// took that lock: which visit it was, the slot found, and the slot left.
    pub closed spec fn last_visit(&self, id: int) -> Option<(nat, Shared<T>, Shared<T>)> {
        match self.last {
            Some(v) => if v.id() == id {
                Some((v.visit(), v.found(), v.left()))
            } else {
                None
            },
            None => None,
        }
    }

    /// Settles a `try_recv` after the attempt on the lock: a busy lock
    /// (`attempt` is `None`) answers `Empty` and keeps the handle; otherwise the
    /// slot's answer is returned, the waker it gave up is woken, and the handle
    /// is kept exactly when that answer is `Empty`, else given up.
    fn finish_try_recv(
        &mut self,
        holder: LockHandle<Shared<T>>,
        attempt: Option<(Result<T, TryRecvError>, Option<Waker>)>,
    ) -> (r: Result<T, TryRecvError>)
        ensures
            final(self).initial == old(self).initial,
            final(self).last == old(self).last,
            attempt is None ==> r == Err::<T, TryRecvError>(TryRecvError::Empty) && final(self).holder
                == Some(holder),
            attempt matches Some((answer, _)) ==> r == answer,
            r == Err::<T, TryRecvError>(TryRecvError::Empty) ==> final(self).holder == Some(holder),
            r != Err::<T, TryRecvError>(TryRecvError::Empty) ==> final(self).holder is None,
    {
        match attempt {
            None => {
                self.holder = Some(holder);
                Err(TryRecvError::Empty)
            },
            Some((result, waker)) => {
                wake_if_any(waker);
                match result {
                    Err(TryRecvError::Empty) => {
                        self.holder = Some(holder);
                    },
                    _ => {
                        self.holder = None;
                        release(holder);
                    },
                }
                result
            },
        }
    }

    /// Tries to receive a value without waiting.
    ///
    /// Returns <code>[Err]\([TryRecvError]::Empty)</code> if no value was sent yet,
    /// or <code>Err(TryRecvError::Disconnected)</code> if the sender was closed
    /// before sending a value, or a value was already received. Only `Empty`
    /// leaves the receiver waiting.
    ///
    /// A waiting receiver either finds the lock busy, answers `Empty` and leaves
    /// everything as it was, or takes the lock once and makes exactly the
    /// `try_recv` step of the slot: an alive slot is left untouched, so a later
    /// send still succeeds.
    pub fn try_recv(&mut self) -> (r: Result<T, TryRecvError>)
        ensures
            old(self).is_terminated() ==> r == Err::<T, TryRecvError>(TryRecvError::Disconnected),
            final(self).is_terminated() <==> r != Err::<T, TryRecvError>(TryRecvError::Empty),
            final(self).initial_slot() == old(self).initial_slot(),
            !old(self).is_terminated() ==> match final(self).last_visit(old(self).lock_id()) {
                None => {
                    &&& r == Err::<T, TryRecvError>(TryRecvError::Empty)
                    &&& final(self).lock_id() == old(self).lock_id()
                    &&& final(self).visits() == old(self).visits()
                },
                Some((visit, found, left)) => {
                    &&& visit == old(self).visits() + 1
                    &&& found.try_recv_step(left, r)
                    &&& !final(self).is_terminated() ==> final(self).lock_id() == old(self).lock_id()
                        && final(self).visits() == visit
                },
            },
    {
        let mut holder = match self.holder.take() {
            Some(holder) => holder,
            None => {
                self.last = None;
                return Err(TryRecvError::Disconnected);
            },
        };
        let attempt = match try_lock(&mut holder) {
            Some(mut guard) => {
                let shared = guarded(&mut guard);
                let outcome = shared.try_recv();
                let record = unlock(guard);
                Some((outcome, record))
            },
            None => None,
        };
        match attempt {
            None => {
                self.last = None;
                self.finish_try_recv(holder, None)
            },
            Some((outcome, record)) => {
                self.last = Some(record);
                self.finish_try_recv(holder, Some(outcome))
            },
        }
    }

    /// Settles a `poll` after the attempt on the lock: a busy lock (`attempt` is
    /// `None`) answers `Pending`, keeps the handle, and wakes the polling task so
    /// that it polls again; otherwise the slot's answer is returned, the waker it
    /// gave up is woken, and the handle is kept exactly while the answer is
    /// `Pending`, else given up.
    fn finish_poll(
        &mut self,
        holder: LockHandle<Shared<T>>,
        current: &Waker,
        attempt: Option<(Poll<Result<T, RecvError>>, Option<Waker>)>,
    ) -> (r: Poll<Result<T, RecvError>>)
        ensures
            final(self).initial == old(self).initial,
            final(self).last == old(self).last,
            attempt is None ==> r is Pending && final(self).holder == Some(holder),
            attempt matches Some((answer, _)) ==> r == answer,
            r is Pending ==> final(self).holder == Some(holder),
            r is Ready ==> final(self).holder is None,
    {
        match attempt {
            None => {
                wake_by_ref(current);
                self.holder = Some(holder);
                Poll::Pending
            },
            Some((answer, to_wake)) => {
                wake_if_any(to_wake);
                match answer {
                    Poll::Pending => {
                        self.holder = Some(holder);
                    },
                    Poll::Ready(_) => {
                        self.holder = None;
                        release(holder);
                    },
                }
                answer
            },
        }
    }

    /// Polls for the value with the waker of the polling task.
    ///
    /// Answers `Pending` while no value was sent, and the task of `waker` is then
    /// woken once a value was sent or the sender was closed. Answers
    /// `Ready(Ok(value))` with the sent value, or `Ready(Err(RecvError))` if the
    /// sender was closed without sending, or if the receiver had already
    /// finished.
    ///
    /// A waiting receiver either finds the lock busy, answers `Pending` and leaves
    /// everything as it was, or takes the lock once and makes exactly the `poll`
    /// step of the slot.
    pub fn poll(&mut self, waker: &Waker) -> (r: Poll<Result<T, RecvError>>)
        ensures
            old(self).is_terminated() ==> r == Poll::Ready(Err::<T, RecvError>(RecvError)),
            final(self).is_terminated() <==> r is Ready,
            final(self).initial_slot() == old(self).initial_slot(),
            !old(self).is_terminated() ==> match final(self).last_visit(old(self).lock_id()) {
                None => {
                    &&& r is Pending
                    &&& final(self).lock_id() == old(self).lock_id()
                    &&& final(self).visits() == old(self).visits()
                },
                Some((visit, found, left)) => {
                    &&& visit == old(self).visits() + 1
                    &&& found.poll_step(left, r)
                    &&& !final(self).is_terminated() ==> final(self).lock_id() == old(self).lock_id()
                        && final(self).visits() == visit
                },
            },
    {
        let mut holder = match self.holder.take() {
            Some(holder) => holder,
            None => {
                self.last = None;
                return Poll::Ready(Err(RecvError));
            },
        };
        let attempt = match try_lock(&mut holder) {
            Some(mut guard) => {
                let shared = guarded(&mut guard);
                let outcome = shared.poll(waker);
                let record = unlock(guard);
                Some((outcome, record))
            },
            None => None,
        };
        match attempt {
            None => {
                self.last = None;
                self.finish_poll(holder, waker, None)
            },
            Some((outcome, record)) => {
                self.last = Some(record);
                self.finish_poll(holder, waker, Some(outcome))
            },
        }
    }

    /// Gives up the receiver: a later `send` hands its value back.
    ///
    /// A receiver still waiting returns the record of its last visit to the slot:
    /// it took its lock once more and closed the slot, whatever waker it held, so
    /// that a live channel is left dead. A finished receiver has no lock left and
    /// returns `None`.
    pub fn close(self) -> (record: Option<Visit<Shared<T>>>)
        ensures
            self.is_terminated() ==> record is None,
            !self.is_terminated() ==> (record matches Some(v) && v.id() == self.lock_id()
                && v.visit() == self.visits() + 1 && v.left() == v.found().closed()),
    {
        match self.holder {
            Some(holder) => Some(release(holder)),
            None => None,
        }
    }
}

} // verus!
