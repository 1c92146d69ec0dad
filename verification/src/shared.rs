//! The slot that the sender and the receiver share behind their lock, and the
//! rules by which each side changes it.

use vstd::prelude::*;

use core::task::Waker;

use crate::error::{RecvError, TryRecvError};
use crate::poll::Poll;
use crate::task::{clone_waker, will_wake};

verus! {

/// Where the channel stands.
pub enum State<T> {
    /// The sender and receiver are still connected and no value has been sent.
    Alive,
    /// The sender or receiver has been dropped without sending a value, or the
    /// value was received.
    Dead,
    /// A value has been sent and is waiting for the receiver to consume it.
    Value(T),
}

/// The shared slot: where the channel stands, and the waker of a receiver that
/// waits for it.
pub struct Shared<T> {
    pub state: State<T>,
    pub waker: Option<Waker>,
}

impl<T> Shared<T> {
    /// The value waiting in the slot, if any.
    pub open spec fn value(self) -> Option<T> {
        match self.state {
            State::Value(v) => Some(v),
            _ => None,
        }
    }

    /// The slot after the sender offered `value`: it is stored if the channel is
    /// still alive, and the waiting receiver's waker is taken to be woken.
    pub open spec fn sent(self, value: T) -> Self {
        if self.state is Alive {
            Shared { state: State::Value(value), waker: None }
        } else {
            self
        }
    }

    /// What the sender gets back: the waker to wake, or its value if the channel
    /// was no longer alive.
    pub open spec fn send_outcome(self, value: T) -> Result<Option<Waker>, T> {
        if self.state is Alive {
            Ok(self.waker)
        } else {
            Err(value)
        }
    }

    /// The slot after one side went away: an alive channel dies, a sent value
    /// stays for the receiver, and the waker is taken to be woken.
    pub open spec fn closed(self) -> Self {
        Shared {
            state: if self.state is Alive { State::Dead } else { self.state },
            waker: None,
        }
    }

    /// The slot after the receiver took what was in it.
    pub open spec fn taken(self) -> Self {
        Shared { state: State::Dead, waker: None }
    }

    /// What a receiver that waits gets from a slot that is no longer alive.
    pub open spec fn recv_result(self) -> Result<T, RecvError> {
        match self.value() {
            Some(v) => Ok(v),
            None => Err(RecvError),
        }
    }

    /// What a receiver that does not wait gets from the slot.
    pub open spec fn try_recv_result(self) -> Result<T, TryRecvError> {
        match self.state {
            State::Alive => Err(TryRecvError::Empty),
            State::Dead => Err(TryRecvError::Disconnected),
            State::Value(v) => Ok(v),
        }
    }

    /// One `try_recv` step of the receiver, from the slot `self` it found to the
    /// slot `left` it left, answering `r`: an alive slot answers `Empty` and is
    /// left exactly as it was; any other slot gives up what it holds and is left
    /// dead.
    pub open spec fn try_recv_step(self, left: Self, r: Result<T, TryRecvError>) -> bool {
        &&& r == self.try_recv_result()
        &&& if self.state is Alive {
            left == self
        } else {
            left == self.taken()
        }
    }

    /// One `poll` step of the receiver, from the slot `self` it found to the slot
    /// `left` it left, answering `r`: an alive slot answers `Pending`, stays alive
    /// and holds a waker; any other slot answers with what it holds and is left
    /// dead.
    pub open spec fn poll_step(self, left: Self, r: Poll<Result<T, RecvError>>) -> bool {
        if self.state is Alive {
            &&& r is Pending
            &&& left.state == self.state
            &&& left.waker is Some
        } else {
            &&& r == Poll::Ready(self.recv_result())
            &&& left == self.taken()
        }
    }

    /// A fresh slot: alive, with no waker.
    pub fn new() -> (s: Self)
        ensures
            s.state is Alive,
            s.waker is None,
    {
        Shared { state: State::Alive, waker: None }
    }

    /// The sender's step: store `value` if the channel is alive.
    ///
    /// Returns `Ok` with the waker to wake, or `Err(value)` if the receiver is gone
    /// or the channel is otherwise no longer alive.
    pub fn send(&mut self, value: T) -> (r: Result<Option<Waker>, T>)
        ensures
            *final(self) == old(self).sent(value),
            r == old(self).send_outcome(value),
    {
        if let State::Alive = self.state {
            self.state = State::Value(value);
            Ok(self.waker.take())
        } else {
            Err(value)
        }
    }

    /// The step of a side that goes away. Returns the waker to wake.
    pub fn close(&mut self) -> (w: Option<Waker>)
        ensures
            *final(self) == old(self).closed(),
            w == old(self).waker,
    {
        if let State::Alive = self.state {
            self.state = State::Dead;
        }
        self.waker.take()
    }

    /// The receiver takes the value, if one is there, and leaves the channel dead.
    /// Returns the value and the waker to wake.
    pub fn take_value(&mut self) -> (r: (Option<T>, Option<Waker>))
        ensures
            *final(self) == old(self).taken(),
            r.0 == old(self).value(),
            r.1 == old(self).waker,
    {
        let mut state = State::Dead;
        core::mem::swap(&mut self.state, &mut state);
        let result = if let State::Value(value) = state {
            Some(value)
        } else {
            None
        };
        (result, self.waker.take())
    }

    /// The receiver's step without waiting: an alive slot is left as it is;
    /// otherwise the receiver takes what is there. Returns the result and the
    /// waker to wake.
    pub fn try_recv(&mut self) -> (r: (Result<T, TryRecvError>, Option<Waker>))
        ensures
            r.0 == old(self).try_recv_result(),
            old(self).state is Alive ==> *final(self) == *old(self) && r.1 is None,
            !(old(self).state is Alive) ==> *final(self) == old(self).taken() && r.1
                == old(self).waker,
    {
        if let State::Alive = self.state {
            (Err(TryRecvError::Empty), None)
        } else {
            let (value, waker) = self.take_value();
            let result = match value {
                Some(v) => Ok(v),
                None => Err(TryRecvError::Disconnected),
            };
            (result, waker)
        }
    }

    /// Registers the task of `current` to be woken, given whether the stored
    /// waker already wakes that same task (`keeps_task`): a stored waker that
    /// does is kept and nothing is returned; otherwise `current` is cloned into
    /// the slot and the waker it replaces, if any, is returned to be woken.
    pub fn register_waker(&mut self, keeps_task: bool, current: &Waker) -> (replaced: Option<Waker>)
        ensures
            old(self).waker is Some && keeps_task ==> *final(self) == *old(self) && replaced is None,
            !(old(self).waker is Some && keeps_task) ==> {
                &&& final(self).state == old(self).state
                &&& final(self).waker is Some
                &&& replaced == old(self).waker
            },
    {
        match self.waker.take() {
            Some(old_waker) => {
                if keeps_task {
                    self.waker = Some(old_waker);
                    None
                } else {
                    self.waker = Some(clone_waker(current));
                    Some(old_waker)
                }
            },
            None => {
                self.waker = Some(clone_waker(current));
                None
            },
        }
    }

    /// Registers the task of `current` to be woken: the stored waker, if any, is
    /// asked whether it wakes the same task as `current`, and the answer decides
    /// as [`register_waker`](Shared::register_waker) states.
    ///
    /// That answer is the waker's own best-effort comparison, so the contract
    /// here holds for either answer.
    pub fn store_waker(&mut self, current: &Waker) -> (replaced: Option<Waker>)
        ensures
            final(self).state == old(self).state,
            final(self).waker is Some,
            replaced is Some ==> replaced == old(self).waker,
            replaced is None ==> old(self).waker is None || final(self).waker == old(self).waker,
    {
        let keeps_task = match &self.waker {
            Some(stored) => will_wake(stored, current),
            None => false,
        };
        self.register_waker(keeps_task, current)
    }

    /// The receiver's step when polled with the waker `current`: an alive slot
    /// registers the waker and answers `Pending`; otherwise the receiver takes
    /// what is there. Returns the answer and the waker to wake.
    pub fn poll(&mut self, current: &Waker) -> (r: (Poll<Result<T, RecvError>>, Option<Waker>))
        ensures
            old(self).state is Alive ==> {
                &&& r.0 is Pending
                &&& final(self).state == old(self).state
                &&& final(self).waker is Some
                &&& r.1 is Some ==> r.1 == old(self).waker
                &&& r.1 is None ==> old(self).waker is None || final(self).waker == old(self).waker
            },
            !(old(self).state is Alive) ==> {
                &&& r.0 == Poll::Ready(old(self).recv_result())
                &&& *final(self) == old(self).taken()
                &&& r.1 == old(self).waker
            },
    {
        if let State::Alive = self.state {
            let replaced = self.store_waker(current);
            (Poll::Pending, replaced)
        } else {
            let (value, waker) = self.take_value();
            let result = match value {
                Some(v) => Ok(v),
                None => Err(RecvError),
            };
            (Poll::Ready(result), waker)
        }
    }
}

} // verus!
