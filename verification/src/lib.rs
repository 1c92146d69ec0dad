//! A single-producer, single-consumer oneshot channel.
//!
//! [`channel`] returns an entangled [`Sender`] / [`Receiver`] pair that share one
//! slot behind a two-handle spin lock. The sender delivers at most one value; the
//! receiver takes it either without waiting ([`Receiver::try_recv`]) or by polling
//! with a task waker ([`Receiver::poll`]), which is woken when the value arrives or
//! the sender goes away.
//!
//! The rules of the shared slot are the state machine in [`shared`]; its laws are
//! proved in [`laws`].

mod task;
pub mod lock;

pub mod error;
pub mod poll;
pub mod shared;
pub mod channel;
pub mod laws;

pub use channel::{channel, Receiver, Sender};
pub use error::{RecvError, SendError, TryRecvError};
pub use poll::Poll;
pub use shared::{Shared, State};
