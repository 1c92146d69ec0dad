# spsc

A single-producer, single-consumer oneshot channel, verified with Verus.

- `src/shared.rs`: the slot both ends share, and the steps by which each end
  changes it, each with an exact contract.
- `src/channel.rs`: `channel`, `Sender` and `Receiver`, which take the lock of
  the `bilock` crate and apply those steps.
- `src/laws.rs`: proved laws of the slot (a sent value is received, at most once;
  a send after the receiver left hands the value back; ...).
- `src/lock.rs`, `src/task.rs`: the trusted calls into `bilock` and `core::task::Waker`.
- `app/`: the receiver as a `Future`, and ends that close themselves on `Drop`.
