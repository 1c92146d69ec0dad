use std::future::Future;
use std::pin::Pin;
use std::sync::atomic::{AtomicBool, AtomicUsize, Ordering::SeqCst};
use std::sync::Arc;
use std::task::{Context, Wake, Waker};

use spsc::{channel, Poll, Receiver, RecvError, SendError, Shared, TryRecvError};

/// A waker that records whether, and how often, it was woken.
struct Flag {
    woken: AtomicBool,
    count: AtomicUsize,
}

impl Wake for Flag {
    fn wake(self: Arc<Self>) {
        self.wake_by_ref();
    }

    fn wake_by_ref(self: &Arc<Self>) {
        self.woken.store(true, SeqCst);
        self.count.fetch_add(1, SeqCst);
    }
}

fn flag() -> (Arc<Flag>, Waker) {
    let flag = Arc::new(Flag {
        woken: AtomicBool::new(false),
        count: AtomicUsize::new(0),
    });
    let waker = Waker::from(Arc::clone(&flag));
    (flag, waker)
}

/// Awaits a receiver in any runtime.
struct Recv<T>(Receiver<T>);

// The receiver is never pinned in place: polling only borrows it.
impl<T> Unpin for Recv<T> {}

impl<T> Future for Recv<T> {
    type Output = Result<T, RecvError>;

    fn poll(self: Pin<&mut Self>, cx: &mut Context<'_>) -> std::task::Poll<Self::Output> {
        let this = Pin::into_inner(self);
        match this.0.poll(cx.waker()) {
            Poll::Ready(r) => std::task::Poll::Ready(r),
            Poll::Pending => std::task::Poll::Pending,
        }
    }
}

#[test]
fn receiver_gets_sent_value() {
    pollster::block_on(async {
        let (sender, receiver) = channel();

        assert_eq!(sender.send(42), Ok(()));
        assert_eq!(Recv(receiver).await, Ok(42));
    })
}

#[test]
fn receiver_returns_error_when_sender_dropped() {
    pollster::block_on(async {
        let (sender, receiver) = channel::<i32>();
        sender.close();

        assert_eq!(Recv(receiver).await, Err(RecvError));
    })
}

#[test]
fn sender_returns_error_when_receiver_dropped() {
    pollster::block_on(async {
        let (sender, receiver) = channel();
        receiver.close();

        assert_eq!(sender.send(99), Err(SendError(99)));
    })
}

#[test]
fn drop_safety() {
    let (sender, mut receiver) = channel();
    let waker = Waker::noop();

    assert_eq!(receiver.poll(waker), Poll::Pending);
    assert_eq!(sender.send(123), Ok(()));
    assert_eq!(receiver.poll(waker), Poll::Ready(Ok(123)));
    assert_eq!(receiver.poll(waker), Poll::Ready(Err(RecvError)));
}

#[test]
fn no_panics_when_polled_after_completion() {
    let (sender, mut receiver) = channel();
    let waker = Waker::noop();

    assert_eq!(receiver.poll(waker), Poll::Pending);
    assert_eq!(sender.send(13), Ok(()));
    assert_eq!(receiver.poll(waker), Poll::Ready(Ok(13)));
    assert_eq!(receiver.poll(waker), Poll::Ready(Err(RecvError)));
}

#[test]
fn no_panics_when_polled_after_completion_times_two() {
    let (sender, mut receiver) = channel();
    let waker = Waker::noop();

    assert_eq!(receiver.poll(waker), Poll::Pending);
    assert_eq!(receiver.poll(waker), Poll::Pending);

    assert_eq!(sender.send(13), Ok(()));
    assert_eq!(receiver.poll(waker), Poll::Ready(Ok(13)));

    assert_eq!(receiver.poll(waker), Poll::Ready(Err(RecvError)));
    assert_eq!(receiver.poll(waker), Poll::Ready(Err(RecvError)));
}

#[test]
#[allow(clippy::bool_assert_comparison)]
fn send_and_try_recv() {
    let (sender, mut receiver) = channel();

    let (woken, waker) = flag();

    assert_eq!(receiver.poll(&waker), Poll::Pending);
    assert_eq!(woken.woken.load(SeqCst), false);
    assert_eq!(receiver.try_recv(), Err(TryRecvError::Empty));
    assert_eq!(woken.woken.load(SeqCst), false);
    assert_eq!(sender.send(37845), Ok(()));
    assert_eq!(woken.woken.load(SeqCst), true);
    assert_eq!(receiver.try_recv(), Ok(37845));
    assert_eq!(receiver.try_recv(), Err(TryRecvError::Disconnected));
    assert_eq!(receiver.poll(&waker), Poll::Ready(Err(RecvError)));
}

#[test]
fn try_recv_after_sender_closed_is_disconnected() {
    let (sender, mut receiver) = channel::<u8>();
    assert_eq!(receiver.try_recv(), Err(TryRecvError::Empty));
    sender.close();
    assert_eq!(receiver.try_recv(), Err(TryRecvError::Disconnected));
    assert_eq!(receiver.try_recv(), Err(TryRecvError::Disconnected));
    assert_eq!(receiver.poll(Waker::noop()), Poll::Ready(Err(RecvError)));
}

#[test]
fn poll_after_sender_closed_is_error() {
    let (sender, mut receiver) = channel::<u8>();
    sender.close();
    assert_eq!(receiver.poll(Waker::noop()), Poll::Ready(Err(RecvError)));
    assert_eq!(receiver.try_recv(), Err(TryRecvError::Disconnected));
}

#[test]
fn closing_sender_wakes_waiting_receiver() {
    let (sender, mut receiver) = channel::<String>();
    let (woken, waker) = flag();
    assert_eq!(receiver.poll(&waker), Poll::Pending);
    assert!(!woken.woken.load(SeqCst));
    sender.close();
    assert!(woken.woken.load(SeqCst));
    assert_eq!(receiver.poll(&waker), Poll::Ready(Err(RecvError)));
}

#[test]
fn value_survives_sender_and_waits_for_receiver() {
    let (sender, mut receiver) = channel();
    assert_eq!(sender.send(String::from("Max Mustermann")), Ok(()));
    assert_eq!(receiver.try_recv(), Ok(String::from("Max Mustermann")));
}

#[test]
fn send_hands_value_back_after_receiver_closed() {
    let (sender, receiver) = channel::<Vec<u32>>();
    receiver.close();
    assert_eq!(sender.send(vec![1, 2, 3]), Err(SendError(vec![1, 2, 3])));
}

#[test]
fn later_waker_replaces_earlier_one() {
    let (sender, mut receiver) = channel();
    let (first, first_waker) = flag();
    let (second, second_waker) = flag();
    assert_eq!(receiver.poll(&first_waker), Poll::Pending);
    assert_eq!(first.count.load(SeqCst), 0);
    assert_eq!(receiver.poll(&second_waker), Poll::Pending);
    // The replaced waker is woken once, as the original does.
    assert_eq!(first.count.load(SeqCst), 1);
    assert_eq!(second.count.load(SeqCst), 0);
    assert_eq!(sender.send(5), Ok(()));
    assert_eq!(second.count.load(SeqCst), 1);
    assert_eq!(first.count.load(SeqCst), 1);
    assert_eq!(receiver.poll(&second_waker), Poll::Ready(Ok(5)));
}

#[test]
fn same_waker_is_kept_without_waking() {
    let (sender, mut receiver) = channel();
    let (flag_one, waker) = flag();
    assert_eq!(receiver.poll(&waker), Poll::Pending);
    assert_eq!(receiver.poll(&waker), Poll::Pending);
    assert_eq!(flag_one.count.load(SeqCst), 0);
    assert_eq!(sender.send('x'), Ok(()));
    assert_eq!(flag_one.count.load(SeqCst), 1);
    assert_eq!(receiver.try_recv(), Ok('x'));
}

#[test]
fn closing_finished_receiver_is_harmless() {
    let (sender, mut receiver) = channel();
    assert_eq!(sender.send(1u64), Ok(()));
    assert_eq!(receiver.try_recv(), Ok(1));
    receiver.close();
}

#[test]
fn error_messages() {
    assert_eq!(SendError(3).to_string(), "sending on a closed channel");
    assert_eq!(RecvError.to_string(), "receiving on a closed channel");
    assert_eq!(TryRecvError::Empty.to_string(), "receiving on an empty channel");
    assert_eq!(TryRecvError::Disconnected.to_string(), "receiving on a closed channel");
    assert_eq!(RecvError::default(), RecvError);
}

#[test]
fn register_waker_keeps_stored_waker_of_same_task() {
    let (first, first_waker) = flag();
    let (_second, second_waker) = flag();
    let mut shared: Shared<u8> = Shared::new();
    assert!(shared.register_waker(true, &first_waker).is_none());
    assert!(shared.register_waker(true, &second_waker).is_none());
    // The first waker was kept: waking what is stored wakes the first task.
    shared.waker.take().unwrap().wake();
    assert_eq!(first.count.load(SeqCst), 1);
}

#[test]
fn register_waker_replaces_stored_waker_of_other_task() {
    let (first, first_waker) = flag();
    let (second, second_waker) = flag();
    let mut shared: Shared<u8> = Shared::new();
    assert!(shared.register_waker(false, &first_waker).is_none());
    let replaced = shared.register_waker(false, &second_waker).unwrap();
    replaced.wake();
    assert_eq!(first.count.load(SeqCst), 1);
    shared.waker.take().unwrap().wake();
    assert_eq!(second.count.load(SeqCst), 1);
}
