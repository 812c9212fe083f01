use moq_media::kio::waiter::find_slot;
use moq_media::kio::{Poll, Receiver, Ref, Sender, Waiter, WaiterList};
use std::sync::atomic::{AtomicUsize, Ordering};
use std::sync::Arc;
use std::task::{Wake, Waker};

/// A waker that counts how many times it was woken.
struct CountWaker(AtomicUsize);

impl CountWaker {
    fn count(&self) -> usize {
        self.0.load(Ordering::SeqCst)
    }
}

impl Wake for CountWaker {
    fn wake(self: Arc<Self>) {
        self.0.fetch_add(1, Ordering::SeqCst);
    }

    fn wake_by_ref(self: &Arc<Self>) {
        self.0.fetch_add(1, Ordering::SeqCst);
    }
}

fn counting() -> (Arc<CountWaker>, Waiter) {
    let waker = Arc::new(CountWaker(AtomicUsize::new(0)));
    let waiter = Waiter::new(Waker::from(waker.clone()));
    (waker, waiter)
}

/// Ready once the queue has something to drain.
fn nonempty(queue: &Ref<'_, Vec<u32>>) -> Poll<()> {
    if queue.is_empty() {
        Poll::Pending
    } else {
        Poll::Ready(())
    }
}

fn enqueue<C>(sender: &Sender<Vec<u32>, C>, item: u32) {
    let mut guard = sender.lock();
    guard.push(item);
    guard.unlock();
}

fn has_receivers<C>(sender: &Sender<Vec<u32>, C>) -> bool {
    let guard = sender.lock();
    let live = guard.has_receivers();
    guard.unlock();
    live
}

fn queued<C>(sender: &Sender<Vec<u32>, C>) -> usize {
    let guard = sender.read();
    let len = guard.len();
    guard.unlock();
    len
}

#[test]
fn enqueue_then_drain() {
    let sender = Sender::<Vec<u32>>::default();
    let receiver = sender.receiver();
    let waiter = Waiter::noop();

    // Nothing queued yet.
    assert!(matches!(receiver.poll(&waiter, nonempty), Poll::Pending));

    // A sender enqueues.
    enqueue(&sender, 1);

    // The receiver drains it.
    let Poll::Ready(Some(mut guard)) = receiver.poll(&waiter, nonempty) else {
        panic!("expected a drainable guard");
    };
    assert_eq!(guard.pop(), Some(1));
    guard.unlock();
}

#[test]
fn has_receivers_tracks_receiver_presence() {
    let sender = Sender::<Vec<u32>>::default();
    // No receiver minted yet.
    assert!(!has_receivers(&sender));

    let receiver = sender.receiver();
    assert!(has_receivers(&sender));

    receiver.close();
    assert!(!has_receivers(&sender), "dropping the last receiver reverts to false");
}

#[test]
fn drain_closes_when_senders_gone() {
    let sender = Sender::<Vec<u32>>::default();
    let receiver = sender.receiver();
    let waiter = Waiter::noop();

    sender.close();

    // No senders left and nothing queued: the drain resolves to None rather than blocking
    // forever.
    assert!(matches!(receiver.poll(&waiter, nonempty), Poll::Ready(None)));
}

#[test]
fn wait_wakes_on_enqueue() {
    let sender = Sender::<Vec<u32>>::default();
    let receiver = sender.receiver();

    let (waker, waiter) = counting();
    assert!(
        matches!(receiver.poll(&waiter, nonempty), Poll::Pending),
        "pending until enqueue"
    );

    enqueue(&sender, 7);
    assert!(waker.count() >= 1, "enqueue should wake the drain");

    let Poll::Ready(Some(mut guard)) = receiver.poll(&waiter, nonempty) else {
        panic!("expected a drainable guard after enqueue");
    };
    assert_eq!(guard.pop(), Some(7));
    guard.unlock();
}

#[test]
fn cleanup_fires_on_last_receiver() {
    // The hook rejects whatever is queued so nobody waits on undrained work.
    let sender = Sender::with_cleanup(Vec::<u32>::new(), |queue: &mut Vec<u32>| queue.clear());
    let receiver = sender.receiver();
    let receiver2 = receiver.clone();

    enqueue(&sender, 1);
    enqueue(&sender, 2);

    // A non-last receiver ending leaves the queue alone.
    receiver2.close();
    assert_eq!(queued(&sender), 2);

    // The last receiver ending runs the cleanup under the lock.
    receiver.close();
    assert!(queued(&sender) == 0, "cleanup should have drained the queue");
}

#[test]
fn enqueue_gate_atomic_with_last_receiver_drop() {
    // The has_receivers check and the enqueue share one lock; the last-receiver cleanup takes
    // that same lock, so an item enqueued while a receiver still existed is rejected rather than
    // stranded.
    let sender = Sender::with_cleanup(Vec::<u32>::new(), |queue: &mut Vec<u32>| queue.clear());
    let receiver = sender.receiver();

    let mut guard = sender.lock();
    assert!(guard.has_receivers());
    guard.push(9);
    guard.unlock();

    receiver.close();
    assert!(queued(&sender) == 0, "the queued item should have been rejected");
}

#[test]
fn a_guard_that_only_reads_wakes_nobody() {
    let sender = Sender::<Vec<u32>>::default();
    let receiver = sender.receiver();
    let (waker, waiter) = counting();
    assert!(matches!(receiver.poll(&waiter, nonempty), Poll::Pending));

    let guard = sender.lock();
    assert!(guard.is_empty());
    guard.unlock();
    sender.read().unlock();
    receiver.read().unlock();
    assert_eq!(waker.count(), 0);

    // The waiter is still parked: a mutation wakes it, once.
    enqueue(&sender, 1);
    assert_eq!(waker.count(), 1);
    enqueue(&sender, 2);
    assert_eq!(waker.count(), 1);
}

#[test]
fn the_last_sender_wakes_drains_and_close_waiters() {
    let sender = Sender::<Vec<u32>>::default();
    let second = sender.clone();
    let receiver = sender.receiver();
    let (drain, drain_waiter) = counting();
    let (close, close_waiter) = counting();
    assert!(matches!(receiver.poll(&drain_waiter, nonempty), Poll::Pending));
    assert!(matches!(receiver.poll_closed(&close_waiter), Poll::Pending));

    sender.close();
    assert_eq!(drain.count(), 0);
    assert_eq!(close.count(), 0);

    second.close();
    assert_eq!(drain.count(), 1);
    assert_eq!(close.count(), 1);
    assert!(matches!(receiver.poll_closed(&close_waiter), Poll::Ready(())));
    assert!(matches!(receiver.poll(&drain_waiter, nonempty), Poll::Ready(None)));
}

#[test]
fn a_queued_item_is_drained_after_the_senders_are_gone() {
    let sender = Sender::new(vec![4u32]);
    let receiver = sender.receiver();
    sender.close();
    let waiter = Waiter::noop();
    let Poll::Ready(Some(mut guard)) = receiver.poll(&waiter, nonempty) else {
        panic!("expected a drainable guard");
    };
    assert_eq!(guard.pop(), Some(4));
    guard.unlock();
    assert!(matches!(receiver.poll(&waiter, nonempty), Poll::Ready(None)));
}

#[test]
fn a_receiver_brings_the_sender_side_back() {
    let sender = Sender::<Vec<u32>>::default();
    let receiver = sender.receiver();
    let waiter = Waiter::noop();
    sender.close();
    assert!(matches!(receiver.poll(&waiter, nonempty), Poll::Ready(None)));

    let sender = receiver.sender();
    assert!(matches!(receiver.poll(&waiter, nonempty), Poll::Pending));
    enqueue(&sender, 3);
    let Poll::Ready(Some(guard)) = receiver.poll(&waiter, nonempty) else {
        panic!("expected a drainable guard");
    };
    assert_eq!(*guard, vec![3]);
    guard.unlock();
}

#[test]
fn handles_know_their_channel() {
    let a = Sender::new(0u32);
    let b = Sender::new(0u32);
    assert!(a.same_channel(&a.clone()));
    assert!(!a.same_channel(&b));

    let ra: Receiver<u32> = a.receiver();
    let rb = b.receiver();
    assert!(ra.same_channel(&ra.clone()));
    assert!(!ra.same_channel(&rb));
    assert!(ra.sender().same_channel(&a));
    assert!(!rb.sender().same_channel(&a));
}

#[test]
fn handles_can_be_minted_under_a_guard() {
    let sender = Sender::<Vec<u32>>::default();
    let guard = sender.lock();
    assert!(!guard.has_receivers());
    let receiver = sender.receiver();
    assert!(guard.has_receivers());
    let second = receiver.sender();
    guard.unlock();
    assert!(second.same_channel(&sender));
}

#[test]
fn the_slot_of_a_dropped_waiter_is_reused() {
    let sender = Sender::<Vec<u32>>::default();
    let receiver = sender.receiver();
    let (gone, gone_waiter) = counting();
    assert!(matches!(receiver.poll(&gone_waiter, nonempty), Poll::Pending));
    drop(gone_waiter);

    let (live, live_waiter) = counting();
    assert!(matches!(receiver.poll(&live_waiter, nonempty), Poll::Pending));
    enqueue(&sender, 1);
    assert_eq!(gone.count(), 0);
    assert_eq!(live.count(), 1);
}

#[test]
fn searches_for_a_slot_look_at_two() {
    assert_eq!(find_slot(0, 3, true, true), (None, 3));
    assert_eq!(find_slot(4, 1, true, true), (Some(1), 1));
    assert_eq!(find_slot(4, 1, false, true), (Some(2), 2));
    assert_eq!(find_slot(4, 1, false, false), (None, 3));
    // The search goes around the end.
    assert_eq!(find_slot(4, 3, false, true), (Some(0), 0));
    assert_eq!(find_slot(4, 4, true, false), (Some(0), 0));
    // The only slot is looked at once.
    assert_eq!(find_slot(1, 0, false, true), (None, 1));
}

#[test]
fn a_waiter_in_several_lists_is_forgotten_once_dropped() {
    let woken = Arc::new(CountWaker(AtomicUsize::new(0)));
    let mut one = WaiterList::new();
    let mut two = WaiterList::new();
    let waiter = Waiter::new(Waker::from(woken.clone()));
    waiter.register(&mut one);
    waiter.register(&mut two);
    waiter.register(&mut two);
    assert_eq!((one.len(), two.len()), (1, 2));
    drop(waiter);

    // Its slots are reused, in each list.
    let other = Waiter::noop();
    other.register(&mut one);
    other.register(&mut two);
    assert_eq!((one.len(), two.len()), (1, 2));

    // What is left of it is not woken.
    one.wake();
    two.wake();
    assert_eq!(woken.count(), 0);
    assert_eq!((one.len(), two.len()), (0, 0));
}

#[test]
fn a_live_waiter_is_woken_once_per_registration() {
    let woken = Arc::new(CountWaker(AtomicUsize::new(0)));
    let mut list = WaiterList::new();
    let waiter = Waiter::new(Waker::from(woken.clone()));
    waiter.register(&mut list);
    waiter.register(&mut list);
    list.wake();
    assert_eq!(woken.count(), 2);
    list.wake();
    assert_eq!(woken.count(), 2);
}
