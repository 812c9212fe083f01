//! A lock-guarded value that *both* sides mutate, with wake-ups and per-side liveness.
//!
//! Nothing flows across it: a [`Sender`] and a [`Receiver`] lock the same `T` and mutate it in
//! place. It is the primitive for a reverse queue: senders enqueue, and can dedup against what
//! is already there, while receivers drain, all under one lock.
//!
//! - A [`Sender`] enqueues and never waits for the other side: [`lock`](Sender::lock) hands back
//!   a guard that mutates unconditionally and reports whether a drainer exists
//!   ([`Guard::has_receivers`]).
//! - A [`Receiver`] drains and can wait: [`poll`](Receiver::poll) parks its waiter until the
//!   value is drainable, then hands back a guard. Once every sender is gone it resolves to
//!   `None` instead, though a receiver can bring the sender side back with
//!   [`Receiver::sender`].
//!
//! Receiver presence is the enqueue gate: with no receiver nobody will ever drain. Read through
//! the guard, that check is ordered against the last receiver's end, which takes the same lock
//! to run its cleanup, so the two cannot interleave and strand work.
//!
//! What a handle does under the lock is a step of [`State`] or of [`Counts`], and the contract
//! of that step says what happens to the value, to the waiters and to the counts. A handle's own
//! contract says which step it took, on what the lock held, and that the outcome was put back.
//!
//! Handles and guards end explicitly: [`Sender::close`], [`Receiver::close`], [`Guard::unlock`],
//! [`Mut::unlock`] and [`Ref::unlock`]. A guard that is dropped instead keeps the channel locked.

use crate::kio::ended::Ended;
use crate::kio::state::{
    closed_outcome, drain_outcome, Cleanup, Counts, NoCleanup, OnUnused, Parked, Poll, State,
};
use crate::kio::waiter::{Ticket, Waiter, WaiterList};
use crate::locks::Unrestricted;
use std::ops::{Deref, DerefMut};
use std::sync::Arc;
use vstd::prelude::*;
use vstd::rwlock::{RwLock, WriteHandle};

verus! {

/// What the handles of one channel share.
///
/// The counts have a lock of their own, held only for the length of one step, so that a handle
/// can be minted while a guard is held.
pub struct Channel<T, C> {
    state: RwLock<State<T>, Unrestricted>,
    counts: RwLock<Counts, Unrestricted>,
    cleanup: C,
}

/// `Arc::ptr_eq`: whether both point to one allocation. A channel owns its locks and no two
/// locks are the same, so two handles point to one allocation exactly when their channels are
/// equal.
#[verifier::external_body]
fn same_allocation<T, C>(a: &Arc<Channel<T, C>>, b: &Arc<Channel<T, C>>) -> (same: bool)
    ensures
        same == (*a == *b),
{
    Arc::ptr_eq(a, b)
}

impl<T, C> Channel<T, C> {
    /// What runs on the value when the last receiver is gone.
    pub closed spec fn cleanup(self) -> C {
        self.cleanup
    }

    /// The lock around the value.
    pub closed spec fn lock(self) -> RwLock<State<T>, Unrestricted> {
        self.state
    }

    /// The lock around the counts.
    pub closed spec fn counts(self) -> RwLock<Counts, Unrestricted> {
        self.counts
    }

    /// The channel was made with `value` in it, nobody waiting, one sender and no receiver.
    pub open spec fn seeded(self, value: T) -> bool {
        &&& exists|state: State<T>|
            state.value == value && state.parked() == Parked::nobody()
                && #[trigger] crate::locks::made(self.lock(), state, Unrestricted)
        &&& crate::locks::made(
            self.counts(),
            Counts { producers: 1, consumers: 0 },
            Unrestricted,
        )
    }

    fn new(value: T, cleanup: C) -> (channel: Self)
        ensures
            channel.cleanup() == cleanup,
            channel.seeded(value),
    {
        let state = State::new(value);
        let counts = Counts::new();
        let channel = Channel {
            state: RwLock::new(state, Ghost(Unrestricted)),
            counts: RwLock::new(counts, Ghost(Unrestricted)),
            cleanup,
        };
        assert(crate::locks::made(channel.lock(), state, Unrestricted));
        channel
    }

    fn add_sender(&self)
        ensures
            sender_counted(self.counts()),
    {
        let (mut counts, handle) = self.counts.acquire_write();
        let ghost before = counts;
        counts.add_sender();
        handle.release_write(counts);
        assert(crate::locks::taken(self.counts(), before, handle));
        assert(crate::locks::put_back(handle, counts));
    }

    fn add_receiver(&self)
        ensures
            receiver_counted(self.counts()),
    {
        let (mut counts, handle) = self.counts.acquire_write();
        let ghost before = counts;
        counts.add_receiver();
        handle.release_write(counts);
        assert(crate::locks::taken(self.counts(), before, handle));
        assert(crate::locks::put_back(handle, counts));
    }

    /// Wake everyone who waits for the value and everyone who waits for the close, which takes the
    /// last sender counted out.
    fn announce(&self, ended: &Ended)
        requires
            ended.last(),
            ended.counts() == self.counts(),
        ensures
            closed_for(self.lock()),
    {
        let (mut state, lock) = self.state.acquire_write();
        let ghost before = state;
        let (mut value, mut closed) = state.close();
        lock.release_write(state);
        value.wake();
        closed.wake();
        assert(crate::locks::taken(self.lock(), before, lock));
        assert(crate::locks::put_back(lock, state));
    }

    /// Count one receiver less, which takes a hold on the value's lock.
    fn remove_receiver(&self, held: &WriteHandle<'_, State<T>, Unrestricted>) -> (last: bool)
        requires
            held.rwlock() == self.lock(),
        ensures
            receiver_discounted(self.counts(), last),
    {
        let (mut counts, handle) = self.counts.acquire_write();
        let ghost before = counts;
        let last = counts.remove_receiver();
        handle.release_write(counts);
        assert(crate::locks::taken(self.counts(), before, handle));
        assert(crate::locks::put_back(handle, counts));
        last
    }

    /// Whether any sender is live, which takes a hold on the value's lock.
    fn has_senders(&self, held: &WriteHandle<'_, State<T>, Unrestricted>) -> (live: bool)
        requires
            held.rwlock() == self.lock(),
        ensures
            senders_seen(self.counts(), live),
    {
        let (counts, handle) = self.counts.acquire_write();
        let live = counts.has_senders();
        handle.release_write(counts);
        assert(crate::locks::taken(self.counts(), counts, handle));
        assert(crate::locks::put_back(handle, counts));
        live
    }
}

/// One more sender was counted.
pub open spec fn sender_counted(counts: RwLock<Counts, Unrestricted>) -> bool {
    crate::locks::stepped(counts, |before: Counts, after: Counts| after == before.sender_added())
}

/// One more receiver was counted.
pub open spec fn receiver_counted(counts: RwLock<Counts, Unrestricted>) -> bool {
    crate::locks::stepped(counts, |before: Counts, after: Counts| after == before.receiver_added())
}

/// One sender less was counted, the last one or not.
pub open spec fn sender_discounted(counts: RwLock<Counts, Unrestricted>, last: bool) -> bool {
    crate::locks::stepped(
        counts,
        |before: Counts, after: Counts|
            after == before.sender_removed() && last == (before.producers <= 1),
    )
}

/// One receiver less was counted, the last one or not.
pub open spec fn receiver_discounted(counts: RwLock<Counts, Unrestricted>, last: bool) -> bool {
    crate::locks::stepped(
        counts,
        |before: Counts, after: Counts|
            after == before.receiver_removed() && last == (before.consumers <= 1),
    )
}

/// The counts were looked at, and there was a sender or not.
pub open spec fn senders_seen(counts: RwLock<Counts, Unrestricted>, live: bool) -> bool {
    crate::locks::looked(counts, |seen: Counts| live == (seen.producers > 0))
}

/// One receiver less was counted while `handle` held the value's lock, the last one or not.
pub closed spec fn discounted_under<T, C>(
    channel: Channel<T, C>,
    handle: WriteHandle<'_, State<T>, Unrestricted>,
    last: bool,
) -> bool {
    call_ensures(Channel::<T, C>::remove_receiver, (&channel, &handle), last)
}

/// The counts were looked at while `handle` held the value's lock, and there was a sender or not.
pub closed spec fn senders_seen_under<T, C>(
    channel: Channel<T, C>,
    handle: WriteHandle<'_, State<T>, Unrestricted>,
    live: bool,
) -> bool {
    call_ensures(Channel::<T, C>::has_senders, (&channel, &handle), live)
}

/// The counts were looked at, and there was a receiver or not.
pub open spec fn receivers_seen(counts: RwLock<Counts, Unrestricted>, live: bool) -> bool {
    crate::locks::looked(counts, |seen: Counts| live == (seen.consumers > 0))
}

/// The enqueue side of a channel.
///
/// Counted: cloning mints another sender, and [`close`](Self::close) ends one. While no sender
/// remains a [`Receiver`]'s drain resolves to `None`.
pub struct Sender<T, C = NoCleanup> {
    channel: Arc<Channel<T, C>>,
}

impl<T: Default> Default for Sender<T, NoCleanup> {
    fn default() -> (sender: Self)
        ensures
            sender.channel().cleanup() == NoCleanup,
            exists|value: T| #[trigger]
                call_ensures(T::default, (), value) && sender.channel().seeded(value),
    {
        Sender::new(T::default())
    }
}

impl<T> Sender<T, NoCleanup> {
    /// Create a channel seeded with `value`, with no receivers yet and no cleanup.
    pub fn new(value: T) -> (sender: Self)
        ensures
            sender.channel().cleanup() == NoCleanup,
            sender.channel().seeded(value),
    {
        Sender::build(value, NoCleanup)
    }
}

impl<T, F: Fn(&mut T)> Sender<T, OnUnused<T, F>> {
    /// Like [`new`](Sender::new), but runs `on_unused` on the value when the last [`Receiver`]
    /// ends, under the lock. Use it to reject queued work that nobody will ever drain.
    pub fn with_cleanup(value: T, on_unused: F) -> (sender: Self)
        requires
            forall|v: &mut T| #[trigger] on_unused.requires((v,)),
        ensures
            sender.channel().cleanup().hook() == on_unused,
            sender.channel().seeded(value),
    {
        Sender::build(value, OnUnused::new(on_unused))
    }
}

impl<T, C> Sender<T, C> {
    /// The channel this handle is on.
    pub closed spec fn channel(self) -> Channel<T, C> {
        *self.channel
    }

    fn build(value: T, cleanup: C) -> (sender: Self)
        ensures
            sender.channel().cleanup() == cleanup,
            sender.channel().seeded(value),
    {
        Sender { channel: Arc::new(Channel::new(value, cleanup)) }
    }

    /// Mint a [`Receiver`] that drains this channel.
    pub fn receiver(&self) -> (receiver: Receiver<T, C>)
        ensures
            receiver.channel() == self.channel(),
            receiver_counted(self.channel().counts()),
    {
        self.channel.add_receiver();
        Receiver { channel: self.channel.clone() }
    }

    /// Lock the value for mutation.
    ///
    /// Unconditional: gate enqueue paths on [`Guard::has_receivers`]. A mutation through the
    /// guard wakes a waiting receiver when the guard is released.
    pub fn lock(&self) -> (guard: Guard<'_, T>)
        ensures
            crate::locks::taken(self.channel().lock(), guard.state(), guard.handle()),
            guard.counts() == self.channel().counts(),
            !guard.modified(),
    {
        let (state, lock) = self.channel.state.acquire_write();
        assert(crate::locks::taken(self.channel().lock(), state, lock));
        Guard { inner: Mut { state, lock, modified: false }, counts: &self.channel.counts }
    }

    /// Lock the value for reading, without waking anyone.
    pub fn read(&self) -> (guard: Ref<'_, T>)
        ensures
            crate::locks::taken(self.channel().lock(), guard.state(), guard.handle()),
    {
        let (state, lock) = self.channel.state.acquire_write();
        assert(crate::locks::taken(self.channel().lock(), state, lock));
        Ref { state, lock }
    }

    /// Whether both handles are on the same channel.
    pub fn same_channel(&self, other: &Sender<T, C>) -> (same: bool)
        ensures
            same == (self.channel() == other.channel()),
    {
        same_allocation(&self.channel, &other.channel)
    }

    /// End this sender. The last one wakes every parked drain, which then observes that no
    /// sender is left and resolves to `None`, and everyone who waits for the close. The count goes
    /// down first, so whoever is woken finds it down.
    pub fn close(self)
        ensures
            exists|ended: Ended| #[trigger]
                counted_out(self.channel().counts(), ended) && sender_discounted(
                    self.channel().counts(),
                    ended.last(),
                ) && (ended.last() ==> announced_after(self.channel(), ended) && closed_for(
                    self.channel().lock(),
                )),
    {
        let ended = Ended::count(&self.channel.counts);
        assert(counted_out(self.channel().counts(), ended));
        if ended.is_last() {
            self.channel.announce(&ended);
        }
    }
}

/// `ended` came of counting a sender out.
pub open spec fn counted_out(counts: RwLock<Counts, Unrestricted>, ended: Ended) -> bool {
    call_ensures(Ended::count, (&counts,), ended)
}

/// The end of the last sender was announced after it was counted out as `ended`.
pub closed spec fn announced_after<T, C>(channel: Channel<T, C>, ended: Ended) -> bool {
    call_ensures(Channel::<T, C>::announce, (&channel, &ended), ())
}

/// The last sender's end was announced: everyone who waited for the value and everyone who waited
/// for the close was woken, and the value stayed.
pub open spec fn closed_for<T>(lock: RwLock<State<T>, Unrestricted>) -> bool {
    crate::locks::stepped(
        lock,
        |before: State<T>, after: State<T>|
            {
                let (parked, value, closed) = before.parked().after_close();
                &&& before.reparked(parked, after)
                &&& crate::kio::waiter::all_woken(value)
                &&& crate::kio::waiter::all_woken(closed)
            },
    )
}

impl<T, C> Clone for Sender<T, C> {
    fn clone(&self) -> (sender: Self)
        ensures
            sender.channel() == self.channel(),
            sender_counted(self.channel().counts()),
    {
        self.channel.add_sender();
        Sender { channel: self.channel.clone() }
    }
}

/// A mutable guard over a channel's value.
///
/// Dereferences to the value. Release it with [`unlock`](Mut::unlock), which wakes those who
/// wait for the value if it was borrowed mutably through the guard.
#[must_use]
pub struct Mut<'a, T> {
    state: State<T>,
    lock: WriteHandle<'a, State<T>, Unrestricted>,
    modified: bool,
}

impl<'a, T> Mut<'a, T> {
    /// What was under the lock, with the value as the guard leaves it.
    pub closed spec fn state(self) -> State<T> {
        self.state
    }

    /// The guarded value.
    pub open spec fn value(self) -> T {
        self.state().value
    }

    /// Whether the value was borrowed mutably through this guard.
    pub closed spec fn modified(self) -> bool {
        self.modified
    }

    /// The hold on the lock.
    pub closed spec fn handle(self) -> WriteHandle<'a, State<T>, Unrestricted> {
        self.lock
    }

    /// Release the lock, then wake those who wait for the value if it was mutated.
    pub fn unlock(self)
        ensures
            released(self.state(), self.modified(), self.handle()),
    {
        let mut state = self.state;
        let lock = self.lock;
        let mut woken = state.publish(self.modified);
        lock.release_write(state);
        woken.wake();
        assert(crate::locks::put_back(self.handle(), state));
    }
}

impl<'a, T> Deref for Mut<'a, T> {
    type Target = T;

    fn deref(&self) -> (value: &T)
        ensures
            *value == self.value(),
    {
        &self.state.value
    }
}

impl<'a, T> DerefMut for Mut<'a, T> {
    fn deref_mut(&mut self) -> (value: &mut T)
        ensures
            *value == old(self).value(),
            final(self).state() == (State { value: *final(value), ..old(self).state() }),
            final(self).modified(),
            final(self).handle() == old(self).handle(),
    {
        self.modified = true;
        &mut self.state.value
    }
}

/// The lock was released with `state` in it, and if the value was mutated those who waited for it
/// were handed over and woken.
pub open spec fn released<T>(
    state: State<T>,
    modified: bool,
    handle: WriteHandle<'_, State<T>, Unrestricted>,
) -> bool {
    let (parked, woken) = state.parked().after_release(modified);
    &&& exists|after: State<T>|
        state.reparked(parked, after) && #[trigger] crate::locks::put_back(handle, after)
    &&& crate::kio::waiter::all_woken(woken)
}

/// A read-only guard over a channel's value.
///
/// Dereferences to the value. Releasing it wakes nobody.
#[must_use]
pub struct Ref<'a, T> {
    state: State<T>,
    lock: WriteHandle<'a, State<T>, Unrestricted>,
}

impl<'a, T> Ref<'a, T> {
    /// What was under the lock.
    pub closed spec fn state(self) -> State<T> {
        self.state
    }

    /// The guarded value.
    pub open spec fn value(self) -> T {
        self.state().value
    }

    /// The hold on the lock.
    pub closed spec fn handle(self) -> WriteHandle<'a, State<T>, Unrestricted> {
        self.lock
    }

    /// Release the lock, with everything under it as it was.
    pub fn unlock(self)
        ensures
            crate::locks::put_back(self.handle(), self.state()),
    {
        self.lock.release_write(self.state);
    }
}

impl<'a, T> Deref for Ref<'a, T> {
    type Target = T;

    fn deref(&self) -> (value: &T)
        ensures
            *value == self.value(),
    {
        &self.state.value
    }
}

/// A mutable guard over a [`Sender`]'s value, with access to receiver presence.
///
/// Dereferences to the value. Release it with [`unlock`](Self::unlock).
#[must_use]
pub struct Guard<'a, T> {
    inner: Mut<'a, T>,
    counts: &'a RwLock<Counts, Unrestricted>,
}

impl<'a, T> Guard<'a, T> {
    /// What was under the lock, with the value as the guard leaves it.
    pub closed spec fn state(self) -> State<T> {
        self.inner.state()
    }

    /// The guarded value.
    pub open spec fn value(self) -> T {
        self.state().value
    }

    /// Whether the value was borrowed mutably through this guard.
    pub closed spec fn modified(self) -> bool {
        self.inner.modified()
    }

    /// The hold on the lock.
    pub closed spec fn handle(self) -> WriteHandle<'a, State<T>, Unrestricted> {
        self.inner.handle()
    }

    /// The lock around the counts.
    pub closed spec fn counts(self) -> RwLock<Counts, Unrestricted> {
        *self.counts
    }

    /// Whether any [`Receiver`] is currently live.
    ///
    /// Gate a queue enqueue on this: with no receiver, nobody will ever drain it. Read while the
    /// lock is held, it is ordered against the end of the last receiver, which takes the lock to
    /// run its cleanup.
    pub fn has_receivers(&self) -> (live: bool)
        ensures
            receivers_seen(self.counts(), live),
    {
        let (counts, handle) = self.counts.acquire_write();
        let live = counts.has_receivers();
        handle.release_write(counts);
        assert(crate::locks::taken(self.counts(), counts, handle));
        assert(crate::locks::put_back(handle, counts));
        live
    }

    /// Release the lock, then wake those who wait for the value if it was mutated.
    pub fn unlock(self)
        ensures
            released(self.state(), self.modified(), self.handle()),
    {
        self.inner.unlock()
    }
}

impl<'a, T> Deref for Guard<'a, T> {
    type Target = T;

    fn deref(&self) -> (value: &T)
        ensures
            *value == self.value(),
    {
        self.inner.deref()
    }
}

impl<'a, T> DerefMut for Guard<'a, T> {
    fn deref_mut(&mut self) -> (value: &mut T)
        ensures
            *value == old(self).value(),
            final(self).state() == (State { value: *final(value), ..old(self).state() }),
            final(self).modified(),
            final(self).handle() == old(self).handle(),
            final(self).counts() == old(self).counts(),
    {
        self.inner.deref_mut()
    }
}

/// The drain side of a channel.
///
/// Counted, so several drainers can share one queue. Minted by [`Sender::receiver`], ended by
/// [`close`](Self::close).
pub struct Receiver<T, C = NoCleanup> {
    channel: Arc<Channel<T, C>>,
}

impl<T, C> Receiver<T, C> {
    /// The channel this handle is on.
    pub closed spec fn channel(self) -> Channel<T, C> {
        *self.channel
    }

    /// Mint a [`Sender`] onto the same channel.
    pub fn sender(&self) -> (sender: Sender<T, C>)
        ensures
            sender.channel() == self.channel(),
            sender_counted(self.channel().counts()),
    {
        self.channel.add_sender();
        Sender { channel: self.channel.clone() }
    }

    /// Poll a predicate; once it holds, hand back a mutable guard to drain the value.
    ///
    /// `f` only sees a [`Ref`], so it cannot mark the value as mutated. Returns `Ready(None)`
    /// once every [`Sender`] is gone and `f` is still pending. Parks `waiter` while pending.
    pub fn poll<F>(&self, waiter: &Waiter, f: F) -> (outcome: Poll<Option<Mut<'_, T>>>) where
        F: FnOnce(&Ref<'_, T>) -> Poll<()>,

        requires
            forall|guard: &Ref<'_, T>| #[trigger] f.requires((guard,)),
        ensures
            exists|guard: &Ref<'_, T>|
                #![trigger crate::locks::taken(
                    self.channel().lock(),
                    guard.state(),
                    guard.handle(),
                )]
                {
                    &&& crate::locks::taken(self.channel().lock(), guard.state(), guard.handle())
                    &&& match outcome {
                        Poll::Ready(Some(m)) => {
                            &&& f.ensures((guard,), Poll::Ready(()))
                            &&& m.state() == guard.state()
                            &&& m.handle() == guard.handle()
                            &&& !m.modified()
                        },
                        Poll::Ready(None) => {
                            &&& f.ensures((guard,), Poll::Pending)
                            &&& senders_seen(self.channel().counts(), false)
                            &&& senders_seen_under(self.channel(), guard.handle(), false)
                            &&& crate::locks::put_back(guard.handle(), guard.state())
                                || parked_for_value(*guard, waiter.ticket())
                        },
                        Poll::Pending => {
                            &&& f.ensures((guard,), Poll::Pending)
                            &&& senders_seen(self.channel().counts(), true)
                            &&& senders_seen_under(self.channel(), guard.handle(), true)
                            &&& parked_for_value(*guard, waiter.ticket())
                        },
                    }
                },
    {
        let (state, lock) = self.channel.state.acquire_write();
        let guard = Ref { state, lock };
        assert(crate::locks::taken(self.channel().lock(), guard.state(), guard.handle()));
        let ready = match f(&guard) {
            Poll::Ready(unit) => {
                assert(unit == ());
                true
            },
            Poll::Pending => false,
        };
        let ghost seen = guard;
        let Ref { state, lock } = guard;
        let mut state = state;
        if ready {
            return Poll::Ready(Some(Mut { state, lock, modified: false }));
        }
        let senders = self.channel.has_senders(&lock);
        let outcome = state.drain(waiter, false, senders);
        let outcome = match outcome {
            Poll::Ready(_) => outcome,
            // The last sender may have gone since the first look.
            Poll::Pending => drain_outcome(false, self.channel.has_senders(&lock)),
        };
        lock.release_write(state);
        assert(crate::locks::put_back(seen.handle(), state));
        match outcome {
            Poll::Ready(_) => Poll::Ready(None),
            Poll::Pending => Poll::Pending,
        }
    }

    /// Lock the value for reading, without waking anyone.
    pub fn read(&self) -> (guard: Ref<'_, T>)
        ensures
            crate::locks::taken(self.channel().lock(), guard.state(), guard.handle()),
    {
        let (state, lock) = self.channel.state.acquire_write();
        assert(crate::locks::taken(self.channel().lock(), state, lock));
        Ref { state, lock }
    }

    /// Poll for every [`Sender`] to be gone. Parks `waiter` while one is left.
    pub fn poll_closed(&self, waiter: &Waiter) -> (outcome: Poll<()>)
        ensures
            senders_seen(self.channel().counts(), outcome is Pending),
            exists|
                before: State<T>,
                after: State<T>,
                handle: WriteHandle<'_, State<T>, Unrestricted>,
            |
                {
                    &&& #[trigger] crate::locks::taken(self.channel().lock(), before, handle)
                    &&& senders_seen_under(self.channel(), handle, outcome is Pending)
                    &&& before.parked_for_close(waiter.ticket(), after) || (outcome is Ready
                        && after == before)
                    &&& #[trigger] crate::locks::put_back(handle, after)
                },
    {
        let (mut state, lock) = self.channel.state.acquire_write();
        let ghost before = state;
        let senders = self.channel.has_senders(&lock);
        let outcome = state.watch_closed(waiter, senders);
        let outcome = match outcome {
            Poll::Ready(_) => outcome,
            // The last sender may have gone since the first look.
            Poll::Pending => closed_outcome(self.channel.has_senders(&lock)),
        };
        lock.release_write(state);
        assert(crate::locks::taken(self.channel().lock(), before, lock));
        assert(crate::locks::put_back(lock, state));
        outcome
    }

    /// Whether both handles are on the same channel.
    pub fn same_channel(&self, other: &Receiver<T, C>) -> (same: bool)
        ensures
            same == (self.channel() == other.channel()),
    {
        same_allocation(&self.channel, &other.channel)
    }
}

impl<T, C: Cleanup<T>> Receiver<T, C> {
    /// End this receiver. The count goes down under the lock, so the last receiver's cleanup is
    /// atomic with the count reaching zero, and an enqueue that read
    /// [`has_receivers`](Guard::has_receivers) under the same lock cannot slip in afterwards.
    pub fn close(self)
        ensures
            exists|
                last: bool,
                state: &mut State<T>,
                handle: WriteHandle<'_, State<T>, Unrestricted>,
                woken: WaiterList,
            |
                #![trigger
                    crate::locks::put_back(handle, *final(state)),
                    call_ensures(
                        State::<T>::retire::<C>,
                        (state, last, &self.channel().cleanup()),
                        woken,
                    )]
                {
                    &&& crate::locks::taken(self.channel().lock(), *state, handle)
                    &&& receiver_discounted(self.channel().counts(), last)
                    &&& discounted_under(self.channel(), handle, last)
                    &&& call_ensures(
                        State::<T>::retire::<C>,
                        (state, last, &self.channel().cleanup()),
                        woken,
                    )
                    &&& crate::locks::put_back(handle, *final(state))
                    &&& crate::kio::waiter::all_woken(woken.tickets())
                },
    {
        assert(self.channel().cleanup() == self.channel.cleanup);
        let (mut state, lock) = self.channel.state.acquire_write();
        assert(crate::locks::taken(self.channel().lock(), state, lock));
        let last = self.channel.remove_receiver(&lock);
        let mut woken = state.retire(last, &self.channel.cleanup);
        lock.release_write(state);
        assert(crate::locks::put_back(lock, state));
        woken.wake();
    }
}

/// The lock was released with what the guard saw and `entry` parked until the value changes.
pub open spec fn parked_for_value<T>(guard: Ref<'_, T>, entry: Arc<Ticket>) -> bool {
    exists|after: State<T>|
        guard.state().parked_for_value(entry, after) && #[trigger] crate::locks::put_back(
            guard.handle(),
            after,
        )
}

impl<T, C> Clone for Receiver<T, C> {
    fn clone(&self) -> (receiver: Self)
        ensures
            receiver.channel() == self.channel(),
            receiver_counted(self.channel().counts()),
    {
        self.channel.add_receiver();
        Receiver { channel: self.channel.clone() }
    }
}

/// What [`Sender::same_channel`] answers is an equivalence.
pub proof fn same_channel_is_an_equivalence<T, C>(
    a: Sender<T, C>,
    b: Sender<T, C>,
    c: Sender<T, C>,
    aa: bool,
    ab: bool,
    ba: bool,
    bc: bool,
    ac: bool,
)
    requires
        call_ensures(Sender::<T, C>::same_channel, (&a, &a), aa),
        call_ensures(Sender::<T, C>::same_channel, (&a, &b), ab),
        call_ensures(Sender::<T, C>::same_channel, (&b, &a), ba),
        call_ensures(Sender::<T, C>::same_channel, (&b, &c), bc),
        call_ensures(Sender::<T, C>::same_channel, (&a, &c), ac),
    ensures
        aa,
        ab == ba,
        ab && bc ==> ac,
{
}

/// [`Sender::same_channel`] is true of a sender and one that was minted through the other side.
pub proof fn minted_handles_are_on_the_same_channel<T, C>(
    a: Sender<T, C>,
    receiver: Receiver<T, C>,
    b: Sender<T, C>,
    same: bool,
)
    requires
        call_ensures(Sender::<T, C>::receiver, (&a,), receiver),
        call_ensures(Receiver::<T, C>::sender, (&receiver,), b),
        call_ensures(Sender::<T, C>::same_channel, (&a, &b), same),
    ensures
        same,
{
}

/// A guard that was borrowed mutably wakes a drain that is parked when it is released.
pub proof fn mutation_wakes_a_parked_drain<T>(
    before: State<T>,
    entry: Arc<Ticket>,
    parked: State<T>,
    left: State<T>,
    handle: WriteHandle<'_, State<T>, Unrestricted>,
)
    requires
        before.parked_for_value(entry, parked),
        left.parked() == parked.parked(),
        released(left, true, handle),
    ensures
        crate::kio::waiter::woken(entry),
{
    crate::kio::state::parked_drain_is_woken(before.parked(), entry, parked.parked());
}

} // verus!
