//! What holds of a channel, in terms of its handles, its value and those who wait.

use crate::kio::shared::{Channel, Guard, Mut, Receiver, Sender};
use crate::kio::state::{Counts, Parked, Poll, State};
use crate::kio::waiter::{find_slot, Ticket};
use crate::locks::Unrestricted;
use std::sync::Arc;
use std::task::Waker;
use vstd::prelude::*;
use vstd::rwlock::{RwLock, WriteHandle};

verus! {

/// Minting a handle adds one to its side and nothing to the other; ending one takes one away.
pub proof fn handles_count_one(counts: Counts)
    ensures
        counts.producers < usize::MAX ==> counts.sender_added().producers == counts.producers + 1,
        counts.sender_added().consumers == counts.consumers,
        counts.consumers < usize::MAX ==> counts.receiver_added().consumers == counts.consumers + 1,
        counts.receiver_added().producers == counts.producers,
        counts.producers > 0 ==> counts.sender_removed().producers == counts.producers - 1,
        counts.sender_removed().consumers == counts.consumers,
        counts.consumers > 0 ==> counts.receiver_removed().consumers == counts.consumers - 1,
        counts.receiver_removed().producers == counts.producers,
{
}

/// What happens to the handles of a channel.
pub enum HandleEvent {
    SenderMinted,
    SenderEnded,
    ReceiverMinted,
    ReceiverEnded,
}

/// The counts after each of `events` in order.
pub open spec fn counts_after(start: Counts, events: Seq<HandleEvent>) -> Counts
    decreases events.len(),
{
    if events.len() == 0 {
        start
    } else {
        let before = counts_after(start, events.drop_last());
        match events.last() {
            HandleEvent::SenderMinted => before.sender_added(),
            HandleEvent::SenderEnded => before.sender_removed(),
            HandleEvent::ReceiverMinted => before.receiver_added(),
            HandleEvent::ReceiverEnded => before.receiver_removed(),
        }
    }
}

/// How many senders are live after `events`.
pub open spec fn live_senders(start: int, events: Seq<HandleEvent>) -> int
    decreases events.len(),
{
    if events.len() == 0 {
        start
    } else {
        live_senders(start, events.drop_last()) + match events.last() {
            HandleEvent::SenderMinted => 1int,
            HandleEvent::SenderEnded => -1int,
            _ => 0int,
        }
    }
}

/// How many receivers are live after `events`.
pub open spec fn live_receivers(start: int, events: Seq<HandleEvent>) -> int
    decreases events.len(),
{
    if events.len() == 0 {
        start
    } else {
        live_receivers(start, events.drop_last()) + match events.last() {
            HandleEvent::ReceiverMinted => 1int,
            HandleEvent::ReceiverEnded => -1int,
            _ => 0int,
        }
    }
}

/// No handle ends before it is minted, and the handles can be counted.
pub open spec fn countable(start: Counts, events: Seq<HandleEvent>) -> bool {
    forall|n: int|
        0 <= n <= events.len() ==> {
            &&& 0 <= live_senders(start.producers as int, #[trigger] events.take(n)) <= usize::MAX
            &&& 0 <= live_receivers(start.consumers as int, events.take(n)) <= usize::MAX
        }
}

/// After any history of minted and ended handles the counts are the numbers of live ones.
pub proof fn counts_are_live_handles(start: Counts, events: Seq<HandleEvent>)
    requires
        countable(start, events),
    ensures
        counts_after(start, events).producers == live_senders(start.producers as int, events),
        counts_after(start, events).consumers == live_receivers(start.consumers as int, events),
    decreases events.len(),
{
    assert(events.take(events.len() as int) =~= events);
    if events.len() > 0 {
        let earlier = events.drop_last();
        assert forall|n: int| 0 <= n <= earlier.len() implies {
            &&& 0 <= live_senders(start.producers as int, #[trigger] earlier.take(n)) <= usize::MAX
            &&& 0 <= live_receivers(start.consumers as int, earlier.take(n)) <= usize::MAX
        } by {
            assert(earlier.take(n) =~= events.take(n));
        }
        counts_are_live_handles(start, earlier);
        assert(events.take(earlier.len() as int) =~= earlier);
        assert(0 <= live_senders(start.producers as int, events.take(events.len() as int))
            <= usize::MAX);
        assert(0 <= live_senders(start.producers as int, events.take(earlier.len() as int))
            <= usize::MAX);
    }
}

/// A drain whose value is ready gets it. Else it waits exactly as long as a sender is live.
pub proof fn drains_wait_for_senders(ready: bool, senders: bool)
    ensures
        (crate::kio::state::drained(ready, senders) == Poll::<Option<()>>::Ready(Some(())))
            == ready,
        (crate::kio::state::drained(ready, senders) == Poll::<Option<()>>::Ready(None)) == (!ready
            && !senders),
        (crate::kio::state::drained(ready, senders) is Pending) == (!ready && senders),
        (crate::kio::state::closed(senders) is Pending) == senders,
{
}

/// Those who are parked are seen list by list.
pub proof fn everyone_parked_is_seen<T>(state: State<T>)
    ensures
        state.parked().value == state.waiters_value.tickets(),
        state.parked().closed == state.waiters_closed.tickets(),
        state.parked().consumer == state.waiters_consumer.tickets(),
        Parked::nobody().value.len() == 0,
        Parked::nobody().closed.len() == 0,
        Parked::nobody().consumer.len() == 0,
{
}

/// A registration puts the waiter into one slot and leaves every other slot, or adds a slot.
pub proof fn registrations_touch_one_slot(
    before: Seq<Arc<Ticket>>,
    entry: Arc<Ticket>,
    after: Seq<Arc<Ticket>>,
)
    requires
        crate::kio::waiter::registered(before, entry, after),
    ensures
        after.contains(entry),
        after == before.push(entry) || exists|i: int|
            0 <= i < before.len() && crate::kio::waiter::gone(before[i]) && after
                == #[trigger] before.update(i, entry),
{
    crate::kio::waiter::registered_is_listed(before, entry, after);
    let slot = choose|slot: Option<usize>|
        (slot matches Some(i) ==> i < before.len() && crate::kio::waiter::gone(before[i as int]))
            && after == #[trigger] crate::kio::waiter::placed(before, entry, slot);
    if let Some(i) = slot {
        assert(after == before.update(i as int, entry));
    }
}

/// A search finds only a slot whose waiter is gone, and the first of the two it comes to. It finds
/// none only if there are none or neither is gone. The next search goes on behind it.
pub proof fn searches_find_the_first_free_slot(
    len: usize,
    cursor: usize,
    first_gone: bool,
    second_gone: bool,
    search: (Option<usize>, usize),
)
    requires
        call_ensures(find_slot, (len, cursor, first_gone, second_gone), search),
    ensures
        ({
            let first = if cursor < len {
                cursor as int
            } else {
                0
            };
            let second = if first + 1 < len {
                first + 1
            } else {
                0
            };
            &&& search.0 is Some == (len > 0 && (first_gone || (len > 1 && second_gone)))
            &&& search.0 matches Some(i) ==> i < len && i == search.1 && i == if first_gone {
                first
            } else {
                second
            }
            &&& search.0 is None && len == 1 ==> search.1 == first + 1
            &&& search.0 is None && len > 1 ==> search.1 == second + 1
        }),
{
}

/// Everyone in a list that was woken had their waker called, unless their waiter was gone.
pub proof fn everyone_is_woken(tickets: Seq<Arc<Ticket>>, i: int)
    requires
        crate::kio::waiter::all_woken(tickets),
        0 <= i < tickets.len(),
    ensures
        call_ensures(Waker::wake_by_ref, (&*tickets[i].waker,), ()) || crate::kio::waiter::gone(
            tickets[i],
        ),
{
    assert(crate::kio::waiter::woken(tickets[i]));
}

/// Releasing a guard keeps its value. If it was mutated everyone who waits for the value is woken
/// and no longer parked, else everyone stays; those who wait for something else always do.
pub proof fn releases_wake_those_who_wait_for_the_value<T>(
    state: State<T>,
    modified: bool,
    handle: WriteHandle<'_, State<T>, Unrestricted>,
)
    requires
        crate::kio::shared::released(state, modified, handle),
    ensures
        modified ==> crate::kio::waiter::all_woken(state.waiters_value.tickets()),
        exists|after: State<T>| #[trigger]
            crate::locks::put_back(handle, after) && after.value == state.value
                && after.waiters_value.tickets() == if modified {
                Seq::empty()
            } else {
                state.waiters_value.tickets()
            } && after.waiters_closed.tickets() == state.waiters_closed.tickets()
                && after.waiters_consumer.tickets() == state.waiters_consumer.tickets(),
{
}

/// The end of the last sender keeps the value and wakes everyone who waits for the value or for the
/// close. Those who wait for the receivers stay.
pub proof fn closing_wakes_everyone_who_waits_for_senders<T>(
    lock: RwLock<State<T>, Unrestricted>,
)
    requires
        crate::kio::shared::closed_for(lock),
    ensures
        exists|
            before: State<T>,
            after: State<T>,
            handle: WriteHandle<'_, State<T>, Unrestricted>,
        |
            #[trigger] crate::locks::taken(lock, before, handle) && #[trigger] crate::locks::put_back(
                handle,
                after,
            ) && after.value == before.value && crate::kio::waiter::all_woken(
                before.waiters_value.tickets(),
            ) && crate::kio::waiter::all_woken(before.waiters_closed.tickets())
                && after.waiters_value.tickets().len() == 0
                && after.waiters_closed.tickets().len() == 0 && after.waiters_consumer.tickets()
                == before.waiters_consumer.tickets(),
{
}

/// A channel starts with its value, nobody waiting, one sender and no receiver.
pub proof fn channels_start_with_one_sender<T, C>(channel: Channel<T, C>, value: T)
    requires
        channel.seeded(value),
    ensures
        exists|state: State<T>| #[trigger]
            crate::locks::made(channel.lock(), state, Unrestricted) && state.value == value
                && state.waiters_value.tickets().len() == 0
                && state.waiters_closed.tickets().len() == 0
                && state.waiters_consumer.tickets().len() == 0,
        exists|counts: Counts| #[trigger]
            crate::locks::made(channel.counts(), counts, Unrestricted) && counts.producers == 1
                && counts.consumers == 0,
{
}

/// Cloning a sender counts one more sender and no receiver, on the same channel.
pub proof fn clones_are_counted<T, C>(
    sender: Sender<T, C>,
    copy: Sender<T, C>,
    receiver: Receiver<T, C>,
    other: Receiver<T, C>,
)
    requires
        call_ensures(<Sender<T, C> as Clone>::clone, (&sender,), copy),
        call_ensures(<Receiver<T, C> as Clone>::clone, (&receiver,), other),
    ensures
        copy.channel() == sender.channel(),
        exists|
            before: Counts,
            after: Counts,
            handle: WriteHandle<'_, Counts, Unrestricted>,
        |
            #[trigger] crate::locks::taken(sender.channel().counts(), before, handle)
                && #[trigger] crate::locks::put_back(handle, after) && (before.producers
                < usize::MAX ==> after.producers == before.producers + 1) && after.consumers
                == before.consumers,
        other.channel() == receiver.channel(),
        exists|
            before: Counts,
            after: Counts,
            handle: WriteHandle<'_, Counts, Unrestricted>,
        |
            #[trigger] crate::locks::taken(receiver.channel().counts(), before, handle)
                && #[trigger] crate::locks::put_back(handle, after) && (before.consumers
                < usize::MAX ==> after.consumers == before.consumers + 1) && after.producers
                == before.producers,
{
}

/// Minting the other side's handle counts one more of that side, on the same channel.
pub proof fn minted_handles_are_counted<T, C>(
    sender: Sender<T, C>,
    minted_receiver: Receiver<T, C>,
    receiver: Receiver<T, C>,
    minted_sender: Sender<T, C>,
)
    requires
        call_ensures(Sender::<T, C>::receiver, (&sender,), minted_receiver),
        call_ensures(Receiver::<T, C>::sender, (&receiver,), minted_sender),
    ensures
        minted_receiver.channel() == sender.channel(),
        exists|
            before: Counts,
            after: Counts,
            handle: WriteHandle<'_, Counts, Unrestricted>,
        |
            #[trigger] crate::locks::taken(sender.channel().counts(), before, handle)
                && #[trigger] crate::locks::put_back(handle, after) && (before.consumers
                < usize::MAX ==> after.consumers == before.consumers + 1) && after.producers
                == before.producers,
        minted_sender.channel() == receiver.channel(),
        exists|
            before: Counts,
            after: Counts,
            handle: WriteHandle<'_, Counts, Unrestricted>,
        |
            #[trigger] crate::locks::taken(receiver.channel().counts(), before, handle)
                && #[trigger] crate::locks::put_back(handle, after) && (before.producers
                < usize::MAX ==> after.producers == before.producers + 1) && after.consumers
                == before.consumers,
{
}

/// Unlocking a guard through which the value was borrowed mutably wakes everyone who waits for it.
pub proof fn unlocking_a_change_wakes_everyone<T>(changed: Mut<'_, T>, guarded: Guard<'_, T>)
    requires
        call_ensures(Mut::<'_, T>::unlock, (changed,), ()),
        call_ensures(Guard::<'_, T>::unlock, (guarded,), ()),
    ensures
        changed.modified() ==> crate::kio::waiter::all_woken(
            changed.state().waiters_value.tickets(),
        ),
        exists|after: State<T>| #[trigger]
            crate::locks::put_back(changed.handle(), after) && after.value == changed.value(),
        guarded.modified() ==> crate::kio::waiter::all_woken(
            guarded.state().waiters_value.tickets(),
        ),
        exists|after: State<T>| #[trigger]
            crate::locks::put_back(guarded.handle(), after) && after.value == guarded.value(),
{
}

/// A look at the counts tells what was there.
pub proof fn looks_tell_what_was_there(lock: RwLock<Counts, Unrestricted>, live: bool)
    ensures
        crate::kio::shared::senders_seen(lock, live) ==> exists|
            counts: Counts,
            handle: WriteHandle<'_, Counts, Unrestricted>,
        |
            #[trigger] crate::locks::taken(lock, counts, handle) && crate::locks::put_back(
                handle,
                counts,
            ) && live == (counts.producers > 0),
        crate::kio::shared::receivers_seen(lock, live) ==> exists|
            counts: Counts,
            handle: WriteHandle<'_, Counts, Unrestricted>,
        |
            #[trigger] crate::locks::taken(lock, counts, handle) && crate::locks::put_back(
                handle,
                counts,
            ) && live == (counts.consumers > 0),
{
}

/// The end of a handle takes one from its side, and is the last one exactly if none is left.
pub proof fn ends_take_one_away(lock: RwLock<Counts, Unrestricted>, last: bool)
    ensures
        crate::kio::shared::sender_discounted(lock, last) ==> exists|
            before: Counts,
            after: Counts,
            handle: WriteHandle<'_, Counts, Unrestricted>,
        |
            #[trigger] crate::locks::taken(lock, before, handle) && #[trigger] crate::locks::put_back(
                handle,
                after,
            ) && (before.producers > 0 ==> after.producers == before.producers - 1 && last == (
            after.producers == 0)) && after.consumers == before.consumers,
        crate::kio::shared::receiver_discounted(lock, last) ==> exists|
            before: Counts,
            after: Counts,
            handle: WriteHandle<'_, Counts, Unrestricted>,
        |
            #[trigger] crate::locks::taken(lock, before, handle) && #[trigger] crate::locks::put_back(
                handle,
                after,
            ) && (before.consumers > 0 ==> after.consumers == before.consumers - 1 && last == (
            after.consumers == 0)) && after.producers == before.producers,
{
}

/// Whoever parks is put into one list, and the value and the other lists stay.
pub proof fn parking_touches_one_list<T>(
    before: State<T>,
    entry: Arc<Ticket>,
    after: State<T>,
)
    ensures
        before.parked_for_value(entry, after) ==> after.value == before.value
            && crate::kio::waiter::registered(
            before.waiters_value.tickets(),
            entry,
            after.waiters_value.tickets(),
        ) && after.waiters_closed.tickets() == before.waiters_closed.tickets()
            && after.waiters_consumer.tickets() == before.waiters_consumer.tickets(),
        before.parked_for_close(entry, after) ==> after.value == before.value
            && crate::kio::waiter::registered(
            before.waiters_closed.tickets(),
            entry,
            after.waiters_closed.tickets(),
        ) && after.waiters_value.tickets() == before.waiters_value.tickets()
            && after.waiters_consumer.tickets() == before.waiters_consumer.tickets(),
{
}

/// A drain that is parked through a guard has its waiter in the list when the lock is released.
pub proof fn parked_drains_are_listed<T>(
    guard: crate::kio::shared::Ref<'_, T>,
    entry: Arc<Ticket>,
)
    requires
        crate::kio::shared::parked_for_value(guard, entry),
    ensures
        exists|after: State<T>| #[trigger]
            crate::locks::put_back(guard.handle(), after) && after.value == guard.state().value
                && after.waiters_value.tickets().contains(entry),
{
    let after = choose|after: State<T>|
        guard.state().parked_for_value(entry, after) && #[trigger] crate::locks::put_back(
            guard.handle(),
            after,
        );
    registrations_touch_one_slot(
        guard.state().waiters_value.tickets(),
        entry,
        after.waiters_value.tickets(),
    );
}

} // verus!
