//! The value a channel guards, its waiters and its handle counts, with one function for each
//! step that a handle takes while it holds the lock.

use crate::kio::waiter::{Ticket, Waiter, WaiterList};
use std::marker::PhantomData;
use std::sync::Arc;
use vstd::prelude::*;

verus! {

/// Whether something is available yet.
pub enum Poll<T> {
    Ready(T),
    Pending,
}

/// What runs on the value when the last receiver is gone.
pub trait Cleanup<T> {
    fn run(&self, value: &mut T);
}

/// No cleanup: the value stays as it is.
pub struct NoCleanup;

impl<T> Cleanup<T> for NoCleanup {
    fn run(&self, value: &mut T)
        ensures
            *final(value) == *old(value),
    {
    }
}

/// A cleanup that calls `hook`, which accepts every value.
pub struct OnUnused<T, F: Fn(&mut T)> {
    hook: F,
    value: PhantomData<T>,
}

impl<T, F: Fn(&mut T)> OnUnused<T, F> {
    #[verifier::type_invariant]
    spec fn accepts_every_value(self) -> bool {
        forall|value: &mut T| #[trigger] self.hook.requires((value,))
    }

    pub closed spec fn hook(self) -> F {
        self.hook
    }

    pub fn new(hook: F) -> (cleanup: Self)
        requires
            forall|value: &mut T| #[trigger] hook.requires((value,)),
        ensures
            cleanup.hook() == hook,
    {
        OnUnused { hook, value: PhantomData }
    }
}

impl<T, F: Fn(&mut T)> Cleanup<T> for OnUnused<T, F> {
    fn run(&self, value: &mut T)
        ensures
            exists|v: &mut T|
                #![trigger self.hook().ensures((v,), ())]
                *v == *old(value) && *final(v) == *final(value) && self.hook().ensures((v,), ()),
    {
        proof {
            use_type_invariant(self);
            assert(self.hook() == self.hook);
        }
        (self.hook)(value)
    }
}

/// `n + 1`, wrapping around at the end of the range.
pub open spec fn one_more(n: usize) -> usize {
    if n == usize::MAX {
        0
    } else {
        (n + 1) as usize
    }
}

/// `n - 1`, wrapping around at the start of the range.
pub open spec fn one_less(n: usize) -> usize {
    if n == 0 {
        usize::MAX
    } else {
        (n - 1) as usize
    }
}

/// How many senders and receivers a channel has.
pub struct Counts {
    pub producers: usize,
    pub consumers: usize,
}

impl Counts {
    /// The counts with one more sender.
    pub open spec fn sender_added(self) -> Self {
        Counts { producers: one_more(self.producers), ..self }
    }

    /// The counts with one more receiver.
    pub open spec fn receiver_added(self) -> Self {
        Counts { consumers: one_more(self.consumers), ..self }
    }

    /// The counts with one sender less.
    pub open spec fn sender_removed(self) -> Self {
        Counts { producers: one_less(self.producers), ..self }
    }

    /// The counts with one receiver less.
    pub open spec fn receiver_removed(self) -> Self {
        Counts { consumers: one_less(self.consumers), ..self }
    }

    /// One sender, the one that creates the channel, and no receivers.
    pub fn new() -> (counts: Self)
        ensures
            counts == (Counts { producers: 1, consumers: 0 }),
    {
        Counts { producers: 1, consumers: 0 }
    }

    /// Count one more sender.
    pub fn add_sender(&mut self)
        ensures
            *final(self) == old(self).sender_added(),
            old(self).producers < usize::MAX ==> final(self).producers == old(self).producers + 1,
            final(self).consumers == old(self).consumers,
    {
        self.producers = self.producers.wrapping_add(1);
    }

    /// Count one more receiver.
    pub fn add_receiver(&mut self)
        ensures
            *final(self) == old(self).receiver_added(),
            old(self).consumers < usize::MAX ==> final(self).consumers == old(self).consumers + 1,
            final(self).producers == old(self).producers,
    {
        self.consumers = self.consumers.wrapping_add(1);
    }

    /// Count one sender less, and tell whether that was the last one.
    pub fn remove_sender(&mut self) -> (last: bool)
        ensures
            *final(self) == old(self).sender_removed(),
            old(self).producers > 0 ==> final(self).producers == old(self).producers - 1,
            final(self).consumers == old(self).consumers,
            last == (old(self).producers <= 1),
    {
        let prev: usize = self.producers;
        self.producers = prev.wrapping_sub(1);
        !(prev > 1)
    }

    /// Count one receiver less, and tell whether that was the last one.
    pub fn remove_receiver(&mut self) -> (last: bool)
        ensures
            *final(self) == old(self).receiver_removed(),
            old(self).consumers > 0 ==> final(self).consumers == old(self).consumers - 1,
            final(self).producers == old(self).producers,
            last == (old(self).consumers <= 1),
    {
        let prev: usize = self.consumers;
        self.consumers = prev.wrapping_sub(1);
        !(prev > 1)
    }

    /// Whether any sender is live.
    pub fn has_senders(&self) -> (live: bool)
        ensures
            live == (self.producers > 0),
    {
        self.producers > 0
    }

    /// Whether any receiver is live.
    pub fn has_receivers(&self) -> (live: bool)
        ensures
            live == (self.consumers > 0),
    {
        self.consumers > 0
    }
}

/// What a drain resolves to: the guard once the value is ready, nothing once every sender is
/// gone, and otherwise not yet.
pub open spec fn drained(ready: bool, senders: bool) -> Poll<Option<()>> {
    if ready {
        Poll::Ready(Some(()))
    } else if !senders {
        Poll::Ready(None)
    } else {
        Poll::Pending
    }
}

/// Decide what a drain resolves to.
pub fn drain_outcome(ready: bool, senders: bool) -> (outcome: Poll<Option<()>>)
    ensures
        outcome == drained(ready, senders),
        ready ==> outcome == Poll::<Option<()>>::Ready(Some(())),
        !ready && !senders ==> outcome == Poll::<Option<()>>::Ready(None),
        !ready && senders ==> outcome is Pending,
{
    if ready {
        Poll::Ready(Some(()))
    } else if !senders {
        Poll::Ready(None)
    } else {
        Poll::Pending
    }
}

/// What waiting for the senders to go resolves to.
pub open spec fn closed(senders: bool) -> Poll<()> {
    if senders {
        Poll::Pending
    } else {
        Poll::Ready(())
    }
}

/// Decide what waiting for the senders to go resolves to.
pub fn closed_outcome(senders: bool) -> (outcome: Poll<()>)
    ensures
        outcome == closed(senders),
        outcome is Pending == senders,
{
    if senders {
        Poll::Pending
    } else {
        Poll::Ready(())
    }
}

/// Everyone parked on a channel, by what they wait for.
pub struct Parked {
    /// Waiting for the value to change.
    pub value: Seq<Arc<Ticket>>,
    /// Waiting for the last sender to go.
    pub closed: Seq<Arc<Ticket>>,
    /// Waiting for the number of receivers to change.
    pub consumer: Seq<Arc<Ticket>>,
}

impl Parked {
    /// Nobody is parked.
    pub open spec fn nobody() -> Self {
        Parked { value: Seq::empty(), closed: Seq::empty(), consumer: Seq::empty() }
    }

    /// Who stays parked once a guard is released, and who is handed over to be woken.
    pub open spec fn after_release(self, modified: bool) -> (Self, Seq<Arc<Ticket>>) {
        if modified {
            (Parked { value: Seq::empty(), ..self }, self.value)
        } else {
            (self, Seq::empty())
        }
    }

    /// Who stays parked once the last sender is gone, and who is handed over to be woken: those
    /// who wait for the value, and those who wait for the close.
    pub open spec fn after_close(self) -> (Self, Seq<Arc<Ticket>>, Seq<Arc<Ticket>>) {
        (Parked { value: Seq::empty(), closed: Seq::empty(), ..self }, self.value, self.closed)
    }

    /// Who stays parked once a receiver is gone, and who is handed over to be woken.
    pub open spec fn after_retire(self, last: bool) -> (Self, Seq<Arc<Ticket>>) {
        if last {
            (Parked { consumer: Seq::empty(), ..self }, self.consumer)
        } else {
            (self, Seq::empty())
        }
    }

    /// `entry` was parked until the value changes, and nothing else happened.
    pub open spec fn parks_for_value(self, entry: Arc<Ticket>, after: Self) -> bool {
        &&& crate::kio::waiter::registered(self.value, entry, after.value)
        &&& after.closed == self.closed
        &&& after.consumer == self.consumer
    }

    /// `entry` was parked until the last sender goes, and nothing else happened.
    pub open spec fn parks_for_close(self, entry: Arc<Ticket>, after: Self) -> bool {
        &&& after.value == self.value
        &&& crate::kio::waiter::registered(self.closed, entry, after.closed)
        &&& after.consumer == self.consumer
    }
}

/// Everything under a channel's lock.
///
/// Waiters are kept apart by what they wait for, so that an event wakes only those it concerns.
pub struct State<T> {
    pub value: T,
    /// Waiting for the value to change.
    pub waiters_value: WaiterList,
    /// Waiting for the last sender to go.
    pub waiters_closed: WaiterList,
    /// Waiting for the number of receivers to change.
    pub waiters_consumer: WaiterList,
}

impl<T> State<T> {
    /// Everyone parked on the channel.
    pub open spec fn parked(self) -> Parked {
        Parked {
            value: self.waiters_value.tickets(),
            closed: self.waiters_closed.tickets(),
            consumer: self.waiters_consumer.tickets(),
        }
    }

    /// The value stayed, and those who are parked became `parked`.
    pub open spec fn reparked(self, parked: Parked, after: Self) -> bool {
        after.value == self.value && after.parked() == parked
    }

    /// `entry` was parked until the value changes, and nothing else happened.
    pub open spec fn parked_for_value(self, entry: Arc<Ticket>, after: Self) -> bool {
        after.value == self.value && self.parked().parks_for_value(entry, after.parked())
    }

    /// `entry` was parked until the last sender goes, and nothing else happened.
    pub open spec fn parked_for_close(self, entry: Arc<Ticket>, after: Self) -> bool {
        after.value == self.value && self.parked().parks_for_close(entry, after.parked())
    }

    /// A value with nobody waiting.
    pub fn new(value: T) -> (state: Self)
        ensures
            state.value == value,
            state.parked() == Parked::nobody(),
    {
        State {
            value,
            waiters_value: WaiterList::new(),
            waiters_closed: WaiterList::new(),
            waiters_consumer: WaiterList::new(),
        }
    }

    /// A drain's step: resolve, or park `waiter` until the value changes.
    pub fn drain(&mut self, waiter: &Waiter, ready: bool, senders: bool) -> (outcome: Poll<
        Option<()>,
    >)
        ensures
            outcome == drained(ready, senders),
            final(self).value == old(self).value,
            outcome is Ready ==> *final(self) == *old(self),
            outcome is Pending ==> old(self).parked().parks_for_value(
                waiter.ticket(),
                final(self).parked(),
            ),
            outcome is Pending ==> crate::kio::waiter::registered(
                old(self).waiters_value.tickets(),
                waiter.ticket(),
                final(self).waiters_value.tickets(),
            ),
            final(self).waiters_closed == old(self).waiters_closed,
            final(self).waiters_consumer == old(self).waiters_consumer,
    {
        let outcome = drain_outcome(ready, senders);
        match outcome {
            Poll::Ready(_) => {},
            Poll::Pending => {
                waiter.register(&mut self.waiters_value);
            },
        }
        outcome
    }

    /// The step of waiting for the senders to go: resolve, or park `waiter` until the last one
    /// does.
    pub fn watch_closed(&mut self, waiter: &Waiter, senders: bool) -> (outcome: Poll<()>)
        ensures
            outcome == closed(senders),
            final(self).value == old(self).value,
            outcome is Ready ==> *final(self) == *old(self),
            outcome is Pending ==> old(self).parked().parks_for_close(
                waiter.ticket(),
                final(self).parked(),
            ),
            outcome is Pending ==> crate::kio::waiter::registered(
                old(self).waiters_closed.tickets(),
                waiter.ticket(),
                final(self).waiters_closed.tickets(),
            ),
            final(self).waiters_value == old(self).waiters_value,
            final(self).waiters_consumer == old(self).waiters_consumer,
    {
        let outcome = closed_outcome(senders);
        match outcome {
            Poll::Ready(_) => {},
            Poll::Pending => {
                waiter.register(&mut self.waiters_closed);
            },
        }
        outcome
    }

    /// The step of a guard's release: after a mutation, hand over everyone who waits for the
    /// value.
    pub fn publish(&mut self, modified: bool) -> (woken: WaiterList)
        ensures
            final(self).value == old(self).value,
            (final(self).parked(), woken.tickets()) == old(self).parked().after_release(modified),
            modified ==> woken.tickets() == old(self).waiters_value.tickets()
                && final(self).waiters_value.tickets().len() == 0,
            !modified ==> woken.tickets().len() == 0 && *final(self) == *old(self),
            final(self).waiters_closed == old(self).waiters_closed,
            final(self).waiters_consumer == old(self).waiters_consumer,
    {
        if modified {
            self.waiters_value.take()
        } else {
            WaiterList::new()
        }
    }

    /// The step of the last sender's end: hand over everyone who waits for the value and
    /// everyone who waits for the close.
    pub fn close(&mut self) -> (woken: (WaiterList, WaiterList))
        ensures
            final(self).value == old(self).value,
            (final(self).parked(), woken.0.tickets(), woken.1.tickets()) == old(
                self,
            ).parked().after_close(),
            woken.0.tickets() == old(self).waiters_value.tickets(),
            woken.1.tickets() == old(self).waiters_closed.tickets(),
            final(self).waiters_value.tickets().len() == 0,
            final(self).waiters_closed.tickets().len() == 0,
            final(self).waiters_consumer == old(self).waiters_consumer,
    {
        let value = self.waiters_value.take();
        let closed = self.waiters_closed.take();
        (value, closed)
    }

    /// The step of a receiver's end. A receiver that is not the last changes nothing. The last
    /// one runs the cleanup on the value and hands over everyone who waits for the receivers.
    pub fn retire<C: Cleanup<T>>(&mut self, last: bool, cleanup: &C) -> (woken: WaiterList)
        ensures
            (final(self).parked(), woken.tickets()) == old(self).parked().after_retire(last),
            !last ==> final(self).value == old(self).value,
            !last ==> *final(self) == *old(self) && woken.tickets().len() == 0,
            last ==> woken.tickets() == old(self).waiters_consumer.tickets()
                && final(self).waiters_consumer.tickets().len() == 0,
            final(self).waiters_value == old(self).waiters_value,
            final(self).waiters_closed == old(self).waiters_closed,
            last ==> exists|v: &mut T|
                #![trigger call_ensures(C::run, (cleanup, v), ())]
                *v == old(self).value && *final(v) == final(self).value && call_ensures(
                    C::run,
                    (cleanup, v),
                    (),
                ),
    {
        if !last {
            return WaiterList::new();
        }
        cleanup.run(&mut self.value);
        self.waiters_consumer.take()
    }
}

/// A count after a history of handles minted (`true`) and ended (`false`).
pub open spec fn counted(start: usize, history: Seq<bool>) -> usize
    decreases history.len(),
{
    if history.len() == 0 {
        start
    } else {
        let before = counted(start, history.drop_last());
        if history.last() {
            one_more(before)
        } else {
            one_less(before)
        }
    }
}

/// How many handles of a history are live, counting from `start`.
pub open spec fn live(start: int, history: Seq<bool>) -> int
    decreases history.len(),
{
    if history.len() == 0 {
        start
    } else {
        live(start, history.drop_last()) + if history.last() {
            1int
        } else {
            -1int
        }
    }
}

/// A history in which no handle ends before it is minted, and the handles can be counted.
pub open spec fn possible(start: int, history: Seq<bool>) -> bool {
    forall|n: int|
        0 <= n <= history.len() ==> 0 <= #[trigger] live(start, history.take(n)) <= usize::MAX
}

/// The count of either side is the number of its live handles, after any history. So a side is
/// seen as present exactly while one of its handles is live, also after it was gone and came
/// back.
pub proof fn count_is_live_handles(start: usize, history: Seq<bool>)
    requires
        possible(start as int, history),
    ensures
        counted(start, history) == live(start as int, history),
    decreases history.len(),
{
    if history.len() > 0 {
        let earlier = history.drop_last();
        assert forall|n: int| 0 <= n <= earlier.len() implies 0 <= #[trigger] live(
            start as int,
            earlier.take(n),
        ) <= usize::MAX by {
            assert(earlier.take(n) == history.take(n));
        }
        count_is_live_handles(start, earlier);
        assert(history.take(history.len() as int) == history);
        assert(0 <= live(start as int, history) <= usize::MAX);
        assert(0 <= live(start as int, earlier) <= usize::MAX) by {
            assert(earlier.take(earlier.len() as int) == earlier);
        }
    }
}

/// Ending a handle undoes minting it, and is the end of the last one exactly if there was none
/// before.
pub proof fn ending_undoes_minting(n: usize)
    requires
        n < usize::MAX,
    ensures
        one_more(n) > 0,
        one_less(one_more(n)) == n,
        (one_more(n) <= 1) == (n == 0),
{
}

/// A drain that parks is woken by the next mutation, and by the end of the last sender.
pub proof fn parked_drain_is_woken(before: Parked, entry: Arc<Ticket>, parked: Parked)
    requires
        before.parks_for_value(entry, parked),
    ensures
        crate::kio::waiter::all_woken(parked.after_release(true).1) ==> crate::kio::waiter::woken(
            entry,
        ),
        crate::kio::waiter::all_woken(parked.after_close().1) ==> crate::kio::waiter::woken(entry),
{
    crate::kio::waiter::registered_is_listed(before.value, entry, parked.value);
}

/// A waiter for the close is woken by the end of the last sender, and stays parked through every
/// mutation and through the end of every receiver.
pub proof fn parked_close_is_woken(
    before: Parked,
    entry: Arc<Ticket>,
    parked: Parked,
    modified: bool,
    last: bool,
)
    requires
        before.parks_for_close(entry, parked),
    ensures
        crate::kio::waiter::all_woken(parked.after_close().2) ==> crate::kio::waiter::woken(entry),
        parked.after_release(modified).0.closed == parked.closed,
        parked.after_retire(last).0.closed == parked.closed,
{
    crate::kio::waiter::registered_is_listed(before.closed, entry, parked.closed);
}

/// A guard that was only read wakes nobody and leaves everyone parked.
pub proof fn reading_wakes_nobody(parked: Parked)
    ensures
        parked.after_release(false) == (parked, Seq::<Arc<Ticket>>::empty()),
{
}

/// A drain with nothing to hand back resolves to `None` exactly when every sender is gone, and
/// no longer does once a sender is minted again.
pub proof fn drain_closes_with_the_senders(producers: usize)
    requires
        producers < usize::MAX,
    ensures
        (drained(false, producers > 0) == Poll::<Option<()>>::Ready(None)) == (producers == 0),
        drained(false, one_more(producers) > 0) is Pending,
        drained(true, producers > 0) == Poll::<Option<()>>::Ready(Some(())),
{
}

/// What happens to the value and to the number of receivers while one handle holds the lock.
pub enum Turn<T> {
    /// A guard is released with this value in it. A sender's guard enqueues only if it sees a
    /// receiver, and a receiver's guard is one.
    Release(T),
    /// A receiver is minted.
    Mint,
    /// A receiver ends. If it is the last one, the cleanup leaves this value.
    End(T),
}

/// The value and the number of receivers after one turn.
pub open spec fn turned<T>(before: (T, usize), turn: Turn<T>) -> (T, usize) {
    match turn {
        Turn::Release(value) => if before.1 > 0 {
            (value, before.1)
        } else {
            before
        },
        Turn::Mint => (before.0, one_more(before.1)),
        Turn::End(cleaned) => if before.1 <= 1 {
            (cleaned, one_less(before.1))
        } else {
            (before.0, one_less(before.1))
        },
    }
}

/// The value and the number of receivers after each of `turns` in order.
pub open spec fn played<T>(start: (T, usize), turns: Seq<Turn<T>>) -> (T, usize)
    decreases turns.len(),
{
    if turns.len() == 0 {
        start
    } else {
        turned(played(start, turns.drop_last()), turns.last())
    }
}

/// No receiver ends without being live, and the receivers can be counted.
pub open spec fn countable<T>(start: (T, usize), turns: Seq<Turn<T>>) -> bool {
    forall|n: int|
        #![trigger turns[n]]
        0 <= n < turns.len() ==> {
            &&& turns[n] is End ==> played(start, turns.take(n)).1 > 0
            &&& turns[n] is Mint ==> played(start, turns.take(n)).1 < usize::MAX
        }
}

/// Work is never stranded: where every cleanup leaves the value empty, the value is empty
/// whenever no receiver is live, whatever order the handles take the lock in.
pub proof fn enqueued_work_is_never_stranded<T>(
    start: (T, usize),
    turns: Seq<Turn<T>>,
    empty: spec_fn(T) -> bool,
)
    requires
        start.1 == 0 ==> empty(start.0),
        countable(start, turns),
        forall|n: int|
            0 <= n < turns.len() ==> (#[trigger] turns[n] matches Turn::End(value) ==> empty(value)),
    ensures
        played(start, turns).1 == 0 ==> empty(played(start, turns).0),
    decreases turns.len(),
{
    if turns.len() > 0 {
        let earlier = turns.drop_last();
        assert forall|n: int| #![trigger earlier[n]] 0 <= n < earlier.len() implies {
            &&& earlier[n] is End ==> played(start, earlier.take(n)).1 > 0
            &&& earlier[n] is Mint ==> played(start, earlier.take(n)).1 < usize::MAX
        } by {
            assert(earlier[n] == turns[n]);
            assert(earlier.take(n) =~= turns.take(n));
        }
        assert forall|n: int| 0 <= n < earlier.len() implies (#[trigger] earlier[n] matches Turn::End(
            value,
        ) ==> empty(value)) by {
            assert(earlier[n] == turns[n]);
        }
        enqueued_work_is_never_stranded(start, earlier, empty);
        let last = turns[turns.len() - 1];
        assert(turns.take(turns.len() - 1) =~= earlier);
        assert(last is Mint ==> played(start, earlier).1 < usize::MAX);
    }
}

/// Minting a receiver is a turn.
pub proof fn minting_is_a_turn<T>(value: T, before: Counts)
    ensures
        (value, before.receiver_added().consumers) == turned(
            (value, before.consumers),
            Turn::<T>::Mint,
        ),
{
}

/// A sender's guard that enqueues only if it sees a receiver takes a turn.
pub proof fn gated_enqueue_is_a_turn<T>(value: T, left: T, before: Counts, live: bool)
    requires
        live == (before.consumers > 0),
        !live ==> left == value,
    ensures
        (left, before.consumers) == turned((value, before.consumers), Turn::Release(left)),
{
}

/// The end of a receiver, which changes the value only if it is the last one, is a turn.
pub proof fn receiver_end_is_a_turn<T>(value: T, left: T, before: Counts, last: bool)
    requires
        last == (before.consumers <= 1),
        !last ==> left == value,
    ensures
        (left, before.receiver_removed().consumers) == turned(
            (value, before.consumers),
            Turn::End(left),
        ),
{
}

/// Who waits for a channel whose senders may go.
pub struct Waiting {
    pub producers: usize,
    /// How many ends of a last sender have still to be announced.
    pub pending: nat,
    /// Those parked, be it for the value or for the close.
    pub parked: Seq<Arc<Ticket>>,
}

/// What one handle does that matters to those who wait.
pub enum Move {
    /// A poll that sees a sender parks, and this is who is parked then. One that sees none
    /// resolves.
    Poll(Seq<Arc<Ticket>>),
    /// A sender is minted.
    Mint,
    /// A sender is counted out. If it is the last one, its end has to be announced.
    Leave,
    /// The end of a last sender is announced: everyone parked is handed over.
    Announce,
    /// Everyone parked is handed over for another reason.
    Wake,
}

impl Waiting {
    /// Who waits after one move.
    pub open spec fn moved(self, step: Move) -> Self {
        match step {
            Move::Poll(parked) => if self.producers > 0 {
                Waiting { parked, ..self }
            } else {
                self
            },
            Move::Mint => Waiting { producers: one_more(self.producers), ..self },
            Move::Leave => Waiting {
                producers: one_less(self.producers),
                pending: if self.producers <= 1 {
                    self.pending + 1
                } else {
                    self.pending
                },
                ..self
            },
            Move::Announce => if self.pending > 0 {
                Waiting { pending: (self.pending - 1) as nat, parked: Seq::empty(), ..self }
            } else {
                self
            },
            Move::Wake => Waiting { parked: Seq::empty(), ..self },
        }
    }

    /// Who waits after each of `steps` in order.
    pub open spec fn after(self, steps: Seq<Move>) -> Self
        decreases steps.len(),
    {
        if steps.len() == 0 {
            self
        } else {
            self.after(steps.drop_last()).moved(steps.last())
        }
    }

    /// No sender leaves without being live, and the senders can be counted.
    pub open spec fn plausible(self, steps: Seq<Move>) -> bool {
        forall|n: int|
            #![trigger steps[n]]
            0 <= n < steps.len() ==> {
                &&& steps[n] is Leave ==> self.after(steps.take(n)).producers > 0
                &&& steps[n] is Mint ==> self.after(steps.take(n)).producers < usize::MAX
            }
    }

    /// Nobody waits for senders of whom none is left, unless that has still to be announced.
    pub open spec fn sound(self) -> bool {
        self.producers == 0 && self.pending == 0 ==> self.parked.len() == 0
    }
}

/// Nobody waits forever: once every sender is gone and their end is announced, nobody is parked,
/// whatever order the handles take their steps in.
pub proof fn nobody_waits_forever(start: Waiting, steps: Seq<Move>)
    requires
        start.sound(),
        start.plausible(steps),
    ensures
        start.after(steps).sound(),
    decreases steps.len(),
{
    if steps.len() > 0 {
        let earlier = steps.drop_last();
        assert forall|n: int| #![trigger earlier[n]] 0 <= n < earlier.len() implies {
            &&& earlier[n] is Leave ==> start.after(earlier.take(n)).producers > 0
            &&& earlier[n] is Mint ==> start.after(earlier.take(n)).producers < usize::MAX
        } by {
            assert(earlier[n] == steps[n]);
            assert(earlier.take(n) =~= steps.take(n));
        }
        nobody_waits_forever(start, earlier);
        assert(steps.take(steps.len() - 1) =~= earlier);
        assert(steps[steps.len() - 1] == steps.last());
    }
}

/// A drain that parks only if it sees a sender, and one that waits for the close, make a move.
pub proof fn parking_is_a_move(before: Waiting, seen: Counts, parked: Seq<Arc<Ticket>>)
    requires
        seen.producers == before.producers,
    ensures
        drained(false, seen.producers > 0) is Pending ==> before.moved(Move::Poll(parked))
            == (Waiting { parked, ..before }),
        drained(false, seen.producers > 0) is Ready ==> before.moved(Move::Poll(parked)) == before,
        closed(seen.producers > 0) is Pending ==> before.moved(Move::Poll(parked)) == (Waiting {
            parked,
            ..before
        }),
        closed(seen.producers > 0) is Ready ==> before.moved(Move::Poll(parked)) == before,
{
}

/// Counting a sender out is a move, which leaves an announcement pending exactly if it was the
/// last one.
pub proof fn counting_out_is_a_move(before: Waiting, counts: Counts, last: bool)
    requires
        counts.producers == before.producers,
        last == (counts.producers <= 1),
    ensures
        before.moved(Move::Leave).producers == counts.sender_removed().producers,
        before.moved(Move::Leave).pending == before.pending + if last {
            1nat
        } else {
            0nat
        },
        before.moved(Move::Leave).parked == before.parked,
{
}

/// Announcing the end of a last sender is a move: it takes an announcement that is pending, and
/// leaves nobody parked for the value or for the close.
pub proof fn announcing_is_a_move(before: Waiting, parked: Parked)
    requires
        before.pending > 0,
        before.parked == parked.value + parked.closed,
    ensures
        before.moved(Move::Announce) == (Waiting {
            pending: (before.pending - 1) as nat,
            parked: parked.after_close().0.value + parked.after_close().0.closed,
            ..before
        }),
{
    assert(parked.after_close().0.value + parked.after_close().0.closed =~= Seq::empty());
}

} // verus!
