//! Task wakers parked on a channel.

use std::sync::Arc;
use std::task::Waker;
use vstd::prelude::*;

verus! {

/// `std::task::Waker`, carried as an opaque value.
#[verifier::external_type_specification]
#[verifier::external_body]
pub struct ExWaker(Waker);

/// `Waker::wake_by_ref` hands the task to its executor. Nothing about the channel changes, so
/// nothing is promised.
pub assume_specification[ Waker::wake_by_ref ](waker: &Waker);

/// Waking a `Waker` has no effect.
pub uninterp spec fn wakes_nobody(waker: Waker) -> bool;

/// `Waker::noop`: a waker that does nothing when woken.
#[verifier::external_body]
fn noop_waker() -> (waker: Waker)
    ensures
        wakes_nobody(waker),
{
    Waker::noop().clone()
}

/// `Arc::strong_count`: how many owners the waker has at this moment. Other threads may add or
/// drop owners at any time, so nothing is promised.
#[verifier::external_body]
fn owners(waker: &Arc<Waker>) -> usize {
    Arc::strong_count(waker)
}

/// What a [`WaiterList`] keeps of a waiter. However many lists keep it, it owns the waker once;
/// the waiter itself is the other owner.
pub struct Ticket {
    pub waker: Arc<Waker>,
}

/// The waiter of `ticket` was seen to be gone: its waker had no owner but the ticket.
pub closed spec fn gone(ticket: Arc<Ticket>) -> bool {
    exists|n: usize| n <= 1 && #[trigger] call_ensures(owners, (&ticket.waker,), n)
}

/// A waiter counts as gone only if the ticket was the only owner of the waker, or nobody was.
proof fn a_live_waiter_is_not_gone(ticket: Arc<Ticket>)
    requires
        forall|n: usize| #[trigger] call_ensures(owners, (&ticket.waker,), n) ==> n >= 2,
    ensures
        !gone(ticket),
{
}

/// The waker of `ticket` was woken, unless its waiter was seen to be gone. Nothing is promised of
/// `Waker::wake_by_ref` or of the count of owners, so the only proof of either is the call.
pub open spec fn woken(ticket: Arc<Ticket>) -> bool {
    call_ensures(Waker::wake_by_ref, (&*ticket.waker,), ()) || gone(ticket)
}

/// Each of `tickets` was woken, unless its waiter was seen to be gone.
pub open spec fn all_woken(tickets: Seq<Arc<Ticket>>) -> bool {
    forall|i: int| 0 <= i < tickets.len() ==> woken(#[trigger] tickets[i])
}

/// A task that can be parked in a [`WaiterList`] and woken later.
///
/// The waiter shares its ticket with every list it is registered in. Once the waiter is dropped
/// its slots are reclaimed by later registrations, and it is not woken any more.
pub struct Waiter {
    ticket: Arc<Ticket>,
    /// Owned for as long as the waiter lives, which is how its ticket tells.
    waker: Arc<Waker>,
}

impl Waiter {
    #[verifier::type_invariant]
    spec fn well_formed(self) -> bool {
        self.waker == self.ticket.waker
    }

    /// What a list keeps of this waiter.
    pub closed spec fn ticket(self) -> Arc<Ticket> {
        self.ticket
    }

    /// Create a waiter that wakes `waker`'s task.
    pub fn new(waker: Waker) -> (waiter: Self)
        ensures
            *waiter.ticket().waker == waker,
    {
        let waker = Arc::new(waker);
        Waiter { ticket: Arc::new(Ticket { waker: waker.clone() }), waker }
    }

    /// Create a waiter that wakes nobody.
    pub fn noop() -> (waiter: Self)
        ensures
            wakes_nobody(*waiter.ticket().waker),
    {
        Waiter::new(noop_waker())
    }

    /// The waker of the waiter's task.
    pub fn waker(&self) -> (waker: &Waker)
        ensures
            *waker == *self.ticket().waker,
    {
        proof {
            use_type_invariant(self);
        }
        &self.waker
    }

    /// Park this waiter in `list`.
    pub fn register(&self, list: &mut WaiterList)
        ensures
            registered(old(list).tickets(), self.ticket(), final(list).tickets()),
    {
        list.register(self)
    }
}

/// The list after `entry` is put in slot `slot`, or at the end when there is no slot to reuse.
pub open spec fn placed(
    list: Seq<Arc<Ticket>>,
    entry: Arc<Ticket>,
    slot: Option<usize>,
) -> Seq<Arc<Ticket>> {
    match slot {
        Some(i) => list.update(i as int, entry),
        None => list.push(entry),
    }
}

/// `after` is `before` with `entry` registered: in the slot of a waiter that is gone, or appended.
pub open spec fn registered(
    before: Seq<Arc<Ticket>>,
    entry: Arc<Ticket>,
    after: Seq<Arc<Ticket>>,
) -> bool {
    exists|slot: Option<usize>|
        (slot matches Some(i) ==> i < before.len() && gone(before[i as int])) && after
            == #[trigger] placed(
            before,
            entry,
            slot,
        )
}

/// A registered waiter is in the list.
pub proof fn registered_is_listed(
    before: Seq<Arc<Ticket>>,
    entry: Arc<Ticket>,
    after: Seq<Arc<Ticket>>,
)
    requires
        registered(before, entry, after),
    ensures
        after.contains(entry),
{
    let slot = choose|slot: Option<usize>|
        (slot matches Some(i) ==> i < before.len() && gone(before[i as int])) && after
            == #[trigger] placed(
            before,
            entry,
            slot,
        );
    match slot {
        Some(i) => {
            assert(after[i as int] == entry);
        },
        None => {
            assert(after[before.len() as int] == entry);
        },
    }
}

/// A registration takes no one's place but that of a waiter that is gone.
pub proof fn registering_keeps_the_others(
    before: Seq<Arc<Ticket>>,
    entry: Arc<Ticket>,
    after: Seq<Arc<Ticket>>,
    other: Arc<Ticket>,
)
    requires
        registered(before, entry, after),
        before.contains(other),
    ensures
        after.contains(other) || gone(other),
{
    let slot = choose|slot: Option<usize>|
        (slot matches Some(i) ==> i < before.len() && gone(before[i as int])) && after
            == #[trigger] placed(before, entry, slot);
    let j = choose|j: int| 0 <= j < before.len() && before[j] == other;
    match slot {
        Some(i) => if i as int != j {
            assert(after[j] == other);
        },
        None => {
            assert(after[j] == other);
        },
    }
}

/// A cursor that has run past the last of `len` slots goes back to the first.
pub open spec fn wrapped(cursor: int, len: int) -> int {
    if cursor >= len {
        0
    } else {
        cursor
    }
}

/// The slot that a search finds and where it leaves the cursor, among `len` slots from `cursor`
/// on, where the waiters of the first two slots it comes to are gone or not. It looks at no more
/// than two slots, and no slot twice.
pub open spec fn found(
    len: int,
    cursor: int,
    first_gone: bool,
    second_gone: bool,
) -> (Option<usize>, int) {
    let first = wrapped(cursor, len);
    let second = wrapped(first + 1, len);
    if len == 0 {
        (None, cursor)
    } else if first_gone {
        (Some(first as usize), first)
    } else if len == 1 {
        (None, first + 1)
    } else if second_gone {
        (Some(second as usize), second)
    } else {
        (None, second + 1)
    }
}

fn wrap(cursor: usize, len: usize) -> (slot: usize)
    ensures
        slot == wrapped(cursor as int, len as int),
{
    if cursor >= len {
        0
    } else {
        cursor
    }
}

/// Which slot to reuse, if any, and where the next search starts.
pub fn find_slot(len: usize, cursor: usize, first_gone: bool, second_gone: bool) -> (search: (
    Option<usize>,
    usize,
))
    ensures
        (search.0, search.1 as int) == found(len as int, cursor as int, first_gone, second_gone),
        search.0 matches Some(i) ==> i < len,
{
    if len == 0 {
        return (None, cursor);
    }
    let first: usize = wrap(cursor, len);
    if first_gone {
        return (Some(first), first);
    }
    if len == 1 {
        return (None, first + 1);
    }
    let second: usize = wrap(first + 1, len);
    if second_gone {
        return (Some(second), second);
    }
    (None, second + 1)
}

/// The tasks waiting for one kind of event.
pub struct WaiterList {
    entries: Vec<Arc<Ticket>>,
    /// Where the next search for a reusable slot starts.
    cursor: usize,
}

impl WaiterList {
    /// What is kept of each waiter, slot by slot.
    pub closed spec fn tickets(self) -> Seq<Arc<Ticket>> {
        self.entries@
    }

    /// Create an empty list.
    pub fn new() -> (list: Self)
        ensures
            list.tickets() == Seq::<Arc<Ticket>>::empty(),
    {
        WaiterList { entries: Vec::new(), cursor: 0 }
    }

    /// How many slots are in use.
    pub fn len(&self) -> (n: usize)
        ensures
            n == self.tickets().len(),
    {
        self.entries.len()
    }

    /// Where the next search for a reusable slot starts.
    pub closed spec fn cursor(self) -> int {
        self.cursor as int
    }

    /// Look at no more than two slots, from the cursor on, for one whose waiter is gone.
    fn reusable_slot(&mut self) -> (slot: Option<usize>)
        ensures
            final(self).tickets() == old(self).tickets(),
            slot matches Some(i) ==> i < old(self).tickets().len() && gone(
                old(self).tickets()[i as int],
            ),
            exists|first_gone: bool, second_gone: bool|
                (slot, final(self).cursor()) == #[trigger] found(
                    old(self).tickets().len() as int,
                    old(self).cursor(),
                    first_gone,
                    second_gone,
                ),
    {
        let len: usize = self.entries.len();
        let mut first_gone = false;
        let mut second_gone = false;
        if len > 0 {
            let first: usize = wrap(self.cursor, len);
            first_gone = owners(&self.entries[first].waker) <= 1;
            if !first_gone && len > 1 {
                let second: usize = wrap(first + 1, len);
                second_gone = owners(&self.entries[second].waker) <= 1;
            }
        }
        let (slot, cursor) = find_slot(len, self.cursor, first_gone, second_gone);
        self.cursor = cursor;
        assert((slot, self.cursor()) == found(
            old(self).tickets().len() as int,
            old(self).cursor(),
            first_gone,
            second_gone,
        ));
        slot
    }

    /// Put `waiter` in `slot`, or at the end when there is no slot to reuse.
    pub fn place(&mut self, waiter: &Waiter, slot: Option<usize>)
        requires
            slot matches Some(i) ==> i < old(self).tickets().len(),
        ensures
            final(self).tickets() == placed(old(self).tickets(), waiter.ticket(), slot),
    {
        let entry = waiter.ticket.clone();
        match slot {
            Some(i) => {
                self.entries.set(i, entry);
            },
            None => {
                self.entries.push(entry);
            },
        }
    }

    /// Register a waiter, reusing the slot of one that is gone where the search finds it.
    pub fn register(&mut self, waiter: &Waiter)
        ensures
            registered(old(self).tickets(), waiter.ticket(), final(self).tickets()),
    {
        let slot = self.reusable_slot();
        self.place(waiter, slot);
    }

    /// Move every entry into a list of its own, leaving this one empty.
    pub fn take(&mut self) -> (taken: Self)
        ensures
            taken.tickets() == old(self).tickets(),
            final(self).tickets() == Seq::<Arc<Ticket>>::empty(),
    {
        let mut taken = WaiterList::new();
        std::mem::swap(&mut taken, self);
        taken
    }

    /// Wake every waiter that still exists, emptying the list.
    pub fn wake(&mut self)
        ensures
            all_woken(old(self).tickets()),
            final(self).tickets() == Seq::<Arc<Ticket>>::empty(),
    {
        let mut i: usize = 0;
        while i < self.entries.len()
            invariant
                i <= self.entries@.len(),
                self.entries@ == old(self).entries@,
                forall|j: int| 0 <= j < i ==> woken(#[trigger] self.entries@[j]),
            decreases self.entries@.len() - i,
        {
            if owners(&self.entries[i].waker) > 1 {
                self.entries[i].waker.wake_by_ref();
            }
            i = i + 1;
        }
        self.entries.clear();
        self.cursor = 0;
    }
}

} // verus!
