//! The end of a sender, in the order in which it has to happen.

use crate::kio::state::Counts;
use crate::locks::Unrestricted;
use vstd::prelude::*;
use vstd::rwlock::RwLock;

verus! {

/// A sender that has been counted out.
///
/// There is no other way to get one than to count, so whatever takes one happens after that.
pub struct Ended {
    last: bool,
    counts: Ghost<RwLock<Counts, Unrestricted>>,
}

impl Ended {
    /// Whether it was the last sender.
    pub closed spec fn last(self) -> bool {
        self.last
    }

    /// The lock around the counts it was counted out of.
    pub closed spec fn counts(self) -> RwLock<Counts, Unrestricted> {
        self.counts@
    }

    /// Count one sender less.
    pub fn count(counts: &RwLock<Counts, Unrestricted>) -> (ended: Ended)
        ensures
            ended.counts() == *counts,
            crate::kio::shared::sender_discounted(*counts, ended.last()),
    {
        let (mut held, handle) = counts.acquire_write();
        let ghost before = held;
        let last = held.remove_sender();
        handle.release_write(held);
        assert(crate::locks::taken(*counts, before, handle));
        assert(crate::locks::put_back(handle, held));
        Ended { last, counts: Ghost(*counts) }
    }

    /// Whether it was the last sender.
    pub fn is_last(&self) -> (last: bool)
        ensures
            last == self.last(),
    {
        self.last
    }
}

} // verus!
