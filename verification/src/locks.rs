//! What a handle does to the value behind a lock.
//!
//! Other handles may take the lock before and after, so what it holds at some time cannot be
//! told. What a handle does with it can: it took the lock, found a value there, and put back a
//! value that one step makes of it.
//!
//! These are stated over `call_ensures`, which by itself says that a result is a possible one of
//! a call with these arguments. `RwLock` promises nothing else from which it follows, so in
//! verified code the only proof of it is to have made the call.

use vstd::prelude::*;
use vstd::rwlock::{RwLock, RwLockPredicate, WriteHandle};

verus! {

/// The lock admits every value.
pub struct Unrestricted;

impl<V> RwLockPredicate<V> for Unrestricted {
    open spec fn inv(self, v: V) -> bool {
        true
    }
}

/// `lock` was made with `value` in it.
pub open spec fn made<V, P: RwLockPredicate<V>>(lock: RwLock<V, P>, value: V, pred: P) -> bool {
    call_ensures(RwLock::<V, P>::new, (value, Ghost(pred)), lock)
}

/// `lock` was taken with `value` in it, and is held by `handle`.
pub open spec fn taken<V, P: RwLockPredicate<V>>(
    lock: RwLock<V, P>,
    value: V,
    handle: WriteHandle<'_, V, P>,
) -> bool {
    &&& handle.rwlock() == lock
    &&& call_ensures(RwLock::<V, P>::acquire_write, (&lock,), (value, handle))
}

/// The lock that `handle` holds was released with `value` in it.
pub open spec fn put_back<V, P: RwLockPredicate<V>>(
    handle: WriteHandle<'_, V, P>,
    value: V,
) -> bool {
    call_ensures(WriteHandle::<'_, V, P>::release_write, (handle, value), ())
}

/// `lock` was taken, and the value found there was replaced by one that `step` makes of it.
pub open spec fn stepped<V, P: RwLockPredicate<V>>(
    lock: RwLock<V, P>,
    step: spec_fn(V, V) -> bool,
) -> bool {
    exists|before: V, after: V, handle: WriteHandle<'_, V, P>| #[trigger]
        taken(lock, before, handle) && #[trigger] put_back(handle, after) && step(before, after)
}

/// `lock` was taken, and the value found there, of which `seen` holds, was put back.
pub open spec fn looked<V, P: RwLockPredicate<V>>(
    lock: RwLock<V, P>,
    seen: spec_fn(V) -> bool,
) -> bool {
    stepped(lock, |before: V, after: V| after == before && seen(before))
}

/// A lock that was made, taken or put back was made, taken or released by the lock's own functions,
/// with that very value.
pub proof fn locks_are_used_by_their_own_functions<V, P: RwLockPredicate<V>>(
    lock: RwLock<V, P>,
    value: V,
    pred: P,
    handle: WriteHandle<'_, V, P>,
)
    ensures
        made(lock, value, pred) ==> call_ensures(RwLock::<V, P>::new, (value, Ghost(pred)), lock),
        taken(lock, value, handle) ==> handle.rwlock() == lock && call_ensures(
            RwLock::<V, P>::acquire_write,
            (&lock,),
            (value, handle),
        ),
        put_back(handle, value) ==> call_ensures(
            WriteHandle::<'_, V, P>::release_write,
            (handle, value),
            (),
        ),
{
}

/// A step takes the lock and releases it once, and what it puts back is related to what it found. A
/// look puts back what it found.
pub proof fn steps_put_back_what_they_made<V, P: RwLockPredicate<V>>(
    lock: RwLock<V, P>,
    step: spec_fn(V, V) -> bool,
    seen: spec_fn(V) -> bool,
)
    ensures
        stepped(lock, step) ==> exists|before: V, after: V, handle: WriteHandle<'_, V, P>| #[trigger]
            taken(lock, before, handle) && #[trigger] put_back(handle, after) && step(before, after),
        looked(lock, seen) ==> exists|value: V, handle: WriteHandle<'_, V, P>| #[trigger]
            taken(lock, value, handle) && put_back(handle, value) && seen(value),
{
}

} // verus!
