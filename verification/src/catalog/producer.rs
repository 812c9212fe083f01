//! The shared catalog of a broadcast.

use crate::catalog::clock::Clock;
use crate::catalog::publisher::{Publisher, PublisherView};
use crate::catalog::model::{Catalog, CatalogExt};
use crate::catalog::tracks::Reserved;
use crate::error::MuxError;
use crate::time::Timestamp;
use std::sync::Arc;
use vstd::prelude::*;
use vstd::rwlock::{RwLock, RwLockPredicate, WriteHandle};

verus! {

/// What the lock on a [`Publisher`] keeps: nothing is staged while no reservation is live.
pub struct Settled;

impl<E: CatalogExt> RwLockPredicate<Publisher<E>> for Settled {
    open spec fn inv(self, publisher: Publisher<E>) -> bool {
        publisher@.settled()
    }
}

/// A handle on the catalog of a broadcast.
///
/// Cheaply clonable: clones share one catalog and one clock. Each method is one step of the
/// shared [`Publisher`]; other handles may take steps before and after it.
pub struct Producer<E: CatalogExt = ()> {
    publisher: Arc<RwLock<Publisher<E>, Settled>>,
    clock: Clock,
}

impl<E: CatalogExt> Producer<E> {
    /// The lock around the catalog.
    pub closed spec fn publisher(self) -> RwLock<Publisher<E>, Settled> {
        *self.publisher
    }

    /// The clock of the broadcast.
    pub closed spec fn clock(self) -> Clock {
        self.clock
    }

    /// Share `catalog`. Its clock starts now.
    pub fn new(catalog: Catalog<E>) -> (producer: Self)
        ensures
            producer.clock().started(),
            exists|publisher: Publisher<E>|
                publisher@ == PublisherView::fresh(catalog@) && #[trigger] crate::locks::made(
                    producer.publisher(),
                    publisher,
                    Settled,
                ),
    {
        let publisher = Publisher::new(catalog);
        let producer = Producer {
            publisher: Arc::new(RwLock::new(publisher, Ghost(Settled))),
            clock: Clock::new(),
        };
        assert(crate::locks::made(producer.publisher(), publisher, Settled));
        producer
    }

    /// Withhold the catalog until the returned reservation, and every one made from it, ends.
    pub fn reserve(&self) -> (reserved: Reserved<E>)
        ensures
            reserved.catalog().publisher() == self.publisher(),
            reserved.catalog().clock() == self.clock(),
            reserved_once(self.publisher()),
    {
        Reserved::new(self.clone())
    }

    /// Change the catalog: [`Publisher::edit`].
    pub fn edit<F: FnOnce(&mut Catalog<E>)>(&self, f: F)
        requires
            forall|c: &mut Catalog<E>| #[trigger] f.requires((c,)),
        ensures
            exists|publisher: &mut Publisher<E>, handle: WriteHandle<'_, Publisher<E>, Settled>|
                #![trigger
                    call_ensures(Publisher::<E>::edit::<F>, (publisher, f), ()),
                    crate::locks::put_back(handle, *final(publisher))]
                {
                    &&& crate::locks::taken(self.publisher(), *publisher, handle)
                    &&& call_ensures(Publisher::<E>::edit::<F>, (publisher, f), ())
                    &&& crate::locks::put_back(handle, *final(publisher))
                },
    {
        let (mut publisher, handle) = self.lock();
        publisher.edit(f);
        handle.release_write(publisher);
        assert(crate::locks::put_back(handle, publisher));
    }

    /// Take the snapshots that are to be sent, in order: [`Publisher::drain`].
    pub fn drain(&self) -> (sent: Vec<Catalog<E>>)
        ensures
            crate::locks::stepped(
                self.publisher(),
                |before: Publisher<E>, after: Publisher<E>|
                    {
                        &&& crate::catalog::publisher::snapshots(sent@) == before@.published
                        &&& after@ == (PublisherView { published: Seq::empty(), ..before@ })
                    },
            ),
    {
        let (mut publisher, handle) = self.lock();
        let sent = publisher.drain();
        handle.release_write(publisher);
        assert(crate::locks::put_back(handle, publisher));
        sent
    }

    /// `hint`, or else the time on the broadcast's clock: [`Clock::timestamp`].
    pub fn timestamp(&self, hint: Option<Timestamp>) -> (time: Result<Timestamp, MuxError>)
        ensures
            self.clock().tells(hint, time),
    {
        self.clock.timestamp(hint)
    }

    pub(crate) fn add_reserver(&self)
        ensures
            reserved_once(self.publisher()),
    {
        let (mut publisher, handle) = self.lock();
        publisher.reserve();
        handle.release_write(publisher);
        assert(crate::locks::put_back(handle, publisher));
    }

    pub(crate) fn release_reserver(&self)
        ensures
            released_once(self.publisher()),
    {
        let (mut publisher, handle) = self.lock();
        publisher.release();
        handle.release_write(publisher);
        assert(crate::locks::put_back(handle, publisher));
    }

    pub(crate) fn lock(&self) -> (locked: (Publisher<E>, WriteHandle<'_, Publisher<E>, Settled>))
        ensures
            locked.0@.settled(),
            crate::locks::taken(self.publisher(), locked.0, locked.1),
            locked.1.rwlock().inv(locked.0),
    {
        let locked = self.publisher.acquire_write();
        assert(crate::locks::taken(self.publisher(), locked.0, locked.1));
        locked
    }
}

/// One more reservation was counted.
pub open spec fn reserved_once<E: CatalogExt>(lock: RwLock<Publisher<E>, Settled>) -> bool {
    crate::locks::stepped(
        lock,
        |before: Publisher<E>, after: Publisher<E>| after@ == before@.reserve(),
    )
}

/// One reservation less was counted.
pub open spec fn released_once<E: CatalogExt>(lock: RwLock<Publisher<E>, Settled>) -> bool {
    crate::locks::stepped(
        lock,
        |before: Publisher<E>, after: Publisher<E>| after@ == before@.release(),
    )
}

impl<E: CatalogExt> Clone for Producer<E> {
    fn clone(&self) -> (producer: Self)
        ensures
            producer.publisher() == self.publisher(),
            producer.clock() == self.clock(),
    {
        Producer { publisher: self.publisher.clone(), clock: self.clock.share() }
    }
}

} // verus!
