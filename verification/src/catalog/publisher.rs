//! When a catalog is published.
//!
//! While any reservation is live the set of tracks may still grow, so changes are staged. The
//! release of the last one publishes what was staged, as one complete snapshot. While none is
//! live, each change is published at once.

use crate::catalog::config::{AudioConfigView, VideoConfigView};
use crate::catalog::kind::{Audio, Kind, Video};
use crate::catalog::model::{Catalog, CatalogExt, CatalogView};
use crate::error::MuxError;
use vstd::prelude::*;

verus! {

/// The mathematical form of a [`Publisher`].
#[verifier::ext_equal]
pub struct PublisherView<X> {
    pub catalog: CatalogView<X>,
    /// How many reservations are live.
    pub reservers: nat,
    /// Whether the catalog has changed since it was last published.
    pub staged: bool,
    /// The snapshots that are to be sent, in order.
    pub published: Seq<CatalogView<X>>,
}

impl<X> PublisherView<X> {
    /// A publisher of `catalog` that nobody has reserved.
    pub open spec fn fresh(catalog: CatalogView<X>) -> Self {
        PublisherView { catalog, reservers: 0, staged: false, published: Seq::empty() }
    }

    /// Nothing is staged while no reservation is live.
    pub open spec fn settled(self) -> bool {
        self.reservers == 0 ==> !self.staged
    }

    /// The publisher after the catalog became `catalog`.
    pub open spec fn edit(self, catalog: CatalogView<X>) -> Self {
        if self.reservers == 0 {
            PublisherView { catalog, published: self.published.push(catalog), ..self }
        } else {
            PublisherView { catalog, staged: true, ..self }
        }
    }

    /// The publisher with one more live reservation.
    pub open spec fn reserve(self) -> Self {
        PublisherView {
            reservers: if self.reservers < usize::MAX {
                self.reservers + 1
            } else {
                self.reservers
            },
            ..self
        }
    }

    /// The publisher with one live reservation less. The last one publishes what was staged.
    pub open spec fn release(self) -> Self {
        if self.reservers == 1 && self.staged {
            PublisherView {
                reservers: 0,
                staged: false,
                published: self.published.push(self.catalog),
                ..self
            }
        } else {
            PublisherView {
                reservers: if self.reservers > 0 {
                    (self.reservers - 1) as nat
                } else {
                    0
                },
                ..self
            }
        }
    }

    /// The publisher after a rendition of kind `K` was set, and its reservation released if it
    /// still held one.
    pub open spec fn set<K: Kind>(
        self,
        name: Seq<char>,
        config: <K::Config as View>::V,
        held: bool,
    ) -> Self {
        let inserted = self.edit(
            self.catalog.with(
                crate::catalog::kind::inserted::<K>(self.catalog.renditions, name, config),
            ),
        );
        if held {
            inserted.release()
        } else {
            inserted
        }
    }

    /// The publisher after a rendition of kind `K` ended: its config is removed if it had set one,
    /// and its reservation released if it still held one.
    pub open spec fn retire<K: Kind>(self, name: Seq<char>, present: bool, held: bool) -> Self {
        let removed = if present {
            self.edit(
                self.catalog.with(
                    crate::catalog::kind::removed::<K>(self.catalog.renditions, name),
                ),
            )
        } else {
            self
        };
        if held {
            removed.release()
        } else {
            removed
        }
    }
}

/// The mathematical form of each catalog.
pub open spec fn snapshots<E: CatalogExt>(catalogs: Seq<Catalog<E>>) -> Seq<CatalogView<E::Model>> {
    catalogs.map_values(|c: Catalog<E>| c@)
}

/// A catalog, the count of its reservations, and the snapshots that are to be sent.
pub struct Publisher<E> {
    catalog: Catalog<E>,
    reservers: usize,
    staged: bool,
    outbox: Vec<Catalog<E>>,
}

impl<E: CatalogExt> View for Publisher<E> {
    type V = PublisherView<E::Model>;

    closed spec fn view(&self) -> PublisherView<E::Model> {
        PublisherView {
            catalog: self.catalog@,
            reservers: self.reservers as nat,
            staged: self.staged,
            published: snapshots(self.outbox@),
        }
    }
}

impl<E: CatalogExt> Publisher<E> {
    /// A publisher that nobody has reserved.
    pub fn new(catalog: Catalog<E>) -> (publisher: Self)
        ensures
            publisher@ == PublisherView::fresh(catalog@),
    {
        let publisher = Publisher { catalog, reservers: 0, staged: false, outbox: Vec::new() };
        assert(publisher@.published =~= Seq::empty());
        publisher
    }

    fn publish(&mut self)
        ensures
            final(self)@ == (PublisherView {
                published: old(self)@.published.push(old(self)@.catalog),
                ..old(self)@
            }),
    {
        self.outbox.push(self.catalog.snapshot());
        assert(self@.published =~= old(self)@.published.push(old(self)@.catalog));
    }

    fn edited(&mut self)
        ensures
            final(self)@ == old(self)@.edit(old(self)@.catalog),
    {
        if self.reservers == 0 {
            self.publish();
        } else {
            self.staged = true;
        }
    }

    /// Count one more reservation.
    pub fn reserve(&mut self)
        ensures
            final(self)@ == old(self)@.reserve(),
    {
        self.reservers = self.reservers.saturating_add(1);
    }

    /// Count one reservation less. The last one publishes what was staged.
    pub fn release(&mut self)
        ensures
            final(self)@ == old(self)@.release(),
    {
        let last = self.reservers == 1;
        self.reservers = self.reservers.saturating_sub(1);
        if last && self.staged {
            self.staged = false;
            self.publish();
        }
    }

    /// Change the catalog.
    pub fn edit<F: FnOnce(&mut Catalog<E>)>(&mut self, f: F)
        requires
            forall|c: &mut Catalog<E>| #[trigger] f.requires((c,)),
        ensures
            exists|c: &mut Catalog<E>|
                #![trigger f.ensures((c,), ())]
                c@ == old(self)@.catalog && final(self)@ == old(self)@.edit(final(c)@) && f.ensures(
                    (c,),
                    (),
                ),
    {
        f(&mut self.catalog);
        self.edited();
    }

    /// Merge `hint` into `config`, insert or replace the rendition `name` of kind `K` with it, then
    /// release the reservation that was held for it. Where the two disagree nothing changes.
    pub fn set<K: Kind>(
        &mut self,
        name: &str,
        config: K::Config,
        hint: &K::Hint,
        held: bool,
    ) -> (result: Result<(), MuxError>)
        ensures
            exists|merged: <K::Config as View>::V| #[trigger]
                K::applies(hint@, config@, result, merged) && final(self)@ == if result is Ok {
                    old(self)@.set::<K>(name@, merged, held)
                } else {
                    old(self)@
                },
    {
        let mut config = config;
        let result = K::apply_hint(&mut config, hint);
        if result.is_err() {
            return result;
        }
        K::insert(&mut self.catalog, name, config);
        self.edited();
        if held {
            self.release();
        }
        result
    }

    /// Change the rendition `name` of kind `K`, if it has been set and is still there.
    pub fn update<K: Kind, F: FnOnce(&mut K::Config)>(&mut self, name: &str, present: bool, f: F)
        requires
            forall|c: &mut K::Config| #[trigger] f.requires((c,)),
        ensures
            !present ==> *final(self) == *old(self),
            present && !K::slot(old(self)@.catalog.renditions).contains_key(name@) ==> final(self)@
                == old(self)@.edit(old(self)@.catalog),
            present && K::slot(old(self)@.catalog.renditions).contains_key(name@) ==> exists|
                c: &mut K::Config,
            |
                #![trigger f.ensures((c,), ())]
                c@ == K::slot(old(self)@.catalog.renditions)[name@] && final(self)@ == old(
                    self,
                )@.edit(
                    old(self)@.catalog.with(
                        crate::catalog::kind::inserted::<K>(
                            old(self)@.catalog.renditions,
                            name@,
                            final(c)@,
                        ),
                    ),
                ) && f.ensures((c,), ()),
    {
        if !present {
            return;
        }
        K::with_mut(&mut self.catalog, name, f);
        self.edited();
    }

    /// End the rendition `name` of kind `K`: remove its config if it set one, then release the
    /// reservation that was held for it.
    pub fn retire<K: Kind>(&mut self, name: &str, present: bool, held: bool)
        ensures
            final(self)@ == old(self)@.retire::<K>(name@, present, held),
    {
        if present {
            K::remove(&mut self.catalog, name);
            self.edited();
        }
        if held {
            self.release();
        }
    }

    /// Take the snapshots that are to be sent, in order.
    pub fn drain(&mut self) -> (sent: Vec<Catalog<E>>)
        ensures
            snapshots(sent@) == old(self)@.published,
            final(self)@ == (PublisherView { published: Seq::empty(), ..old(self)@ }),
    {
        let mut sent: Vec<Catalog<E>> = Vec::new();
        std::mem::swap(&mut sent, &mut self.outbox);
        assert(self@.published =~= Seq::empty());
        sent
    }
}

/// One thing that happens to a publisher.
pub enum Event<X> {
    Reserve,
    Release,
    Edit(CatalogView<X>),
}

/// The publisher after `event`.
pub open spec fn step<X>(publisher: PublisherView<X>, event: Event<X>) -> PublisherView<X> {
    match event {
        Event::Reserve => publisher.reserve(),
        Event::Release => publisher.release(),
        Event::Edit(catalog) => publisher.edit(catalog),
    }
}

/// The publisher after each of `events` in turn.
pub open spec fn run<X>(publisher: PublisherView<X>, events: Seq<Event<X>>) -> PublisherView<X>
    decreases events.len(),
{
    if events.len() == 0 {
        publisher
    } else {
        step(run(publisher, events.drop_last()), events.last())
    }
}

/// Some reservation is live from the start and through each of `events`.
pub open spec fn reserved_throughout<X>(publisher: PublisherView<X>, events: Seq<Event<X>>) -> bool {
    forall|k: int|
        0 <= k <= events.len() ==> run(publisher, #[trigger] events.take(k)).reservers > 0
}

/// Nothing is ever left staged once no reservation is live.
pub proof fn nothing_stays_staged_unreserved<X>(publisher: PublisherView<X>, events: Seq<Event<X>>)
    requires
        publisher.settled(),
    ensures
        run(publisher, events).settled(),
    decreases events.len(),
{
    if events.len() > 0 {
        nothing_stays_staged_unreserved(publisher, events.drop_last());
    }
}

/// The catalog is withheld while any reservation is live.
pub proof fn reserved_catalog_is_withheld<X>(publisher: PublisherView<X>, events: Seq<Event<X>>)
    requires
        reserved_throughout(publisher, events),
    ensures
        run(publisher, events).published == publisher.published,
    decreases events.len(),
{
    if events.len() > 0 {
        let before = events.drop_last();
        assert forall|k: int| 0 <= k <= before.len() implies run(
            publisher,
            #[trigger] before.take(k),
        ).reservers > 0 by {
            assert(before.take(k) =~= events.take(k));
        }
        reserved_catalog_is_withheld(publisher, before);
        assert(events.take(events.len() as int) =~= events);
        assert(before.take(before.len() as int) =~= before);
        assert(run(publisher, before.take(before.len() as int)).reservers > 0);
        assert(run(publisher, events.take(events.len() as int)).reservers > 0);
    }
}

/// The first snapshot is complete: when the last reservation is released after `events`, one
/// snapshot is published if anything changed in the meantime, and it is the catalog with every
/// change made.
pub proof fn first_snapshot_is_complete<X>(publisher: PublisherView<X>, events: Seq<Event<X>>)
    requires
        reserved_throughout(publisher, events),
        run(publisher, events).reservers == 1,
    ensures
        run(publisher, events.push(Event::Release)).catalog == run(publisher, events).catalog,
        run(publisher, events.push(Event::Release)).published == if run(publisher, events).staged {
            publisher.published.push(run(publisher, events).catalog)
        } else {
            publisher.published
        },
{
    reserved_catalog_is_withheld(publisher, events);
    assert(events.push(Event::Release).drop_last() =~= events);
}

/// A change made while reserved is staged until something is published.
pub proof fn changes_stay_staged<X>(
    publisher: PublisherView<X>,
    catalog: CatalogView<X>,
    events: Seq<Event<X>>,
)
    requires
        publisher.reservers > 0,
        reserved_throughout(publisher.edit(catalog), events),
    ensures
        run(publisher.edit(catalog), events).staged,
    decreases events.len(),
{
    if events.len() > 0 {
        let edited = publisher.edit(catalog);
        let before = events.drop_last();
        assert forall|k: int| 0 <= k <= before.len() implies run(
            edited,
            #[trigger] before.take(k),
        ).reservers > 0 by {
            assert(before.take(k) =~= events.take(k));
        }
        changes_stay_staged(publisher, catalog, before);
        assert(events.take(events.len() as int) =~= events);
        assert(run(edited, events.take(events.len() as int)).reservers > 0);
    }
}

/// What was last published is the catalog as it is, unless a change is staged.
pub proof fn last_snapshot_is_current<X>(publisher: PublisherView<X>, events: Seq<Event<X>>)
    requires
        publisher.published.len() > 0,
        !publisher.staged ==> publisher.published.last() == publisher.catalog,
    ensures
        run(publisher, events).published.len() > 0,
        !run(publisher, events).staged ==> run(publisher, events).published.last() == run(
            publisher,
            events,
        ).catalog,
    decreases events.len(),
{
    if events.len() > 0 {
        last_snapshot_is_current(publisher, events.drop_last());
    }
}

/// Releasing a reservation undoes making it.
pub proof fn releasing_undoes_reserving<X>(publisher: PublisherView<X>)
    requires
        publisher.settled(),
        publisher.reservers < usize::MAX,
    ensures
        publisher.reserve().release() == publisher,
{
}

/// A rendition that never set a config leaves the catalog as it is when it ends.
pub proof fn unset_rendition_removes_nothing<X, K: Kind>(
    publisher: PublisherView<X>,
    name: Seq<char>,
    held: bool,
)
    ensures
        publisher.retire::<K>(name, false, held).catalog == publisher.catalog,
{
}

/// Ending a rendition undoes setting it, where the name was free before.
pub proof fn retiring_undoes_setting<X, K: Kind>(
    publisher: PublisherView<X>,
    name: Seq<char>,
    config: <K::Config as View>::V,
    held: bool,
)
    requires
        !K::slot(publisher.catalog.renditions).contains_key(name),
    ensures
        publisher.set::<K>(name, config, held).retire::<K>(name, true, false).catalog
            == publisher.catalog,
{
    let all = publisher.catalog.renditions;
    let one = K::slot(all).insert(name, config);
    K::slot_is_replaced(all, one, K::slot(all));
    assert(one.remove(name) =~= K::slot(all));
}

/// Setting a rendition puts its config under its name, and leaves every other rendition of its
/// kind as it is, the renditions of the other kind, and the rest of the catalog.
pub proof fn setting_changes_one_rendition<X, K: Kind>(
    publisher: PublisherView<X>,
    name: Seq<char>,
    config: <K::Config as View>::V,
    held: bool,
)
    ensures
        K::slot(publisher.set::<K>(name, config, held).catalog.renditions) == K::slot(
            publisher.catalog.renditions,
        ).insert(name, config),
        K::with_slot(
            publisher.set::<K>(name, config, held).catalog.renditions,
            Map::empty(),
        ) == K::with_slot(publisher.catalog.renditions, Map::empty()),
        publisher.set::<K>(name, config, held).catalog.with(publisher.catalog.renditions)
            == publisher.catalog,
{
    let all = publisher.catalog.renditions;
    let one = K::slot(all).insert(name, config);
    K::slot_is_replaced(all, one, one);
    K::slot_is_replaced(all, one, Map::empty());
}

/// Setting a video rendition leaves the audio renditions as they are, and the other way around.
pub proof fn setting_keeps_the_other_kind<X>(
    publisher: PublisherView<X>,
    name: Seq<char>,
    video: VideoConfigView,
    audio: AudioConfigView,
    held: bool,
)
    ensures
        publisher.set::<Video>(name, video, held).catalog.renditions.audio
            == publisher.catalog.renditions.audio,
        publisher.set::<Audio>(name, audio, held).catalog.renditions.video
            == publisher.catalog.renditions.video,
{
}

/// Setting the rendition that holds the only reservation publishes one snapshot, with its config
/// in it.
pub proof fn last_rendition_publishes_the_catalog<X, K: Kind>(
    publisher: PublisherView<X>,
    name: Seq<char>,
    config: <K::Config as View>::V,
)
    requires
        publisher.reservers == 1,
    ensures
        publisher.set::<K>(name, config, true).published == publisher.published.push(
            publisher.catalog.with(
                crate::catalog::kind::inserted::<K>(publisher.catalog.renditions, name, config),
            ),
        ),
        publisher.set::<K>(name, config, true).reservers == 0,
{
}

} // verus!
