//! Tracks that are declared before their config is known.

use crate::catalog::hint::{AudioHint, VideoHint};
use crate::catalog::kind::{Audio, Kind, Video};
use crate::catalog::model::CatalogExt;
use crate::catalog::producer::{Producer, Settled};
use crate::catalog::publisher::Publisher;
use crate::error::MuxError;
use crate::time::Timestamp;
use vstd::prelude::*;
use vstd::rwlock::WriteHandle;

verus! {

/// A clonable reservation context handed to importers so they declare their tracks up front.
///
/// Made via [`Producer::reserve`]. While any `Reserved` is alive the track set may still grow, so
/// the catalog is withheld. Each [`init`](Self::init) reserves a rendition by name, whose config
/// is filled in later, and counts until that rendition is set or retired. Once every `Reserved`
/// is [released](Self::release) and every rendition is resolved, the first snapshot is published
/// with the complete list of tracks.
pub struct Reserved<E: CatalogExt = ()> {
    catalog: Producer<E>,
}

impl<E: CatalogExt> Reserved<E> {
    /// The catalog that is withheld.
    pub closed spec fn catalog(self) -> Producer<E> {
        self.catalog
    }

    pub(crate) fn new(catalog: Producer<E>) -> (reserved: Self)
        ensures
            reserved.catalog() == catalog,
            crate::catalog::producer::reserved_once(catalog.publisher()),
    {
        catalog.add_reserver();
        Reserved { catalog }
    }

    /// Reserve a rendition of kind `K` under `name`, returning a guard to fill it in.
    ///
    /// The guard holds its own reservation, so the catalog stays withheld until the returned
    /// [`Rendition`] is [`set`](Rendition::set) or [retired](Rendition::retire).
    pub fn init<K: Kind>(&self, name: String) -> (rendition: Rendition<E, K>)
        ensures
            rendition.track() == name@,
            !rendition.present(),
            rendition.hint()@ == K::empty_hint(),
            rendition.catalog().publisher() == self.catalog().publisher(),
            rendition.catalog().clock() == self.catalog().clock(),
            crate::catalog::producer::reserved_once(self.catalog().publisher()),
    {
        Rendition::new(self.clone(), name, K::no_hint())
    }

    /// Reserve a rendition of kind `K` with caller-provided catalog fields.
    pub fn init_with_hint<K: Kind>(&self, name: String, hint: K::Hint) -> (rendition: Rendition<E, K>)
        ensures
            rendition.track() == name@,
            !rendition.present(),
            rendition.hint() == hint,
            rendition.catalog().publisher() == self.catalog().publisher(),
            rendition.catalog().clock() == self.catalog().clock(),
            crate::catalog::producer::reserved_once(self.catalog().publisher()),
    {
        Rendition::new(self.clone(), name, hint)
    }

    /// Reserve a video rendition.
    pub fn video(&self, name: String) -> (rendition: Rendition<E, Video>)
        ensures
            rendition.track() == name@,
            !rendition.present(),
            rendition.hint()@ == Video::empty_hint(),
            rendition.catalog().publisher() == self.catalog().publisher(),
            rendition.catalog().clock() == self.catalog().clock(),
            crate::catalog::producer::reserved_once(self.catalog().publisher()),
    {
        self.init::<Video>(name)
    }

    /// Reserve a video rendition with caller-provided catalog fields.
    pub fn video_with_hint(&self, name: String, hint: VideoHint) -> (rendition: Rendition<E, Video>)
        ensures
            rendition.track() == name@,
            !rendition.present(),
            rendition.hint() == hint,
            rendition.catalog().publisher() == self.catalog().publisher(),
            rendition.catalog().clock() == self.catalog().clock(),
            crate::catalog::producer::reserved_once(self.catalog().publisher()),
    {
        self.init_with_hint::<Video>(name, hint)
    }

    /// Reserve an audio rendition.
    pub fn audio(&self, name: String) -> (rendition: Rendition<E, Audio>)
        ensures
            rendition.track() == name@,
            !rendition.present(),
            rendition.hint()@ == Audio::empty_hint(),
            rendition.catalog().publisher() == self.catalog().publisher(),
            rendition.catalog().clock() == self.catalog().clock(),
            crate::catalog::producer::reserved_once(self.catalog().publisher()),
    {
        self.init::<Audio>(name)
    }

    /// Reserve an audio rendition with caller-provided catalog fields.
    pub fn audio_with_hint(&self, name: String, hint: AudioHint) -> (rendition: Rendition<E, Audio>)
        ensures
            rendition.track() == name@,
            !rendition.present(),
            rendition.hint() == hint,
            rendition.catalog().publisher() == self.catalog().publisher(),
            rendition.catalog().clock() == self.catalog().clock(),
            crate::catalog::producer::reserved_once(self.catalog().publisher()),
    {
        self.init_with_hint::<Audio>(name, hint)
    }

    /// Resolve a timestamp on the broadcast's shared clock: [`Producer::timestamp`].
    pub fn timestamp(&self, hint: Option<Timestamp>) -> (time: Result<Timestamp, MuxError>)
        ensures
            self.catalog().clock().tells(hint, time),
    {
        self.catalog.timestamp(hint)
    }

    /// The underlying catalog [`Producer`], for edits that outlive this reservation. The returned
    /// handle withholds nothing: only live `Reserved`s do.
    pub fn producer(&self) -> (producer: Producer<E>)
        ensures
            producer.publisher() == self.catalog().publisher(),
            producer.clock() == self.catalog().clock(),
    {
        self.catalog.clone()
    }

    /// End this reservation. The last one publishes what was staged.
    pub fn release(self)
        ensures
            crate::catalog::producer::released_once(self.catalog().publisher()),
    {
        self.catalog.release_reserver();
    }
}

impl<E: CatalogExt> Clone for Reserved<E> {
    fn clone(&self) -> (reserved: Self)
        ensures
            crate::catalog::producer::reserved_once(self.catalog().publisher()),
            reserved.catalog().publisher() == self.catalog().publisher(),
            reserved.catalog().clock() == self.catalog().clock(),
    {
        self.catalog.add_reserver();
        Reserved { catalog: self.catalog.clone() }
    }
}

/// A reserved rendition of kind `K`.
///
/// Made via [`Reserved::init`]. Fill it in with [`set`](Self::set) and refine it in place with
/// [`update`](Self::update). Until it is set or retired it holds a [`Reserved`], so an unresolved
/// rendition keeps the catalog withheld. [`retire`](Self::retire) removes it from the catalog.
pub struct Rendition<E: CatalogExt, K: Kind> {
    catalog: Producer<E>,
    name: String,
    stage: Stage<E>,
    hint: K::Hint,
}

/// How far a rendition has come.
enum Stage<E: CatalogExt> {
    /// No config has been set yet, and a reservation is held until one is.
    Held(Reserved<E>),
    /// A config has been set.
    Present,
}

/// A single video track's catalog rendition. See [`Rendition`].
pub type VideoTrack<E = ()> = Rendition<E, Video>;

/// A single audio track's catalog rendition. See [`Rendition`].
pub type AudioTrack<E = ()> = Rendition<E, Audio>;

impl<E: CatalogExt, K: Kind> Rendition<E, K> {
    /// The catalog that the rendition is in.
    pub closed spec fn catalog(self) -> Producer<E> {
        self.catalog
    }

    /// The name of the track.
    pub closed spec fn track(self) -> Seq<char> {
        self.name@
    }

    /// Whether a config has been set. Until then the rendition holds a reservation.
    pub closed spec fn present(self) -> bool {
        self.stage is Present
    }

    /// The fields that the caller provided.
    pub closed spec fn hint(self) -> K::Hint {
        self.hint
    }

    fn new(reserved: Reserved<E>, name: String, hint: K::Hint) -> (rendition: Self)
        ensures
            rendition.track() == name@,
            !rendition.present(),
            rendition.hint() == hint,
            rendition.catalog().publisher() == reserved.catalog().publisher(),
            rendition.catalog().clock() == reserved.catalog().clock(),
    {
        Rendition {
            catalog: reserved.catalog.clone(),
            name,
            stage: Stage::Held(reserved),
            hint,
        }
    }

    fn is_present(&self) -> (present: bool)
        ensures
            present == self.present(),
    {
        match self.stage {
            Stage::Held(_) => false,
            Stage::Present => true,
        }
    }

    /// The track name this rendition is keyed by.
    pub fn name(&self) -> (name: &str)
        ensures
            name@ == self.track(),
    {
        self.name.as_str()
    }

    /// Resolve a timestamp on the broadcast's shared clock: [`Producer::timestamp`].
    pub fn timestamp(&self, hint: Option<Timestamp>) -> (time: Result<Timestamp, MuxError>)
        ensures
            self.catalog().clock().tells(hint, time),
    {
        self.catalog.timestamp(hint)
    }

    /// Insert or replace the rendition, fulfilling the reservation and publishing the catalog, or
    /// staging it while other reservations are live:
    /// [`Publisher::set`](crate::catalog::publisher::Publisher::set).
    pub fn set(&mut self, config: K::Config) -> (result: Result<(), MuxError>)
        ensures
            exists|merged: <K::Config as View>::V| #[trigger]
                K::applies(old(self).hint()@, config@, result, merged) && crate::locks::stepped(
                    old(self).catalog().publisher(),
                    |before: Publisher<E>, after: Publisher<E>|
                        after@ == if result is Ok {
                            before@.set::<K>(old(self).track(), merged, !old(self).present())
                        } else {
                            before@
                        },
                ),
            result is Ok ==> final(self).present(),
            result is Err ==> final(self).present() == old(self).present(),
            final(self).track() == old(self).track(),
            final(self).hint() == old(self).hint(),
            final(self).catalog() == old(self).catalog(),
    {
        assert(self.hint() == self.hint);
        let held = !self.is_present();
        let (mut publisher, handle) = self.catalog.lock();
        let result = publisher.set::<K>(self.name.as_str(), config, &self.hint, held);
        handle.release_write(publisher);
        assert(crate::locks::put_back(handle, publisher));
        if result.is_ok() {
            self.stage = Stage::Present;
        }
        result
    }

    /// Refine the rendition in place, publishing if present:
    /// [`Publisher::update`](crate::catalog::publisher::Publisher::update).
    pub fn update<F: FnOnce(&mut K::Config)>(&mut self, f: F)
        requires
            forall|c: &mut K::Config| #[trigger] f.requires((c,)),
        ensures
            *final(self) == *old(self),
            exists|
                publisher: &mut Publisher<E>,
                name: &str,
                handle: WriteHandle<'_, Publisher<E>, Settled>,
            |
                #![trigger
                    call_ensures(
                        Publisher::<E>::update::<K, F>,
                        (publisher, name, old(self).present(), f),
                        (),
                    ),
                    crate::locks::put_back(handle, *final(publisher))]
                {
                    &&& name@ == old(self).track()
                    &&& crate::locks::taken(
                        old(self).catalog().publisher(),
                        *publisher,
                        handle,
                    )
                    &&& call_ensures(
                        Publisher::<E>::update::<K, F>,
                        (publisher, name, old(self).present(), f),
                        (),
                    )
                    &&& crate::locks::put_back(handle, *final(publisher))
                },
    {
        let present = self.is_present();
        let name = self.name.as_str();
        let (mut publisher, handle) = self.catalog.lock();
        publisher.update::<K, F>(name, present, f);
        handle.release_write(publisher);
        assert(crate::locks::put_back(handle, publisher));
        assert(present == old(self).present());
    }

    /// End the rendition: its config is removed if it had set one, else its reservation is
    /// released: [`Publisher::retire`](crate::catalog::publisher::Publisher::retire).
    pub fn retire(self)
        ensures
            crate::locks::stepped(
                self.catalog().publisher(),
                |before: Publisher<E>, after: Publisher<E>|
                    after@ == before@.retire::<K>(self.track(), self.present(), !self.present()),
            ),
    {
        let present = self.is_present();
        let (mut publisher, handle) = self.catalog.lock();
        publisher.retire::<K>(self.name.as_str(), present, !present);
        handle.release_write(publisher);
        assert(crate::locks::put_back(handle, publisher));
    }
}

} // verus!
