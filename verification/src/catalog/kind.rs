//! The media kinds of a rendition.

use crate::catalog::config::{AudioConfig, AudioConfigView, VideoConfig, VideoConfigView};
use crate::catalog::hint::{AudioHint, AudioHintView, VideoHint, VideoHintView};
use crate::catalog::model::{Catalog, CatalogExt, Renditions};
use crate::catalog::sealed::Sealed;
use crate::error::MuxError;
use crate::names::Duplicate;
use vstd::prelude::*;

verus! {

/// The media kind of a reserved rendition, selecting its config type and catalog slot.
///
/// Implemented only by [`Video`] and [`Audio`].
pub trait Kind: Sealed + Sized {
    /// The catalog config type carried by this kind.
    type Config: Duplicate;

    /// The optional caller-provided fields merged into this kind's config.
    type Hint: View + Clone + Default;

    /// The renditions of this kind in a catalog.
    spec fn slot(all: Renditions) -> Map<Seq<char>, <Self::Config as View>::V>;

    /// The renditions with those of this kind replaced.
    spec fn with_slot(
        all: Renditions,
        slot: Map<Seq<char>, <Self::Config as View>::V>,
    ) -> Renditions;

    /// Replacing the renditions of this kind replaces those and nothing else.
    proof fn slot_is_replaced(
        all: Renditions,
        one: Map<Seq<char>, <Self::Config as View>::V>,
        two: Map<Seq<char>, <Self::Config as View>::V>,
    )
        ensures
            Self::slot(Self::with_slot(all, one)) == one,
            Self::with_slot(Self::with_slot(all, one), two) == Self::with_slot(all, two),
            Self::with_slot(all, Self::slot(all)) == all,
    ;

    /// The hint that provides nothing.
    spec fn empty_hint() -> <Self::Hint as View>::V;

    /// Merging `hint` into `config` gives `result` and leaves `after`.
    spec fn applies(
        hint: <Self::Hint as View>::V,
        config: <Self::Config as View>::V,
        result: Result<(), MuxError>,
        after: <Self::Config as View>::V,
    ) -> bool;

    fn no_hint() -> (hint: Self::Hint)
        ensures
            hint@ == Self::empty_hint(),
    ;

    fn insert<E: CatalogExt>(catalog: &mut Catalog<E>, name: &str, config: Self::Config)
        ensures
            final(catalog)@ == old(catalog)@.with(
                Self::with_slot(
                    old(catalog)@.renditions,
                    Self::slot(old(catalog)@.renditions).insert(name@, config@),
                ),
            ),
    ;

    fn with_mut<E: CatalogExt, F: FnOnce(&mut Self::Config)>(
        catalog: &mut Catalog<E>,
        name: &str,
        f: F,
    )
        requires
            forall|c: &mut Self::Config| #[trigger] f.requires((c,)),
        ensures
            !Self::slot(old(catalog)@.renditions).contains_key(name@) ==> final(catalog)@
                == old(catalog)@,
            Self::slot(old(catalog)@.renditions).contains_key(name@) ==> exists|c: &mut Self::Config|
                #![trigger f.ensures((c,), ())]
                c@ == Self::slot(old(catalog)@.renditions)[name@] && final(catalog)@ == old(
                    catalog,
                )@.with(
                    Self::with_slot(
                        old(catalog)@.renditions,
                        Self::slot(old(catalog)@.renditions).insert(name@, final(c)@),
                    ),
                ) && f.ensures((c,), ()),
    ;

    fn remove<E: CatalogExt>(catalog: &mut Catalog<E>, name: &str)
        ensures
            final(catalog)@ == old(catalog)@.with(
                Self::with_slot(
                    old(catalog)@.renditions,
                    Self::slot(old(catalog)@.renditions).remove(name@),
                ),
            ),
    ;

    fn apply_hint(config: &mut Self::Config, hint: &Self::Hint) -> (result: Result<(), MuxError>)
        ensures
            Self::applies(hint@, old(config)@, result, final(config)@),
    ;
}

/// The renditions with `config` of kind `K` under `name`.
pub open spec fn inserted<K: Kind>(
    all: Renditions,
    name: Seq<char>,
    config: <K::Config as View>::V,
) -> Renditions {
    K::with_slot(all, K::slot(all).insert(name, config))
}

/// The renditions without the one of kind `K` under `name`.
pub open spec fn removed<K: Kind>(all: Renditions, name: Seq<char>) -> Renditions {
    K::with_slot(all, K::slot(all).remove(name))
}

/// Video rendition marker. It only selects a kind: no value of it is ever needed.
pub enum Video {
    Marker,
}

/// Audio rendition marker. It only selects a kind: no value of it is ever needed.
pub enum Audio {
    Marker,
}

impl Sealed for Video {

}

impl Sealed for Audio {

}

impl Kind for Video {
    type Config = VideoConfig;

    type Hint = VideoHint;

    open spec fn slot(all: Renditions) -> Map<Seq<char>, VideoConfigView> {
        all.video
    }

    open spec fn with_slot(
        all: Renditions,
        slot: Map<Seq<char>, VideoConfigView>,
    ) -> Renditions {
        Renditions { video: slot, ..all }
    }

    proof fn slot_is_replaced(
        all: Renditions,
        one: Map<Seq<char>, VideoConfigView>,
        two: Map<Seq<char>, VideoConfigView>,
    ) {
    }

    open spec fn empty_hint() -> VideoHintView {
        VideoHintView::empty()
    }

    open spec fn applies(
        hint: VideoHintView,
        config: VideoConfigView,
        result: Result<(), MuxError>,
        after: VideoConfigView,
    ) -> bool {
        hint.applies(config, result, after)
    }

    fn no_hint() -> VideoHint {
        VideoHint::default()
    }

    fn insert<E: CatalogExt>(catalog: &mut Catalog<E>, name: &str, config: VideoConfig) {
        catalog.video.renditions.insert(name.to_owned(), config);
        assert(catalog@.renditions.video =~= old(catalog)@.renditions.video.insert(name@, config@));
    }

    fn with_mut<E: CatalogExt, F: FnOnce(&mut VideoConfig)>(
        catalog: &mut Catalog<E>,
        name: &str,
        f: F,
    ) {
        catalog.video.renditions.update(name, f);
    }

    fn remove<E: CatalogExt>(catalog: &mut Catalog<E>, name: &str) {
        catalog.video.renditions.remove(name);
        assert(catalog@.renditions.video =~= old(catalog)@.renditions.video.remove(name@));
    }

    fn apply_hint(config: &mut VideoConfig, hint: &VideoHint) -> Result<(), MuxError> {
        hint.apply(config)
    }
}

impl Kind for Audio {
    type Config = AudioConfig;

    type Hint = AudioHint;

    open spec fn slot(all: Renditions) -> Map<Seq<char>, AudioConfigView> {
        all.audio
    }

    open spec fn with_slot(
        all: Renditions,
        slot: Map<Seq<char>, AudioConfigView>,
    ) -> Renditions {
        Renditions { audio: slot, ..all }
    }

    proof fn slot_is_replaced(
        all: Renditions,
        one: Map<Seq<char>, AudioConfigView>,
        two: Map<Seq<char>, AudioConfigView>,
    ) {
    }

    open spec fn empty_hint() -> AudioHintView {
        AudioHintView::empty()
    }

    open spec fn applies(
        hint: AudioHintView,
        config: AudioConfigView,
        result: Result<(), MuxError>,
        after: AudioConfigView,
    ) -> bool {
        hint.applies(config, result, after)
    }

    fn no_hint() -> AudioHint {
        AudioHint::default()
    }

    fn insert<E: CatalogExt>(catalog: &mut Catalog<E>, name: &str, config: AudioConfig) {
        catalog.audio.renditions.insert(name.to_owned(), config);
        assert(catalog@.renditions.audio =~= old(catalog)@.renditions.audio.insert(name@, config@));
    }

    fn with_mut<E: CatalogExt, F: FnOnce(&mut AudioConfig)>(
        catalog: &mut Catalog<E>,
        name: &str,
        f: F,
    ) {
        catalog.audio.renditions.update(name, f);
    }

    fn remove<E: CatalogExt>(catalog: &mut Catalog<E>, name: &str) {
        catalog.audio.renditions.remove(name);
        assert(catalog@.renditions.audio =~= old(catalog)@.renditions.audio.remove(name@));
    }

    fn apply_hint(config: &mut AudioConfig, hint: &AudioHint) -> Result<(), MuxError> {
        hint.apply(config)
    }
}

} // verus!
