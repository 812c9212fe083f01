//! The catalog itself.

use crate::catalog::config::{
    AudioConfig, AudioConfigView, Double, VideoConfig, VideoConfigView,
};
use crate::names::{Duplicate, NameMap};
use vstd::prelude::*;

verus! {

/// What an application adds to a catalog.
pub trait CatalogExt: Sized {
    /// The mathematical form of what is added.
    type Model;

    spec fn model(&self) -> Self::Model;

    fn copied(&self) -> (copy: Self)
        ensures
            copy.model() == self.model(),
    ;
}

impl CatalogExt for () {
    type Model = ();

    open spec fn model(&self) -> () {
        ()
    }

    fn copied(&self) -> () {
        ()
    }
}

/// Untyped catalog sections, each a JSON text under its name.
pub struct Extra {
    pub sections: NameMap<String>,
}

impl CatalogExt for Extra {
    type Model = Map<Seq<char>, Seq<char>>;

    open spec fn model(&self) -> Map<Seq<char>, Seq<char>> {
        crate::names::values(self.sections@)
    }

    fn copied(&self) -> Extra {
        Extra { sections: self.sections.duplicate() }
    }
}

impl Duplicate for VideoConfig {
    fn duplicate(&self) -> VideoConfig {
        self.clone()
    }
}

impl Duplicate for AudioConfig {
    fn duplicate(&self) -> AudioConfig {
        self.clone()
    }
}

/// A size in pixels.
#[derive(Clone, Copy, Debug, PartialEq, Eq, Structural)]
pub struct Display {
    pub width: u32,
    pub height: u32,
}

/// The video part of a catalog.
pub struct VideoSection {
    /// The renditions of the video, by track name.
    pub renditions: NameMap<VideoConfig>,
    /// The size at which to render the video.
    pub display: Option<Display>,
    /// The rotation in degrees.
    pub rotation: Option<Double>,
    /// Whether to mirror the video.
    pub flip: Option<bool>,
}

/// The audio part of a catalog.
pub struct AudioSection {
    /// The renditions of the audio, by track name.
    pub renditions: NameMap<AudioConfig>,
}

/// What a broadcast offers.
pub struct Catalog<E = ()> {
    pub video: VideoSection,
    pub audio: AudioSection,
    pub ext: E,
}

/// The renditions of a catalog, by track name.
#[verifier::ext_equal]
pub struct Renditions {
    pub video: Map<Seq<char>, VideoConfigView>,
    pub audio: Map<Seq<char>, AudioConfigView>,
}

/// The mathematical form of a [`Catalog`].
#[verifier::ext_equal]
pub struct CatalogView<X> {
    pub renditions: Renditions,
    pub display: Option<Display>,
    pub rotation: Option<Double>,
    pub flip: Option<bool>,
    pub ext: X,
}

impl<E: CatalogExt> View for Catalog<E> {
    type V = CatalogView<E::Model>;

    open spec fn view(&self) -> CatalogView<E::Model> {
        CatalogView {
            renditions: Renditions {
                video: crate::names::values(self.video.renditions@),
                audio: crate::names::values(self.audio.renditions@),
            },
            display: self.video.display,
            rotation: self.video.rotation,
            flip: self.video.flip,
            ext: self.ext.model(),
        }
    }
}

impl<X> CatalogView<X> {
    /// The catalog with its renditions replaced.
    pub open spec fn with(self, renditions: Renditions) -> Self {
        CatalogView { renditions, ..self }
    }
}

impl<E: CatalogExt> Catalog<E> {
    /// A catalog without renditions.
    pub fn new(ext: E) -> (catalog: Self)
        ensures
            catalog@ == (CatalogView {
                renditions: Renditions { video: Map::empty(), audio: Map::empty() },
                display: None,
                rotation: None,
                flip: None,
                ext: ext.model(),
            }),
    {
        let catalog = Catalog {
            video: VideoSection {
                renditions: NameMap::new(),
                display: None,
                rotation: None,
                flip: None,
            },
            audio: AudioSection { renditions: NameMap::new() },
            ext,
        };
        assert(catalog@.renditions.video =~= Map::empty());
        assert(catalog@.renditions.audio =~= Map::empty());
        catalog
    }

    /// A copy of the catalog.
    pub fn snapshot(&self) -> (copy: Self)
        ensures
            copy@ == self@,
    {
        Catalog {
            video: VideoSection {
                renditions: self.video.renditions.duplicate(),
                display: self.video.display,
                rotation: self.video.rotation,
                flip: self.video.flip,
            },
            audio: AudioSection { renditions: self.audio.renditions.duplicate() },
            ext: self.ext.copied(),
        }
    }
}

} // verus!
