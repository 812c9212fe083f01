//! The catalog of a broadcast: its renditions and how to decode them.

pub mod clock;
pub mod codec;
pub mod config;
pub mod publisher;
pub mod publishing;
pub mod hint;
pub mod kind;
pub mod laws;
pub mod model;
pub mod producer;
mod sealed;
pub mod tracks;

pub use codec::{AudioCodec, VideoCodec};
pub use config::{AudioConfig, Container, Double, Timeline, VideoConfig};
pub use hint::{AudioHint, VideoHint};
pub use kind::{Audio, Kind, Video};
pub use model::{AudioSection, Catalog, CatalogExt, Display, Extra, VideoSection};
pub use producer::Producer;
pub use tracks::{AudioTrack, Rendition, Reserved, VideoTrack};
