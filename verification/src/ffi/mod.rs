//! Plain records for callers in other languages.

pub mod error;
pub mod laws;
pub mod media;

pub use error::MoqError;
pub use media::{
    convert_catalog, Container, MoqAudio, MoqAudioHint, MoqCatalog, MoqDimensions, MoqFrame,
    MoqInit, MoqVideo, MoqVideoHint,
};
