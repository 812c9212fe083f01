//! Initial bytes and catalog fields of a media track.

use crate::catalog::config::copy_bytes;
use crate::catalog::hint::{AudioHint, AudioHintView, VideoHint, VideoHintView};
use vstd::prelude::*;

verus! {

/// Initial bytes and optional catalog fields for a single media track.
///
/// `format` selects the codec or container parser. `data` carries the usual codec or container
/// init bytes when available. `audio` or `video` can provide the catalog fields up front, letting
/// single-track importers publish their catalog entry before the first encoded frame when the
/// required fields are complete.
#[derive(Debug, PartialEq)]
#[non_exhaustive]
pub struct Init {
    /// The media format, e.g. `aac`, `opus`, `avc3`, or `fmp4`.
    pub format: String,
    /// Codec or container initialization bytes.
    pub data: Vec<u8>,
    /// Optional audio catalog fields for single audio tracks.
    pub audio: Option<AudioHint>,
    /// Optional video catalog fields for single video tracks.
    pub video: Option<VideoHint>,
}

/// The mathematical form of an [`Init`].
pub struct InitView {
    pub format: Seq<char>,
    pub data: Seq<u8>,
    pub audio: Option<AudioHintView>,
    pub video: Option<VideoHintView>,
}

impl View for Init {
    type V = InitView;

    open spec fn view(&self) -> InitView {
        InitView {
            format: self.format@,
            data: self.data@,
            audio: crate::catalog::config::optional(self.audio),
            video: crate::catalog::config::optional(self.video),
        }
    }
}

impl Init {
    /// Create an init value with only a format and byte buffer.
    pub fn new(format: String, data: Vec<u8>) -> (init: Self)
        ensures
            init@ == (InitView { format: format@, data: data@, audio: None, video: None }),
    {
        Init { format, data, audio: None, video: None }
    }

    /// Add optional audio catalog fields.
    pub fn with_audio(self, hint: AudioHint) -> (init: Self)
        ensures
            init@ == (InitView { audio: Some(hint@), ..self@ }),
    {
        Init { audio: Some(hint), ..self }
    }

    /// Add optional video catalog fields.
    pub fn with_video(self, hint: VideoHint) -> (init: Self)
        ensures
            init@ == (InitView { video: Some(hint@), ..self@ }),
    {
        Init { video: Some(hint), ..self }
    }
}

impl Default for Init {
    fn default() -> (init: Self)
        ensures
            init@ == (InitView {
                format: Seq::empty(),
                data: Seq::empty(),
                audio: None,
                video: None,
            }),
    {
        Init::new(String::new(), Vec::new())
    }
}

impl Clone for Init {
    fn clone(&self) -> (copy: Self)
        ensures
            copy@ == self@,
    {
        let audio = match &self.audio {
            Some(hint) => Some(hint.clone()),
            None => None,
        };
        let video = match &self.video {
            Some(hint) => Some(hint.clone()),
            None => None,
        };
        Init { format: self.format.clone(), data: copy_bytes(&self.data), audio, video }
    }
}

} // verus!
