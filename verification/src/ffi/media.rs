//! Media descriptions for callers in other languages.

use crate::catalog::codec::{audio_codec_from_str, AudioCodec, CodecView, VideoCodec};
use crate::catalog::codec::{splits_a_character, video_codec_from_str};
use crate::catalog::config::{
    copy_bytes, copy_optional_bytes, AudioConfig, AudioConfigView, ContainerView, Double,
    VideoConfig, VideoConfigView,
};
use crate::catalog::hint::{AudioHint, AudioHintView, VideoHint, VideoHintView};
use crate::catalog::model::{Catalog, CatalogView, Display, Extra};
use crate::ffi::error::MoqError;
use crate::import::init::{Init, InitView};
use crate::names::NameMap;
use crate::time::Duration;
use vstd::prelude::*;
use vstd::string::*;

verus! {

/// A size in pixels, or an aspect ratio.
#[derive(Clone, Copy, Debug, PartialEq, Eq, Structural)]
pub struct MoqDimensions {
    pub width: u32,
    pub height: u32,
}

/// How frames are packed.
#[derive(Debug, PartialEq, Eq)]
pub enum Container {
    Legacy,
    Cmaf { init: Vec<u8> },
    Loc,
}

impl View for Container {
    type V = ContainerView;

    open spec fn view(&self) -> ContainerView {
        match self {
            Container::Legacy => ContainerView::Legacy,
            Container::Cmaf { init } => ContainerView::Cmaf { init: init@ },
            Container::Loc => ContainerView::Loc,
        }
    }
}

impl From<crate::catalog::config::Container> for Container {
    fn from(container: crate::catalog::config::Container) -> (converted: Self) {
        match container {
            crate::catalog::config::Container::Legacy => Container::Legacy,
            crate::catalog::config::Container::Cmaf { init } => Container::Cmaf { init },
            crate::catalog::config::Container::Loc => Container::Loc,
        }
    }
}

impl vstd::std_specs::convert::FromSpecImpl<crate::catalog::config::Container> for Container {
    open spec fn obeys_from_spec() -> bool {
        true
    }

    open spec fn from_spec(container: crate::catalog::config::Container) -> Self {
        match container {
            crate::catalog::config::Container::Legacy => Container::Legacy,
            crate::catalog::config::Container::Cmaf { init } => Container::Cmaf { init },
            crate::catalog::config::Container::Loc => Container::Loc,
        }
    }
}

impl From<Container> for crate::catalog::config::Container {
    fn from(container: Container) -> (converted: Self) {
        match container {
            Container::Legacy => crate::catalog::config::Container::Legacy,
            Container::Cmaf { init } => crate::catalog::config::Container::Cmaf { init },
            Container::Loc => crate::catalog::config::Container::Loc,
        }
    }
}

impl vstd::std_specs::convert::FromSpecImpl<Container> for crate::catalog::config::Container {
    open spec fn obeys_from_spec() -> bool {
        true
    }

    open spec fn from_spec(container: Container) -> Self {
        match container {
            Container::Legacy => crate::catalog::config::Container::Legacy,
            Container::Cmaf { init } => crate::catalog::config::Container::Cmaf { init },
            Container::Loc => crate::catalog::config::Container::Loc,
        }
    }
}

fn container_from(container: Option<Container>) -> (converted: Option<
    crate::catalog::config::Container,
>)
    ensures
        crate::catalog::config::optional(converted) == crate::catalog::config::optional(container),
{
    match container {
        Some(c) => Some(crate::catalog::config::Container::from(c)),
        None => None,
    }
}

/// A catalog, for callers in other languages.
pub struct MoqCatalog {
    pub video: NameMap<MoqVideo>,
    pub audio: NameMap<MoqAudio>,
    pub display: Option<MoqDimensions>,
    pub rotation: Option<Double>,
    pub flip: Option<bool>,
    /// Untyped application catalog sections, keyed by section name, each value a JSON string.
    pub sections: NameMap<String>,
}

/// A video rendition, for callers in other languages.
#[derive(Debug)]
pub struct MoqVideo {
    pub codec: String,
    pub description: Option<Vec<u8>>,
    pub coded: Option<MoqDimensions>,
    pub display_aspect: Option<MoqDimensions>,
    pub bitrate: Option<u64>,
    pub framerate: Option<Double>,
    pub container: Container,
}

/// An audio rendition, for callers in other languages.
#[derive(Debug)]
pub struct MoqAudio {
    pub codec: String,
    pub description: Option<Vec<u8>>,
    pub sample_rate: u32,
    pub channel_count: u32,
    pub bitrate: Option<u64>,
    pub container: Container,
}

/// What an importer starts from, for callers in other languages.
#[derive(Debug)]
pub struct MoqInit {
    pub format: String,
    pub data: Vec<u8>,
    pub audio: Option<MoqAudioHint>,
    pub video: Option<MoqVideoHint>,
}

/// Optional catalog fields for an audio track, for callers in other languages.
#[derive(Debug)]
pub struct MoqAudioHint {
    pub codec: Option<String>,
    pub description: Option<Vec<u8>>,
    pub sample_rate: Option<u32>,
    pub channel_count: Option<u32>,
    pub bitrate: Option<u64>,
    pub container: Option<Container>,
    pub jitter_ms: Option<u64>,
}

/// Optional catalog fields for a video track, for callers in other languages.
#[derive(Debug)]
pub struct MoqVideoHint {
    pub codec: Option<String>,
    pub description: Option<Vec<u8>>,
    pub coded: Option<MoqDimensions>,
    pub display_aspect: Option<MoqDimensions>,
    pub bitrate: Option<u64>,
    pub framerate: Option<Double>,
    pub optimize_for_latency: Option<bool>,
    pub container: Option<Container>,
    pub jitter_ms: Option<u64>,
}

/// A media frame.
#[derive(Debug, PartialEq, Eq)]
pub struct MoqFrame {
    pub payload: Vec<u8>,
    pub timestamp_us: u64,
    pub keyframe: bool,
}

/// What parsing a codec string gave: the codec, or the text of the error.
pub open spec fn parsed<C: View>(codec: Option<Result<C, String>>) -> Option<
    Result<C::V, Seq<char>>,
> {
    match codec {
        Some(Ok(c)) => Some(Ok(c@)),
        Some(Err(e)) => Some(Err(e@)),
        None => None,
    }
}

/// The length of `millis` milliseconds, where there are any.
pub open spec fn jitter_of(millis: Option<u64>) -> Option<Duration> {
    match millis {
        Some(ms) => Some(Duration::of_millis(ms)),
        None => None,
    }
}

fn jitter_from(millis: Option<u64>) -> (jitter: Option<Duration>)
    ensures
        jitter == jitter_of(millis),
{
    match millis {
        Some(ms) => Some(Duration::from_millis(ms)),
        None => None,
    }
}

pub open spec fn width_of(size: Option<MoqDimensions>) -> Option<u32> {
    match size {
        Some(d) => Some(d.width),
        None => None,
    }
}

pub open spec fn height_of(size: Option<MoqDimensions>) -> Option<u32> {
    match size {
        Some(d) => Some(d.height),
        None => None,
    }
}

fn width(size: &Option<MoqDimensions>) -> (w: Option<u32>)
    ensures
        w == width_of(*size),
{
    match size {
        Some(d) => Some(d.width),
        None => None,
    }
}

fn height(size: &Option<MoqDimensions>) -> (h: Option<u32>)
    ensures
        h == height_of(*size),
{
    match size {
        Some(d) => Some(d.height),
        None => None,
    }
}

impl MoqAudioHint {
    /// The fields of this hint, with its codec parsed to `codec`.
    pub open spec fn fields(self, codec: Option<CodecView>) -> AudioHintView {
        AudioHintView {
            codec,
            description: crate::catalog::config::optional(self.description),
            sample_rate: self.sample_rate,
            channel_count: self.channel_count,
            bitrate: self.bitrate,
            container: crate::catalog::config::optional(self.container),
            jitter: jitter_of(self.jitter_ms),
        }
    }

    /// What becomes of this hint when parsing its codec string gives `codec`.
    pub open spec fn converted(self, codec: Option<Result<CodecView, Seq<char>>>) -> Result<
        AudioHintView,
        Seq<char>,
    > {
        match codec {
            Some(Err(e)) => Err("invalid audio codec: "@ + e),
            Some(Ok(c)) => Ok(self.fields(Some(c))),
            None => Ok(self.fields(None)),
        }
    }

    /// What the codec string of this hint parses to.
    pub open spec fn parsed_codec(self) -> Option<Result<CodecView, Seq<char>>> {
        match self.codec {
            Some(text) => Some(crate::catalog::codec::audio_codec_of(text@)),
            None => None,
        }
    }

    /// This hint with its codec parsed to `codec`.
    pub fn convert(self, codec: Option<Result<AudioCodec, String>>) -> (hint: Result<
        AudioHint,
        MoqError,
    >)
        ensures
            crate::ffi::error::told(hint) == self.converted(parsed(codec)),
    {
        let codec = match codec {
            Some(Ok(c)) => Some(c),
            Some(Err(err)) => {
                let mut text = "invalid audio codec: ".to_owned();
                text.append(err.as_str());
                return Err(MoqError::Codec(text));
            },
            None => None,
        };
        let mut out = AudioHint::default();
        out.codec = codec;
        out.description = self.description;
        out.sample_rate = self.sample_rate;
        out.channel_count = self.channel_count;
        out.bitrate = self.bitrate;
        out.container = container_from(self.container);
        out.jitter = jitter_from(self.jitter_ms);
        Ok(out)
    }
}

impl AudioHint {
    /// The hint that a caller in another language provided. Fails where its codec string is
    /// refused.
    pub fn try_from(hint: MoqAudioHint) -> (out: Result<AudioHint, MoqError>)
        ensures
            crate::ffi::error::told(out) == hint.converted(hint.parsed_codec()),
            !(hint.codec matches Some(text) && crate::catalog::codec::has_audio_parameters(text@))
                ==> out is Ok,
            hint.codec matches Some(text) ==> !crate::catalog::codec::has_audio_parameters(text@)
                ==> (out matches Ok(o) && o@.codec is Some && o@.codec.unwrap().mime == text@),
    {
        let codec = match &hint.codec {
            Some(text) => Some(audio_codec_from_str(text.as_str())),
            None => None,
        };
        hint.convert(codec)
    }
}

impl MoqVideoHint {
    /// The fields of this hint, with its codec parsed to `codec`.
    pub open spec fn fields(self, codec: Option<CodecView>) -> VideoHintView {
        VideoHintView {
            codec,
            description: crate::catalog::config::optional(self.description),
            coded_width: width_of(self.coded),
            coded_height: height_of(self.coded),
            display_aspect_width: width_of(self.display_aspect),
            display_aspect_height: height_of(self.display_aspect),
            bitrate: self.bitrate,
            framerate: self.framerate,
            optimize_for_latency: self.optimize_for_latency,
            container: crate::catalog::config::optional(self.container),
            jitter: jitter_of(self.jitter_ms),
        }
    }

    /// What becomes of this hint when parsing its codec string gives `codec`.
    pub open spec fn converted(self, codec: Option<Result<CodecView, Seq<char>>>) -> Result<
        VideoHintView,
        Seq<char>,
    > {
        match codec {
            Some(Err(e)) => Err("invalid video codec: "@ + e),
            Some(Ok(c)) => Ok(self.fields(Some(c))),
            None => Ok(self.fields(None)),
        }
    }

    /// What the codec string of this hint parses to.
    pub open spec fn parsed_codec(self) -> Option<Result<CodecView, Seq<char>>> {
        match self.codec {
            Some(text) => Some(crate::catalog::codec::video_codec_of(text@)),
            None => None,
        }
    }

    /// The codec string of this hint can be parsed: that cuts no character in two.
    pub open spec fn parseable(self) -> bool {
        match self.codec {
            Some(text) => !crate::catalog::codec::cuts_a_character(
                vstd::utf8::encode_utf8(text@),
            ),
            None => true,
        }
    }

    /// Whether the codec string of this hint can be parsed.
    pub fn is_parseable(&self) -> (yes: bool)
        ensures
            yes == self.parseable(),
    {
        match &self.codec {
            Some(text) => !splits_a_character(text.as_str()),
            None => true,
        }
    }

    /// This hint with its codec parsed to `codec`.
    pub fn convert(self, codec: Option<Result<VideoCodec, String>>) -> (hint: Result<
        VideoHint,
        MoqError,
    >)
        ensures
            crate::ffi::error::told(hint) == self.converted(parsed(codec)),
    {
        let codec = match codec {
            Some(Ok(c)) => Some(c),
            Some(Err(err)) => {
                let mut text = "invalid video codec: ".to_owned();
                text.append(err.as_str());
                return Err(MoqError::Codec(text));
            },
            None => None,
        };
        let mut out = VideoHint::default();
        out.codec = codec;
        out.coded_width = width(&self.coded);
        out.coded_height = height(&self.coded);
        out.display_aspect_width = width(&self.display_aspect);
        out.display_aspect_height = height(&self.display_aspect);
        out.description = self.description;
        out.bitrate = self.bitrate;
        out.framerate = self.framerate;
        out.optimize_for_latency = self.optimize_for_latency;
        out.container = container_from(self.container);
        out.jitter = jitter_from(self.jitter_ms);
        Ok(out)
    }
}

impl VideoHint {
    /// The hint that a caller in another language provided. Fails where its codec string is
    /// refused.
    pub fn try_from(hint: MoqVideoHint) -> (out: Result<VideoHint, MoqError>)
        requires
            hint.parseable(),
        ensures
            crate::ffi::error::told(out) == hint.converted(hint.parsed_codec()),
            !(hint.codec matches Some(text) && crate::catalog::codec::has_video_parameters(text@))
                ==> out is Ok,
            hint.codec matches Some(text) ==> !crate::catalog::codec::has_video_parameters(text@)
                ==> (out matches Ok(o) && o@.codec is Some && o@.codec.unwrap().mime == text@),
    {
        let codec = match &hint.codec {
            Some(text) => Some(video_codec_from_str(text.as_str())),
            None => None,
        };
        hint.convert(codec)
    }
}

impl MoqInit {
    /// What becomes of this value when its hints convert to `audio` and `video`. The audio hint
    /// is looked at first.
    pub open spec fn converted(
        self,
        audio: Option<Result<AudioHintView, Seq<char>>>,
        video: Option<Result<VideoHintView, Seq<char>>>,
    ) -> Result<InitView, Seq<char>> {
        match (audio, video) {
            (Some(Err(e)), _) => Err(e),
            (_, Some(Err(e))) => Err(e),
            _ => Ok(
                InitView {
                    format: self.format@,
                    data: self.data@,
                    audio: match audio {
                        Some(Ok(hint)) => Some(hint),
                        _ => None,
                    },
                    video: match video {
                        Some(Ok(hint)) => Some(hint),
                        _ => None,
                    },
                },
            ),
        }
    }

    /// What becomes of the audio hint.
    pub open spec fn audio_outcome(self) -> Option<Result<AudioHintView, Seq<char>>> {
        match self.audio {
            Some(hint) => Some(hint.converted(hint.parsed_codec())),
            None => None,
        }
    }

    /// What becomes of the video hint.
    pub open spec fn video_outcome(self) -> Option<Result<VideoHintView, Seq<char>>> {
        match self.video {
            Some(hint) => Some(hint.converted(hint.parsed_codec())),
            None => None,
        }
    }

    /// The audio hint is refused, or the codec string of the video hint can be parsed.
    pub open spec fn parseable(self) -> bool {
        self.audio_outcome() matches Some(Err(_)) || match self.video {
            Some(hint) => hint.parseable(),
            None => true,
        }
    }
}

impl Init {
    /// The value that a caller in another language provided. Fails where a codec string is
    /// refused.
    pub fn try_from(init: MoqInit) -> (out: Result<Init, MoqError>)
        requires
            init.parseable(),
        ensures
            crate::ffi::error::told(out) == init.converted(
                init.audio_outcome(),
                init.video_outcome(),
            ),
    {
        let mut out = Init::new(init.format, init.data);
        if let Some(hint) = init.audio {
            match AudioHint::try_from(hint) {
                Ok(audio) => {
                    out.audio = Some(audio);
                },
                Err(err) => return Err(err),
            }
        }
        if let Some(hint) = init.video {
            match VideoHint::try_from(hint) {
                Ok(video) => {
                    out.video = Some(video);
                },
                Err(err) => return Err(err),
            }
        }
        Ok(out)
    }

    /// Like [`try_from`](Self::try_from), but without a value where the codec string of the video
    /// hint cannot be parsed.
    pub fn checked_from(init: MoqInit) -> (out: Option<Result<Init, MoqError>>)
        ensures
            match out {
                Some(result) => init.parseable() && crate::ffi::error::told(result)
                    == init.converted(init.audio_outcome(), init.video_outcome()),
                None => !init.parseable(),
            },
    {
        let refused = match &init.audio {
            Some(hint) => match &hint.codec {
                Some(text) => audio_codec_from_str(text.as_str()).is_err(),
                None => false,
            },
            None => false,
        };
        let parseable = match &init.video {
            Some(hint) => hint.is_parseable(),
            None => true,
        };
        if refused || parseable {
            Some(Init::try_from(init))
        } else {
            None
        }
    }
}

/// The mathematical form of a [`MoqVideo`].
pub struct MoqVideoView {
    pub codec: Seq<char>,
    pub description: Option<Seq<u8>>,
    pub coded: Option<MoqDimensions>,
    pub display_aspect: Option<MoqDimensions>,
    pub bitrate: Option<u64>,
    pub framerate: Option<Double>,
    pub container: ContainerView,
}

impl View for MoqVideo {
    type V = MoqVideoView;

    open spec fn view(&self) -> MoqVideoView {
        MoqVideoView {
            codec: self.codec@,
            description: crate::catalog::config::optional(self.description),
            coded: self.coded,
            display_aspect: self.display_aspect,
            bitrate: self.bitrate,
            framerate: self.framerate,
            container: self.container@,
        }
    }
}

/// The mathematical form of a [`MoqAudio`].
pub struct MoqAudioView {
    pub codec: Seq<char>,
    pub description: Option<Seq<u8>>,
    pub sample_rate: u32,
    pub channel_count: u32,
    pub bitrate: Option<u64>,
    pub container: ContainerView,
}

impl View for MoqAudio {
    type V = MoqAudioView;

    open spec fn view(&self) -> MoqAudioView {
        MoqAudioView {
            codec: self.codec@,
            description: crate::catalog::config::optional(self.description),
            sample_rate: self.sample_rate,
            channel_count: self.channel_count,
            bitrate: self.bitrate,
            container: self.container@,
        }
    }
}

/// The mathematical form of a [`MoqCatalog`].
#[verifier::ext_equal]
pub struct MoqCatalogView {
    pub video: Map<Seq<char>, MoqVideoView>,
    pub audio: Map<Seq<char>, MoqAudioView>,
    pub display: Option<MoqDimensions>,
    pub rotation: Option<Double>,
    pub flip: Option<bool>,
    pub sections: Map<Seq<char>, Seq<char>>,
}

impl View for MoqCatalog {
    type V = MoqCatalogView;

    open spec fn view(&self) -> MoqCatalogView {
        MoqCatalogView {
            video: crate::names::values(self.video@),
            audio: crate::names::values(self.audio@),
            display: self.display,
            rotation: self.rotation,
            flip: self.flip,
            sections: crate::names::values(self.sections@),
        }
    }
}

impl Clone for Container {
    fn clone(&self) -> (copy: Self)
        ensures
            copy@ == self@,
    {
        match self {
            Container::Legacy => Container::Legacy,
            Container::Cmaf { init } => Container::Cmaf { init: copy_bytes(init) },
            Container::Loc => Container::Loc,
        }
    }
}

fn copy_container(container: &Option<Container>) -> (copy: Option<Container>)
    ensures
        crate::catalog::config::optional(copy) == crate::catalog::config::optional(*container),
{
    match container {
        Some(c) => Some(c.clone()),
        None => None,
    }
}

fn copy_text(text: &Option<String>) -> (copy: Option<String>)
    ensures
        copy == *text,
{
    match text {
        Some(t) => Some(t.clone()),
        None => None,
    }
}

impl Clone for MoqVideo {
    fn clone(&self) -> (copy: Self)
        ensures
            copy@ == self@,
    {
        MoqVideo {
            codec: self.codec.clone(),
            description: copy_optional_bytes(&self.description),
            coded: self.coded,
            display_aspect: self.display_aspect,
            bitrate: self.bitrate,
            framerate: self.framerate,
            container: self.container.clone(),
        }
    }
}

impl Clone for MoqAudio {
    fn clone(&self) -> (copy: Self)
        ensures
            copy@ == self@,
    {
        MoqAudio {
            codec: self.codec.clone(),
            description: copy_optional_bytes(&self.description),
            sample_rate: self.sample_rate,
            channel_count: self.channel_count,
            bitrate: self.bitrate,
            container: self.container.clone(),
        }
    }
}

impl Clone for MoqAudioHint {
    fn clone(&self) -> (copy: Self)
        ensures
            copy.codec == self.codec,
            forall|codec: Option<CodecView>| #[trigger] copy.fields(codec) == self.fields(codec),
    {
        MoqAudioHint {
            codec: copy_text(&self.codec),
            description: copy_optional_bytes(&self.description),
            sample_rate: self.sample_rate,
            channel_count: self.channel_count,
            bitrate: self.bitrate,
            container: copy_container(&self.container),
            jitter_ms: self.jitter_ms,
        }
    }
}

impl Clone for MoqVideoHint {
    fn clone(&self) -> (copy: Self)
        ensures
            copy.codec == self.codec,
            forall|codec: Option<CodecView>| #[trigger] copy.fields(codec) == self.fields(codec),
    {
        MoqVideoHint {
            codec: copy_text(&self.codec),
            description: copy_optional_bytes(&self.description),
            coded: self.coded,
            display_aspect: self.display_aspect,
            bitrate: self.bitrate,
            framerate: self.framerate,
            optimize_for_latency: self.optimize_for_latency,
            container: copy_container(&self.container),
            jitter_ms: self.jitter_ms,
        }
    }
}

impl Clone for MoqInit {
    fn clone(&self) -> (copy: Self)
        ensures
            copy.format@ == self.format@,
            copy.data@ == self.data@,
            copy.audio_outcome() == self.audio_outcome(),
            copy.video_outcome() == self.video_outcome(),
            copy.parseable() == self.parseable(),
    {
        let audio = match &self.audio {
            Some(hint) => {
                let copy = hint.clone();
                assert(copy.fields(None) == hint.fields(None));
                Some(copy)
            },
            None => None,
        };
        let video = match &self.video {
            Some(hint) => {
                let copy = hint.clone();
                assert(copy.fields(None) == hint.fields(None));
                Some(copy)
            },
            None => None,
        };
        MoqInit { format: self.format.clone(), data: copy_bytes(&self.data), audio, video }
    }
}

/// A size of which both sides are known.
pub open spec fn size_of(width: Option<u32>, height: Option<u32>) -> Option<MoqDimensions> {
    match (width, height) {
        (Some(width), Some(height)) => Some(MoqDimensions { width, height }),
        _ => None,
    }
}

fn size(width: Option<u32>, height: Option<u32>) -> (size: Option<MoqDimensions>)
    ensures
        size == size_of(width, height),
{
    match (width, height) {
        (Some(width), Some(height)) => Some(MoqDimensions { width, height }),
        _ => None,
    }
}

/// What a caller in another language sees of a video rendition.
pub open spec fn video_of(config: VideoConfigView) -> MoqVideoView {
    MoqVideoView {
        codec: config.codec.mime,
        description: config.description,
        coded: size_of(config.coded_width, config.coded_height),
        display_aspect: size_of(config.display_aspect_width, config.display_aspect_height),
        bitrate: config.bitrate,
        framerate: config.framerate,
        container: config.container,
    }
}

/// What a caller in another language sees of an audio rendition.
pub open spec fn audio_of(config: AudioConfigView) -> MoqAudioView {
    MoqAudioView {
        codec: config.codec.mime,
        description: config.description,
        sample_rate: config.sample_rate,
        channel_count: config.channel_count,
        bitrate: config.bitrate,
        container: config.container,
    }
}

/// What a caller in another language sees of a catalog.
pub open spec fn catalog_of(catalog: CatalogView<Map<Seq<char>, Seq<char>>>) -> MoqCatalogView {
    MoqCatalogView {
        video: catalog.renditions.video.map_values(|config: VideoConfigView| video_of(config)),
        audio: catalog.renditions.audio.map_values(|config: AudioConfigView| audio_of(config)),
        display: match catalog.display {
            Some(d) => Some(MoqDimensions { width: d.width, height: d.height }),
            None => None,
        },
        rotation: catalog.rotation,
        flip: catalog.flip,
        sections: catalog.ext,
    }
}

/// Two optional byte strings are the same: both absent, or both there with the same bytes.
pub open spec fn same_bytes(a: Option<Vec<u8>>, b: Option<Vec<u8>>) -> bool {
    match (a, b) {
        (Some(x), Some(y)) => x@ == y@,
        (None, None) => true,
        _ => false,
    }
}

/// A size holds both sides if both are known, and there is none if one is missing.
pub open spec fn holds_both(size: Option<MoqDimensions>, width: Option<u32>, height: Option<u32>) -> bool {
    &&& size is Some == (width is Some && height is Some)
    &&& size matches Some(d) ==> width == Some(d.width) && height == Some(d.height)
}

/// Both containers are of one kind, with the same bytes.
pub open spec fn same_container(a: crate::catalog::config::Container, b: Container) -> bool {
    match (a, b) {
        (crate::catalog::config::Container::Legacy, Container::Legacy) => true,
        (crate::catalog::config::Container::Cmaf { init: x }, Container::Cmaf { init: y }) => x@
            == y@,
        (crate::catalog::config::Container::Loc, Container::Loc) => true,
        _ => false,
    }
}

/// `video` shows every field of `config` that callers in other languages see.
pub open spec fn shows_video(config: VideoConfig, video: MoqVideo) -> bool {
    &&& video.codec@ == config.codec.mime@
    &&& same_bytes(config.description, video.description)
    &&& holds_both(video.coded, config.coded_width, config.coded_height)
    &&& holds_both(
        video.display_aspect,
        config.display_aspect_width,
        config.display_aspect_height,
    )
    &&& video.bitrate == config.bitrate
    &&& video.framerate == config.framerate
    &&& same_container(config.container, video.container)
}

/// `audio` shows every field of `config` that callers in other languages see.
pub open spec fn shows_audio(config: AudioConfig, audio: MoqAudio) -> bool {
    &&& audio.codec@ == config.codec.mime@
    &&& same_bytes(config.description, audio.description)
    &&& audio.sample_rate == config.sample_rate
    &&& audio.channel_count == config.channel_count
    &&& audio.bitrate == config.bitrate
    &&& same_container(config.container, audio.container)
}

fn convert_video(config: &VideoConfig) -> (video: MoqVideo)
    ensures
        video@ == video_of(config@),
        shows_video(*config, video),
{
    MoqVideo {
        codec: config.codec.mime.clone(),
        description: copy_optional_bytes(&config.description),
        coded: size(config.coded_width, config.coded_height),
        display_aspect: size(config.display_aspect_width, config.display_aspect_height),
        bitrate: config.bitrate,
        framerate: config.framerate,
        container: Container::from(config.container.clone()),
    }
}

fn convert_audio(config: &AudioConfig) -> (audio: MoqAudio)
    ensures
        audio@ == audio_of(config@),
        shows_audio(*config, audio),
{
    MoqAudio {
        codec: config.codec.mime.clone(),
        description: copy_optional_bytes(&config.description),
        sample_rate: config.sample_rate,
        channel_count: config.channel_count,
        bitrate: config.bitrate,
        container: Container::from(config.container.clone()),
    }
}

fn convert_display(display: Option<Display>) -> (size: Option<MoqDimensions>)
    ensures
        size == match display {
            Some(d) => Some(MoqDimensions { width: d.width, height: d.height }),
            None => None,
        },
{
    match display {
        Some(d) => Some(MoqDimensions { width: d.width, height: d.height }),
        None => None,
    }
}

/// The catalog, for callers in other languages.
pub fn convert_catalog(catalog: &Catalog<Extra>) -> (converted: MoqCatalog)
    ensures
        converted@ == catalog_of(catalog@),
        converted.video@.dom() == catalog.video.renditions@.dom(),
        forall|name: Seq<char>| #[trigger]
            catalog.video.renditions@.contains_key(name) ==> {
                let config = catalog.video.renditions@[name];
                let video = converted.video@[name];
                &&& video.codec@ == config.codec.mime@
                &&& video.description is Some == config.description is Some
                &&& config.description is Some ==> video.description.unwrap()@
                    == config.description.unwrap()@
                &&& video.coded is Some == (config.coded_width is Some && config.coded_height is Some)
                &&& video.coded matches Some(d) ==> config.coded_width == Some(d.width)
                    && config.coded_height == Some(d.height)
                &&& video.display_aspect is Some == (config.display_aspect_width is Some
                    && config.display_aspect_height is Some)
                &&& video.display_aspect matches Some(d) ==> config.display_aspect_width == Some(
                    d.width,
                ) && config.display_aspect_height == Some(d.height)
                &&& video.bitrate == config.bitrate
                &&& video.framerate == config.framerate
                &&& (video.container is Legacy) == (config.container is Legacy)
                &&& (video.container is Loc) == (config.container is Loc)
                &&& config.container matches crate::catalog::config::Container::Cmaf { init: a }
                    ==> (video.container matches Container::Cmaf { init: b } && b@ == a@)
            },
        converted.audio@.dom() == catalog.audio.renditions@.dom(),
        forall|name: Seq<char>| #[trigger]
            catalog.audio.renditions@.contains_key(name) ==> {
                let config = catalog.audio.renditions@[name];
                let audio = converted.audio@[name];
                &&& audio.codec@ == config.codec.mime@
                &&& audio.description is Some == config.description is Some
                &&& config.description is Some ==> audio.description.unwrap()@
                    == config.description.unwrap()@
                &&& audio.sample_rate == config.sample_rate
                &&& audio.channel_count == config.channel_count
                &&& audio.bitrate == config.bitrate
                &&& (audio.container is Legacy) == (config.container is Legacy)
                &&& (audio.container is Loc) == (config.container is Loc)
                &&& config.container matches crate::catalog::config::Container::Cmaf { init: a }
                    ==> (audio.container matches Container::Cmaf { init: b } && b@ == a@)
            },
        converted.display is Some == catalog.video.display is Some,
        catalog.video.display matches Some(d) ==> converted.display == Some(
            MoqDimensions { width: d.width, height: d.height },
        ),
        converted.rotation == catalog.video.rotation,
        converted.flip == catalog.video.flip,
        converted.sections@.dom() == catalog.ext.sections@.dom(),
        forall|name: Seq<char>| #[trigger]
            catalog.ext.sections@.contains_key(name) ==> converted.sections@[name]@
                == catalog.ext.sections@[name]@,
{
    let video = catalog.video.renditions.mapped(convert_video);
    let audio = catalog.audio.renditions.mapped(convert_audio);
    let converted = MoqCatalog {
        video,
        audio,
        display: convert_display(catalog.video.display),
        rotation: catalog.video.rotation,
        flip: catalog.video.flip,
        sections: catalog.ext.sections.duplicate(),
    };
    assert(converted@.video =~= catalog_of(catalog@).video);
    assert(converted@.audio =~= catalog_of(catalog@).audio);
    proof {
        let before = crate::names::values(catalog.ext.sections@);
        let after = crate::names::values(converted.sections@);
        assert(after == before);
        assert(converted.sections@.dom() =~= after.dom());
        assert(catalog.ext.sections@.dom() =~= before.dom());
        assert forall|name: Seq<char>| #[trigger]
            catalog.ext.sections@.contains_key(name) implies converted.sections@[name]@
            == catalog.ext.sections@[name]@ by {
            assert(before.contains_key(name));
            assert(after.contains_key(name));
            assert(after[name] == converted.sections@[name]@);
            assert(before[name] == catalog.ext.sections@[name]@);
        }
    }
    converted
}

/// A container survives the conversion and its inverse.
pub proof fn container_comes_back(
    container: crate::catalog::config::Container,
    converted: Container,
)
    requires
        converted == <Container as vstd::std_specs::convert::FromSpec<
            crate::catalog::config::Container,
        >>::from_spec(container),
    ensures
        <crate::catalog::config::Container as vstd::std_specs::convert::FromSpec<
            Container,
        >>::from_spec(converted) == container,
        converted@ == container@,
{
}

/// A converted catalog has the renditions of the catalog, each under its name.
pub proof fn converting_keeps_the_names(catalog: CatalogView<Map<Seq<char>, Seq<char>>>)
    ensures
        catalog_of(catalog).video.dom() == catalog.renditions.video.dom(),
        catalog_of(catalog).audio.dom() == catalog.renditions.audio.dom(),
        catalog_of(catalog).sections == catalog.ext,
{
    assert(catalog_of(catalog).video.dom() =~= catalog.renditions.video.dom());
    assert(catalog_of(catalog).audio.dom() =~= catalog.renditions.audio.dom());
}

} // verus!
