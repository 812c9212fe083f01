//! How to decode a rendition.

use crate::catalog::codec::{AudioCodec, CodecView, VideoCodec};
use crate::time::Duration;
use vstd::prelude::*;

verus! {

/// The mathematical form of an optional value.
pub open spec fn optional<T: View>(value: Option<T>) -> Option<T::V> {
    match value {
        Some(v) => Some(v@),
        None => None,
    }
}

/// How frames are packed.
#[derive(Debug, PartialEq, Eq)]
pub enum Container {
    /// A timestamp followed by the raw codec payload.
    Legacy,
    /// Fragmented MP4, with its initialization segment.
    Cmaf { init: Vec<u8> },
    /// Low Overhead Container.
    Loc,
}

/// The mathematical form of a [`Container`].
pub enum ContainerView {
    Legacy,
    Cmaf { init: Seq<u8> },
    Loc,
}

impl View for Container {
    type V = ContainerView;

    open spec fn view(&self) -> ContainerView {
        match self {
            Container::Legacy => ContainerView::Legacy,
            Container::Cmaf { init } => ContainerView::Cmaf { init: init@ },
            Container::Loc => ContainerView::Loc,
        }
    }
}

impl Clone for Container {
    fn clone(&self) -> (copy: Self)
        ensures
            copy@ == self@,
    {
        match self {
            Container::Legacy => Container::Legacy,
            Container::Cmaf { init } => Container::Cmaf { init: copy_bytes(init) },
            Container::Loc => Container::Loc,
        }
    }
}

/// A copy of `bytes`.
pub fn copy_bytes(bytes: &Vec<u8>) -> (copy: Vec<u8>)
    ensures
        copy@ == bytes@,
{
    let copy = bytes.clone();
    assert(copy@ =~= bytes@);
    copy
}

/// A copy of `bytes`, where there are any.
pub fn copy_optional_bytes(bytes: &Option<Vec<u8>>) -> (copy: Option<Vec<u8>>)
    ensures
        optional(copy) == optional(*bytes),
{
    match bytes {
        Some(b) => Some(copy_bytes(b)),
        None => None,
    }
}

/// A double-precision number, as its 64 bits: the sign, eleven bits of exponent and 52 bits of
/// fraction.
#[derive(Clone, Copy, Debug)]
pub struct Double {
    pub bits: u64,
}

impl Double {
    /// The bits without the sign.
    pub open spec fn magnitude(self) -> int {
        self.bits as int % 0x8000_0000_0000_0000
    }

    /// Not a number: the exponent is all ones and the fraction is not zero.
    pub open spec fn is_nan(self) -> bool {
        self.magnitude() > 0x7ff0_0000_0000_0000
    }

    /// Both are the same number. Zero has two signs, and what is not a number equals nothing.
    pub open spec fn equals(self, other: Self) -> bool {
        &&& !self.is_nan()
        &&& !other.is_nan()
        &&& self.bits == other.bits || (self.magnitude() == 0 && other.magnitude() == 0)
    }

    /// Whether both are the same number.
    pub fn same(&self, other: &Double) -> (same: bool)
        ensures
            same == self.equals(*other),
    {
        let a: u64 = self.bits % 0x8000_0000_0000_0000;
        let b: u64 = other.bits % 0x8000_0000_0000_0000;
        a <= 0x7ff0_0000_0000_0000 && b <= 0x7ff0_0000_0000_0000 && (self.bits == other.bits || (a
            == 0 && b == 0))
    }
}

impl PartialEq for Double {
    fn eq(&self, other: &Double) -> (equal: bool) {
        self.same(other)
    }
}

impl vstd::std_specs::cmp::PartialEqSpecImpl for Double {
    open spec fn obeys_eq_spec() -> bool {
        true
    }

    open spec fn eq_spec(&self, other: &Double) -> bool {
        self.equals(*other)
    }
}

/// Describes a media track's companion timeline track.
#[derive(Debug, PartialEq, Eq)]
pub struct Timeline {
    /// The name of the track that carries the group timestamps.
    pub track: String,
    /// Units per second of the timestamps and of `wall`.
    pub timescale: u32,
    /// The wall-clock time of timestamp zero, in `timescale` units since the moq epoch.
    pub wall: Option<u64>,
}

/// The mathematical form of a [`Timeline`].
pub struct TimelineView {
    pub track: Seq<char>,
    pub timescale: u32,
    pub wall: Option<u64>,
}

impl View for Timeline {
    type V = TimelineView;

    open spec fn view(&self) -> TimelineView {
        TimelineView { track: self.track@, timescale: self.timescale, wall: self.wall }
    }
}

impl Clone for Timeline {
    fn clone(&self) -> (copy: Self)
        ensures
            copy@ == self@,
    {
        Timeline { track: self.track.clone(), timescale: self.timescale, wall: self.wall }
    }
}

fn copy_timeline(timeline: &Option<Timeline>) -> (copy: Option<Timeline>)
    ensures
        optional(copy) == optional(*timeline),
{
    match timeline {
        Some(t) => Some(t.clone()),
        None => None,
    }
}

/// How to decode an audio rendition.
#[derive(Debug, PartialEq)]
pub struct AudioConfig {
    pub codec: AudioCodec,
    /// The sample rate in Hz.
    pub sample_rate: u32,
    pub channel_count: u32,
    /// The bitrate in bits per second.
    pub bitrate: Option<u64>,
    /// Decoder-specific initialization bytes.
    pub description: Option<Vec<u8>>,
    pub container: Container,
    /// The maximum time before the next frame is emitted.
    pub jitter: Option<Duration>,
    /// The companion timeline track, if there is one.
    pub timeline: Option<Timeline>,
}

/// The mathematical form of an [`AudioConfig`].
pub struct AudioConfigView {
    pub codec: CodecView,
    pub sample_rate: u32,
    pub channel_count: u32,
    pub bitrate: Option<u64>,
    pub description: Option<Seq<u8>>,
    pub container: ContainerView,
    pub jitter: Option<Duration>,
    pub timeline: Option<TimelineView>,
}

impl View for AudioConfig {
    type V = AudioConfigView;

    open spec fn view(&self) -> AudioConfigView {
        AudioConfigView {
            codec: self.codec@,
            sample_rate: self.sample_rate,
            channel_count: self.channel_count,
            bitrate: self.bitrate,
            description: optional(self.description),
            container: self.container@,
            jitter: self.jitter,
            timeline: optional(self.timeline),
        }
    }
}

impl Clone for AudioConfig {
    fn clone(&self) -> (copy: Self)
        ensures
            copy@ == self@,
    {
        AudioConfig {
            codec: self.codec.clone(),
            sample_rate: self.sample_rate,
            channel_count: self.channel_count,
            bitrate: self.bitrate,
            description: copy_optional_bytes(&self.description),
            container: self.container.clone(),
            jitter: self.jitter,
            timeline: copy_timeline(&self.timeline),
        }
    }
}

impl AudioConfigView {
    /// The required fields, and nothing else.
    pub open spec fn bare(codec: CodecView, sample_rate: u32, channel_count: u32) -> Self {
        AudioConfigView {
            codec,
            sample_rate,
            channel_count,
            bitrate: None,
            description: None,
            container: ContainerView::Legacy,
            jitter: None,
            timeline: None,
        }
    }
}

impl AudioConfig {
    /// A config with the required fields set and every optional field cleared.
    pub fn new(codec: AudioCodec, sample_rate: u32, channel_count: u32) -> (config: Self)
        ensures
            config@ == AudioConfigView::bare(codec@, sample_rate, channel_count),
    {
        AudioConfig {
            codec,
            sample_rate,
            channel_count,
            bitrate: None,
            description: None,
            container: Container::Legacy,
            jitter: None,
            timeline: None,
        }
    }
}

/// How to decode a video rendition.
#[derive(Debug, PartialEq)]
pub struct VideoConfig {
    pub codec: VideoCodec,
    /// Decoder-specific initialization bytes.
    pub description: Option<Vec<u8>>,
    /// The encoded width in pixels.
    pub coded_width: Option<u32>,
    /// The encoded height in pixels.
    pub coded_height: Option<u32>,
    /// The display aspect ratio's width.
    pub display_aspect_width: Option<u32>,
    /// The display aspect ratio's height.
    pub display_aspect_height: Option<u32>,
    /// The bitrate in bits per second.
    pub bitrate: Option<u64>,
    /// The frame rate in frames per second.
    pub framerate: Option<Double>,
    /// Whether the decoder should optimize for latency.
    pub optimize_for_latency: Option<bool>,
    pub container: Container,
    /// The maximum time before the next frame is emitted.
    pub jitter: Option<Duration>,
    /// The companion timeline track, if there is one.
    pub timeline: Option<Timeline>,
}

/// The mathematical form of a [`VideoConfig`].
pub struct VideoConfigView {
    pub codec: CodecView,
    pub description: Option<Seq<u8>>,
    pub coded_width: Option<u32>,
    pub coded_height: Option<u32>,
    pub display_aspect_width: Option<u32>,
    pub display_aspect_height: Option<u32>,
    pub bitrate: Option<u64>,
    pub framerate: Option<Double>,
    pub optimize_for_latency: Option<bool>,
    pub container: ContainerView,
    pub jitter: Option<Duration>,
    pub timeline: Option<TimelineView>,
}

impl View for VideoConfig {
    type V = VideoConfigView;

    open spec fn view(&self) -> VideoConfigView {
        VideoConfigView {
            codec: self.codec@,
            description: optional(self.description),
            coded_width: self.coded_width,
            coded_height: self.coded_height,
            display_aspect_width: self.display_aspect_width,
            display_aspect_height: self.display_aspect_height,
            bitrate: self.bitrate,
            framerate: self.framerate,
            optimize_for_latency: self.optimize_for_latency,
            container: self.container@,
            jitter: self.jitter,
            timeline: optional(self.timeline),
        }
    }
}

impl Clone for VideoConfig {
    fn clone(&self) -> (copy: Self)
        ensures
            copy@ == self@,
    {
        VideoConfig {
            codec: self.codec.clone(),
            description: copy_optional_bytes(&self.description),
            coded_width: self.coded_width,
            coded_height: self.coded_height,
            display_aspect_width: self.display_aspect_width,
            display_aspect_height: self.display_aspect_height,
            bitrate: self.bitrate,
            framerate: self.framerate,
            optimize_for_latency: self.optimize_for_latency,
            container: self.container.clone(),
            jitter: self.jitter,
            timeline: copy_timeline(&self.timeline),
        }
    }
}

impl VideoConfigView {
    /// The required codec, and nothing else.
    pub open spec fn bare(codec: CodecView) -> Self {
        VideoConfigView {
            codec,
            description: None,
            coded_width: None,
            coded_height: None,
            display_aspect_width: None,
            display_aspect_height: None,
            bitrate: None,
            framerate: None,
            optimize_for_latency: None,
            container: ContainerView::Legacy,
            jitter: None,
            timeline: None,
        }
    }
}

impl VideoConfig {
    /// A config with the required codec set and every optional field cleared.
    pub fn new(codec: VideoCodec) -> (config: Self)
        ensures
            config@ == VideoConfigView::bare(codec@),
    {
        VideoConfig {
            codec,
            description: None,
            coded_width: None,
            coded_height: None,
            display_aspect_width: None,
            display_aspect_height: None,
            bitrate: None,
            framerate: None,
            optimize_for_latency: None,
            container: Container::Legacy,
            jitter: None,
            timeline: None,
        }
    }
}

} // verus!
