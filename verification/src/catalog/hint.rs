//! Catalog fields that a caller provides before the media does.

use crate::catalog::codec::{AudioCodec, CodecView, VideoCodec};
use crate::catalog::config::{
    copy_bytes, copy_optional_bytes, AudioConfig, AudioConfigView, Container, ContainerView, Double,
    VideoConfig, VideoConfigView,
};
use crate::error::{MuxError, FieldValue, FieldView, Mismatch};
use crate::time::Duration;
use vstd::prelude::*;

verus! {

/// A catalog field that can be held against another value of it.
pub trait Field {
    /// What an error shows of this value.
    spec fn shown(&self) -> FieldView;

    /// Both values are the same.
    spec fn agrees(&self, other: &Self) -> bool;

    fn show(&self) -> (value: FieldValue)
        ensures
            value@ == self.shown(),
    ;

    fn same(&self, other: &Self) -> (same: bool)
        ensures
            same == self.agrees(other),
    ;
}

impl Field for u32 {
    open spec fn shown(&self) -> FieldView {
        FieldView::Number(*self)
    }

    open spec fn agrees(&self, other: &Self) -> bool {
        *self == *other
    }

    fn show(&self) -> FieldValue {
        FieldValue::Number(*self)
    }

    fn same(&self, other: &Self) -> bool {
        *self == *other
    }
}

impl Field for AudioCodec {
    open spec fn shown(&self) -> FieldView {
        FieldView::Codec(self@.detail)
    }

    open spec fn agrees(&self, other: &Self) -> bool {
        self@.detail == other@.detail
    }

    fn show(&self) -> FieldValue {
        FieldValue::Codec(self.detail.clone())
    }

    fn same(&self, other: &Self) -> bool {
        self.detail == other.detail
    }
}

impl Field for VideoCodec {
    open spec fn shown(&self) -> FieldView {
        FieldView::Codec(self@.detail)
    }

    open spec fn agrees(&self, other: &Self) -> bool {
        self@.detail == other@.detail
    }

    fn show(&self) -> FieldValue {
        FieldValue::Codec(self.detail.clone())
    }

    fn same(&self, other: &Self) -> bool {
        self.detail == other.detail
    }
}

fn same_bytes(a: &Vec<u8>, b: &Vec<u8>) -> (same: bool)
    ensures
        same == (a@ == b@),
{
    if a.len() != b.len() {
        return false;
    }
    let mut i: usize = 0;
    while i < a.len()
        invariant
            i <= a@.len(),
            a@.len() == b@.len(),
            forall|j: int| 0 <= j < i ==> a@[j] == b@[j],
        decreases a@.len() - i,
    {
        if a[i] != b[i] {
            return false;
        }
        i = i + 1;
    }
    assert(a@ =~= b@);
    true
}

impl Field for Vec<u8> {
    open spec fn shown(&self) -> FieldView {
        FieldView::Bytes(self@)
    }

    open spec fn agrees(&self, other: &Self) -> bool {
        self@ == other@
    }

    fn show(&self) -> FieldValue {
        FieldValue::Bytes(copy_bytes(self))
    }

    fn same(&self, other: &Self) -> bool {
        same_bytes(self, other)
    }
}

impl Field for Container {
    open spec fn shown(&self) -> FieldView {
        FieldView::Container(self@)
    }

    open spec fn agrees(&self, other: &Self) -> bool {
        self@ == other@
    }

    fn show(&self) -> FieldValue {
        FieldValue::Container(self.clone())
    }

    fn same(&self, other: &Self) -> bool {
        match (self, other) {
            (Container::Legacy, Container::Legacy) => true,
            (Container::Cmaf { init: a }, Container::Cmaf { init: b }) => same_bytes(a, b),
            (Container::Loc, Container::Loc) => true,
            _ => false,
        }
    }
}

impl Field for Double {
    open spec fn shown(&self) -> FieldView {
        FieldView::Rate(*self)
    }

    open spec fn agrees(&self, other: &Self) -> bool {
        self.equals(*other)
    }

    fn show(&self) -> FieldValue {
        FieldValue::Rate(*self)
    }

    fn same(&self, other: &Self) -> bool {
        Double::same(self, other)
    }
}

/// Hold `actual` against what is expected of `field`.
pub fn check_field<T: Field>(field: &'static str, actual: &T, expected: &T) -> (result: Result<
    (),
    MuxError,
>)
    ensures
        match result {
            Ok(_) => actual.agrees(expected),
            Err(e) => !actual.agrees(expected) && e.reports(
                Mismatch {
                    field: field@,
                    actual: actual.shown(),
                    expected: expected.shown(),
                },
            ),
        },
{
    if !actual.same(expected) {
        return Err(
            MuxError::InitMismatch { field, actual: actual.show(), expected: expected.show() },
        );
    }
    Ok(())
}

/// A check that a codec is the expected one, if one is expected.
pub open spec fn codec_check(
    field: Seq<char>,
    actual: CodecView,
    expected: Option<CodecView>,
) -> Option<Mismatch> {
    match expected {
        Some(e) if actual.detail != e.detail => Some(
            Mismatch {
                field,
                actual: FieldView::Codec(actual.detail),
                expected: FieldView::Codec(e.detail),
            },
        ),
        _ => None,
    }
}

/// A check that a number, if there is one, is the expected one, if one is expected.
pub open spec fn number_check(
    field: Seq<char>,
    actual: Option<u32>,
    expected: Option<u32>,
) -> Option<Mismatch> {
    match (actual, expected) {
        (Some(a), Some(e)) if a != e => Some(
            Mismatch { field, actual: FieldView::Number(a), expected: FieldView::Number(e) },
        ),
        _ => None,
    }
}

/// A check that the bytes, if there are any, are the expected ones, if any are expected.
pub open spec fn bytes_check(
    field: Seq<char>,
    actual: Option<Seq<u8>>,
    expected: Option<Seq<u8>>,
) -> Option<Mismatch> {
    match (actual, expected) {
        (Some(a), Some(e)) if a != e => Some(
            Mismatch { field, actual: FieldView::Bytes(a), expected: FieldView::Bytes(e) },
        ),
        _ => None,
    }
}

/// A check that a rate, if there is one, is the expected one, if one is expected.
pub open spec fn rate_check(
    field: Seq<char>,
    actual: Option<Double>,
    expected: Option<Double>,
) -> Option<Mismatch> {
    match (actual, expected) {
        (Some(a), Some(e)) if !a.equals(e) => Some(
            Mismatch { field, actual: FieldView::Rate(a), expected: FieldView::Rate(e) },
        ),
        _ => None,
    }
}

/// A check that a container is the expected one, if one is expected.
pub open spec fn container_check(
    field: Seq<char>,
    actual: ContainerView,
    expected: Option<ContainerView>,
) -> Option<Mismatch> {
    match expected {
        Some(e) if actual != e => Some(
            Mismatch {
                field,
                actual: FieldView::Container(actual),
                expected: FieldView::Container(e),
            },
        ),
        _ => None,
    }
}

/// Every check passes.
pub open spec fn all_pass(checks: Seq<Option<Mismatch>>) -> bool {
    forall|i: int| 0 <= i < checks.len() ==> #[trigger] checks[i] is None
}

/// Check `step` is the first that does not pass.
pub open spec fn stops_at(checks: Seq<Option<Mismatch>>, step: int) -> bool {
    &&& 0 <= step < checks.len()
    &&& checks[step] is Some
    &&& forall|i: int| 0 <= i < step ==> #[trigger] checks[i] is None
}

/// The value that a field takes at a step: the provided one, where there is one and the step is
/// among the first `done`.
pub open spec fn merged_field<T>(
    provided: Option<T>,
    current: Option<T>,
    step: int,
    done: int,
) -> Option<T> {
    if step < done && provided is Some {
        provided
    } else {
        current
    }
}

/// Optional catalog fields for an audio track.
#[derive(Debug, PartialEq)]
#[non_exhaustive]
pub struct AudioHint {
    /// The audio codec.
    pub codec: Option<AudioCodec>,
    /// Decoder-specific initialization bytes.
    pub description: Option<Vec<u8>>,
    /// The sample rate in Hz.
    pub sample_rate: Option<u32>,
    /// The number of audio channels.
    pub channel_count: Option<u32>,
    /// The maximum bitrate in bits per second.
    pub bitrate: Option<u64>,
    /// The frame container used on the track.
    pub container: Option<Container>,
    /// The maximum time before the next frame is emitted.
    pub jitter: Option<Duration>,
}

/// The mathematical form of an [`AudioHint`].
pub struct AudioHintView {
    pub codec: Option<CodecView>,
    pub description: Option<Seq<u8>>,
    pub sample_rate: Option<u32>,
    pub channel_count: Option<u32>,
    pub bitrate: Option<u64>,
    pub container: Option<ContainerView>,
    pub jitter: Option<Duration>,
}

impl View for AudioHint {
    type V = AudioHintView;

    open spec fn view(&self) -> AudioHintView {
        AudioHintView {
            codec: crate::catalog::config::optional(self.codec),
            description: crate::catalog::config::optional(self.description),
            sample_rate: self.sample_rate,
            channel_count: self.channel_count,
            bitrate: self.bitrate,
            container: crate::catalog::config::optional(self.container),
            jitter: self.jitter,
        }
    }
}

impl AudioHintView {
    /// No field is provided.
    pub open spec fn empty() -> Self {
        AudioHintView {
            codec: None,
            description: None,
            sample_rate: None,
            channel_count: None,
            bitrate: None,
            container: None,
            jitter: None,
        }
    }

    /// The config that these fields start from, if all required ones are provided.
    pub open spec fn base(self) -> Option<AudioConfigView> {
        match (self.codec, self.sample_rate, self.channel_count) {
            (Some(codec), Some(sample_rate), Some(channel_count)) => Some(
                AudioConfigView::bare(codec, sample_rate, channel_count),
            ),
            _ => None,
        }
    }

    /// What merging these fields into `config` checks, in order. Steps that only set a field
    /// check nothing.
    pub open spec fn checks(self, config: AudioConfigView) -> Seq<Option<Mismatch>> {
        seq![
            codec_check("audio.codec"@, config.codec, self.codec),
            number_check("audio.sample_rate"@, Some(config.sample_rate), self.sample_rate),
            number_check("audio.channel_count"@, Some(config.channel_count), self.channel_count),
            bytes_check("audio.description"@, config.description, self.description),
            None,
            container_check("audio.container"@, config.container, self.container),
            None,
        ]
    }

    /// `config` after the first `done` steps of merging these fields into it.
    pub open spec fn merged(self, config: AudioConfigView, done: int) -> AudioConfigView {
        AudioConfigView {
            description: merged_field(self.description, config.description, 3, done),
            bitrate: merged_field(self.bitrate, config.bitrate, 4, done),
            jitter: merged_field(self.jitter, config.jitter, 6, done),
            ..config
        }
    }

    /// Merging these fields into `config` gives `result` and leaves `after`.
    pub open spec fn applies(
        self,
        config: AudioConfigView,
        result: Result<(), MuxError>,
        after: AudioConfigView,
    ) -> bool {
        match result {
            Ok(_) => all_pass(self.checks(config)) && after == self.merged(config, 7),
            Err(e) => exists|step: int| #[trigger]
                stops_at(self.checks(config), step) && e.reports(
                    self.checks(config)[step].unwrap(),
                ) && after == self.merged(config, step),
        }
    }
}

impl Default for AudioHint {
    fn default() -> (hint: Self)
        ensures
            hint@ == AudioHintView::empty(),
    {
        AudioHint {
            codec: None,
            description: None,
            sample_rate: None,
            channel_count: None,
            bitrate: None,
            container: None,
            jitter: None,
        }
    }
}

impl AudioHint {
    /// Validate and merge these fields into an audio config.
    ///
    /// A field that the config already has must agree with the one provided here, except the
    /// bitrate and the jitter, which are replaced. On a mismatch the fields before it are merged
    /// and the rest are not.
    pub fn apply(&self, config: &mut AudioConfig) -> (result: Result<(), MuxError>)
        ensures
            self@.applies(old(config)@, result, final(config)@),
    {
        let ghost before = config@;
        let ghost checks = self@.checks(before);
        if let Some(codec) = &self.codec {
            if let Err(err) = check_field("audio.codec", &config.codec, codec) {
                assert(stops_at(checks, 0));
                return Err(err);
            }
        }
        if let Some(sample_rate) = self.sample_rate {
            if let Err(err) = check_field("audio.sample_rate", &config.sample_rate, &sample_rate) {
                assert(stops_at(checks, 1));
                return Err(err);
            }
        }
        if let Some(channel_count) = self.channel_count {
            if let Err(err) = check_field(
                "audio.channel_count",
                &config.channel_count,
                &channel_count,
            ) {
                assert(stops_at(checks, 2));
                return Err(err);
            }
        }
        if let Some(description) = &self.description {
            if let Some(actual) = &config.description {
                if let Err(err) = check_field("audio.description", actual, description) {
                    assert(stops_at(checks, 3));
                    return Err(err);
                }
            }
            config.description = Some(copy_bytes(description));
        }
        if let Some(bitrate) = self.bitrate {
            config.bitrate = Some(bitrate);
        }
        if let Some(container) = &self.container {
            if let Err(err) = check_field("audio.container", &config.container, container) {
                assert(stops_at(checks, 5));
                return Err(err);
            }
            config.container = container.clone();
        }
        if let Some(jitter) = self.jitter {
            config.jitter = Some(jitter);
        }
        Ok(())
    }

    /// Build a catalog config when all required audio fields are available.
    pub fn to_config(&self) -> (result: Result<Option<AudioConfig>, MuxError>)
        ensures
            match self@.base() {
                None => result matches Ok(None),
                Some(base) => match result {
                    Ok(config) => config matches Some(c) && self@.applies(base, Ok(()), c@),
                    Err(e) => exists|after: AudioConfigView| #[trigger]
                        self@.applies(base, Err(e), after),
                },
            },
    {
        match (&self.codec, self.sample_rate, self.channel_count) {
            (Some(codec), Some(sample_rate), Some(channel_count)) => {
                let mut config = AudioConfig::new(codec.clone(), sample_rate, channel_count);
                match self.apply(&mut config) {
                    Ok(_) => Ok(Some(config)),
                    Err(err) => {
                        assert(self@.applies(self@.base().unwrap(), Err(err), config@));
                        Err(err)
                    },
                }
            },
            _ => Ok(None),
        }
    }
}

impl Clone for AudioHint {
    fn clone(&self) -> (copy: Self)
        ensures
            copy@ == self@,
    {
        AudioHint {
            codec: match &self.codec {
                Some(codec) => Some(codec.clone()),
                None => None,
            },
            description: copy_optional_bytes(&self.description),
            sample_rate: self.sample_rate,
            channel_count: self.channel_count,
            bitrate: self.bitrate,
            container: match &self.container {
                Some(container) => Some(container.clone()),
                None => None,
            },
            jitter: self.jitter,
        }
    }
}

/// Optional catalog fields for a video track.
#[derive(Debug, PartialEq)]
#[non_exhaustive]
pub struct VideoHint {
    /// The video codec.
    pub codec: Option<VideoCodec>,
    /// Decoder-specific initialization bytes.
    pub description: Option<Vec<u8>>,
    /// The encoded width in pixels.
    pub coded_width: Option<u32>,
    /// The encoded height in pixels.
    pub coded_height: Option<u32>,
    /// The display aspect width.
    pub display_aspect_width: Option<u32>,
    /// The display aspect height.
    pub display_aspect_height: Option<u32>,
    /// The maximum bitrate in bits per second.
    pub bitrate: Option<u64>,
    /// The frame rate in frames per second.
    pub framerate: Option<Double>,
    /// Whether the decoder should optimize for latency.
    pub optimize_for_latency: Option<bool>,
    /// The frame container used on the track.
    pub container: Option<Container>,
    /// The maximum time before the next frame is emitted.
    pub jitter: Option<Duration>,
}

/// The mathematical form of a [`VideoHint`].
pub struct VideoHintView {
    pub codec: Option<CodecView>,
    pub description: Option<Seq<u8>>,
    pub coded_width: Option<u32>,
    pub coded_height: Option<u32>,
    pub display_aspect_width: Option<u32>,
    pub display_aspect_height: Option<u32>,
    pub bitrate: Option<u64>,
    pub framerate: Option<Double>,
    pub optimize_for_latency: Option<bool>,
    pub container: Option<ContainerView>,
    pub jitter: Option<Duration>,
}

impl View for VideoHint {
    type V = VideoHintView;

    open spec fn view(&self) -> VideoHintView {
        VideoHintView {
            codec: crate::catalog::config::optional(self.codec),
            description: crate::catalog::config::optional(self.description),
            coded_width: self.coded_width,
            coded_height: self.coded_height,
            display_aspect_width: self.display_aspect_width,
            display_aspect_height: self.display_aspect_height,
            bitrate: self.bitrate,
            framerate: self.framerate,
            optimize_for_latency: self.optimize_for_latency,
            container: crate::catalog::config::optional(self.container),
            jitter: self.jitter,
        }
    }
}

impl VideoHintView {
    /// No field is provided.
    pub open spec fn empty() -> Self {
        VideoHintView {
            codec: None,
            description: None,
            coded_width: None,
            coded_height: None,
            display_aspect_width: None,
            display_aspect_height: None,
            bitrate: None,
            framerate: None,
            optimize_for_latency: None,
            container: None,
            jitter: None,
        }
    }

    /// The config that these fields start from, if the required one is provided.
    pub open spec fn base(self) -> Option<VideoConfigView> {
        match self.codec {
            Some(codec) => Some(VideoConfigView::bare(codec)),
            None => None,
        }
    }

    /// What merging these fields into `config` checks, in order. Steps that only set a field
    /// check nothing.
    pub open spec fn checks(self, config: VideoConfigView) -> Seq<Option<Mismatch>> {
        seq![
            codec_check("video.codec"@, config.codec, self.codec),
            bytes_check("video.description"@, config.description, self.description),
            number_check("video.coded_width"@, config.coded_width, self.coded_width),
            number_check("video.coded_height"@, config.coded_height, self.coded_height),
            number_check(
                "video.display_aspect_width"@,
                config.display_aspect_width,
                self.display_aspect_width,
            ),
            number_check(
                "video.display_aspect_height"@,
                config.display_aspect_height,
                self.display_aspect_height,
            ),
            None,
            rate_check("video.framerate"@, config.framerate, self.framerate),
            None,
            container_check("video.container"@, config.container, self.container),
            None,
        ]
    }

    /// `config` after the first `done` steps of merging these fields into it.
    pub open spec fn merged(self, config: VideoConfigView, done: int) -> VideoConfigView {
        VideoConfigView {
            description: merged_field(self.description, config.description, 1, done),
            coded_width: merged_field(self.coded_width, config.coded_width, 2, done),
            coded_height: merged_field(self.coded_height, config.coded_height, 3, done),
            display_aspect_width: merged_field(
                self.display_aspect_width,
                config.display_aspect_width,
                4,
                done,
            ),
            display_aspect_height: merged_field(
                self.display_aspect_height,
                config.display_aspect_height,
                5,
                done,
            ),
            bitrate: merged_field(self.bitrate, config.bitrate, 6, done),
            framerate: merged_field(self.framerate, config.framerate, 7, done),
            optimize_for_latency: merged_field(
                self.optimize_for_latency,
                config.optimize_for_latency,
                8,
                done,
            ),
            jitter: merged_field(self.jitter, config.jitter, 10, done),
            ..config
        }
    }

    /// Merging these fields into `config` gives `result` and leaves `after`.
    pub open spec fn applies(
        self,
        config: VideoConfigView,
        result: Result<(), MuxError>,
        after: VideoConfigView,
    ) -> bool {
        match result {
            Ok(_) => all_pass(self.checks(config)) && after == self.merged(config, 11),
            Err(e) => exists|step: int| #[trigger]
                stops_at(self.checks(config), step) && e.reports(
                    self.checks(config)[step].unwrap(),
                ) && after == self.merged(config, step),
        }
    }
}

impl Default for VideoHint {
    fn default() -> (hint: Self)
        ensures
            hint@ == VideoHintView::empty(),
    {
        VideoHint {
            codec: None,
            description: None,
            coded_width: None,
            coded_height: None,
            display_aspect_width: None,
            display_aspect_height: None,
            bitrate: None,
            framerate: None,
            optimize_for_latency: None,
            container: None,
            jitter: None,
        }
    }
}

impl Clone for VideoHint {
    fn clone(&self) -> (copy: Self)
        ensures
            copy@ == self@,
    {
        VideoHint {
            codec: match &self.codec {
                Some(codec) => Some(codec.clone()),
                None => None,
            },
            description: copy_optional_bytes(&self.description),
            coded_width: self.coded_width,
            coded_height: self.coded_height,
            display_aspect_width: self.display_aspect_width,
            display_aspect_height: self.display_aspect_height,
            bitrate: self.bitrate,
            framerate: self.framerate,
            optimize_for_latency: self.optimize_for_latency,
            container: match &self.container {
                Some(container) => Some(container.clone()),
                None => None,
            },
            jitter: self.jitter,
        }
    }
}

impl VideoHint {
    /// Validate and merge these fields into a video config.
    ///
    /// A field that the config already has must agree with the one provided here, except the
    /// bitrate, the latency preference and the jitter, which are replaced. On a mismatch the
    /// fields before it are merged and the rest are not.
    pub fn apply(&self, config: &mut VideoConfig) -> (result: Result<(), MuxError>)
        ensures
            self@.applies(old(config)@, result, final(config)@),
    {
        let ghost before = config@;
        let ghost checks = self@.checks(before);
        if let Some(codec) = &self.codec {
            if let Err(err) = check_field("video.codec", &config.codec, codec) {
                assert(stops_at(checks, 0));
                return Err(err);
            }
        }
        if let Some(description) = &self.description {
            if let Some(actual) = &config.description {
                if let Err(err) = check_field("video.description", actual, description) {
                    assert(stops_at(checks, 1));
                    return Err(err);
                }
            }
            config.description = Some(copy_bytes(description));
        }
        if let Some(coded_width) = self.coded_width {
            if let Some(actual) = config.coded_width {
                if let Err(err) = check_field("video.coded_width", &actual, &coded_width) {
                    assert(stops_at(checks, 2));
                    return Err(err);
                }
            }
            config.coded_width = Some(coded_width);
        }
        if let Some(coded_height) = self.coded_height {
            if let Some(actual) = config.coded_height {
                if let Err(err) = check_field("video.coded_height", &actual, &coded_height) {
                    assert(stops_at(checks, 3));
                    return Err(err);
                }
            }
            config.coded_height = Some(coded_height);
        }
        if let Some(width) = self.display_aspect_width {
            if let Some(actual) = config.display_aspect_width {
                if let Err(err) = check_field("video.display_aspect_width", &actual, &width) {
                    assert(stops_at(checks, 4));
                    return Err(err);
                }
            }
            config.display_aspect_width = Some(width);
        }
        if let Some(height) = self.display_aspect_height {
            if let Some(actual) = config.display_aspect_height {
                if let Err(err) = check_field("video.display_aspect_height", &actual, &height) {
                    assert(stops_at(checks, 5));
                    return Err(err);
                }
            }
            config.display_aspect_height = Some(height);
        }
        if let Some(bitrate) = self.bitrate {
            config.bitrate = Some(bitrate);
        }
        if let Some(framerate) = self.framerate {
            if let Some(actual) = config.framerate {
                if let Err(err) = check_field("video.framerate", &actual, &framerate) {
                    assert(stops_at(checks, 7));
                    return Err(err);
                }
            }
            config.framerate = Some(framerate);
        }
        if let Some(optimize_for_latency) = self.optimize_for_latency {
            config.optimize_for_latency = Some(optimize_for_latency);
        }
        if let Some(container) = &self.container {
            if let Err(err) = check_field("video.container", &config.container, container) {
                assert(stops_at(checks, 9));
                return Err(err);
            }
            config.container = container.clone();
        }
        if let Some(jitter) = self.jitter {
            config.jitter = Some(jitter);
        }
        Ok(())
    }

    /// Build a catalog config when the required video codec is available.
    pub fn to_config(&self) -> (result: Result<Option<VideoConfig>, MuxError>)
        ensures
            match self@.base() {
                None => result matches Ok(None),
                Some(base) => match result {
                    Ok(config) => config matches Some(c) && self@.applies(base, Ok(()), c@),
                    Err(e) => exists|after: VideoConfigView| #[trigger]
                        self@.applies(base, Err(e), after),
                },
            },
    {
        match &self.codec {
            Some(codec) => {
                let mut config = VideoConfig::new(codec.clone());
                match self.apply(&mut config) {
                    Ok(_) => Ok(Some(config)),
                    Err(err) => {
                        assert(self@.applies(self@.base().unwrap(), Err(err), config@));
                        Err(err)
                    },
                }
            },
            None => Ok(None),
        }
    }
}

/// Every check in a list of seven passes exactly when each one does.
pub proof fn lemma_seven(checks: Seq<Option<Mismatch>>)
    requires
        checks.len() == 7,
    ensures
        all_pass(checks) == (checks[0] is None && checks[1] is None && checks[2] is None
            && checks[3] is None && checks[4] is None && checks[5] is None && checks[6] is None),
{
}

/// Every check in a list of eleven passes exactly when each one does.
pub proof fn lemma_eleven(checks: Seq<Option<Mismatch>>)
    requires
        checks.len() == 11,
    ensures
        all_pass(checks) == (checks[0] is None && checks[1] is None && checks[2] is None
            && checks[3] is None && checks[4] is None && checks[5] is None && checks[6] is None
            && checks[7] is None && checks[8] is None && checks[9] is None && checks[10] is None),
{
}

/// Merging is decided: two ways in which it can go for one hint and one config are the same.
pub proof fn audio_merge_is_decided(
    hint: AudioHintView,
    config: AudioConfigView,
    result1: Result<(), MuxError>,
    after1: AudioConfigView,
    result2: Result<(), MuxError>,
    after2: AudioConfigView,
)
    requires
        hint.applies(config, result1, after1),
        hint.applies(config, result2, after2),
    ensures
        result1 is Ok == result2 is Ok,
        after1 == after2,
        forall|m: Mismatch|
            result1 is Err && result1->Err_0.reports(m) ==> #[trigger] result2->Err_0.reports(m),
{
    lemma_seven(hint.checks(config));
}

/// An audio hint without fields changes nothing.
pub proof fn empty_audio_hint_changes_nothing(config: AudioConfigView)
    ensures
        AudioHintView::empty().applies(config, Ok(()), config),
{
    lemma_seven(AudioHintView::empty().checks(config));
}

/// A merged audio config has every provided field, and keeps every field that was not provided.
pub proof fn audio_hint_is_kept(
    hint: AudioHintView,
    config: AudioConfigView,
    after: AudioConfigView,
)
    requires
        hint.applies(config, Ok(()), after),
    ensures
        hint.codec matches Some(codec) ==> after.codec.detail == codec.detail,
        hint.sample_rate matches Some(rate) ==> after.sample_rate == rate,
        hint.channel_count matches Some(count) ==> after.channel_count == count,
        hint.description is Some ==> after.description == hint.description,
        hint.bitrate is Some ==> after.bitrate == hint.bitrate,
        hint.container matches Some(container) ==> after.container == container,
        hint.jitter is Some ==> after.jitter == hint.jitter,
        hint.description is None ==> after.description == config.description,
        hint.bitrate is None ==> after.bitrate == config.bitrate,
        hint.jitter is None ==> after.jitter == config.jitter,
        after.codec == config.codec,
        after.sample_rate == config.sample_rate,
        after.channel_count == config.channel_count,
        after.container == config.container,
        after.timeline == config.timeline,
{
    lemma_seven(hint.checks(config));
}

/// Merging an audio hint a second time succeeds and changes nothing.
pub proof fn audio_merge_is_idempotent(
    hint: AudioHintView,
    config: AudioConfigView,
    after: AudioConfigView,
)
    requires
        hint.applies(config, Ok(()), after),
    ensures
        hint.applies(after, Ok(()), after),
{
    lemma_seven(hint.checks(config));
    lemma_seven(hint.checks(after));
}

/// A complete audio hint makes a config exactly when it asks for no container but the default.
pub proof fn complete_audio_hint_makes_a_config(hint: AudioHintView)
    requires
        hint.base() is Some,
    ensures
        all_pass(hint.checks(hint.base().unwrap())) == (hint.container is None || hint.container
            == Some(ContainerView::Legacy)),
{
    lemma_seven(hint.checks(hint.base().unwrap()));
}

/// Merging is decided: two ways in which it can go for one hint and one config are the same.
pub proof fn video_merge_is_decided(
    hint: VideoHintView,
    config: VideoConfigView,
    result1: Result<(), MuxError>,
    after1: VideoConfigView,
    result2: Result<(), MuxError>,
    after2: VideoConfigView,
)
    requires
        hint.applies(config, result1, after1),
        hint.applies(config, result2, after2),
    ensures
        result1 is Ok == result2 is Ok,
        after1 == after2,
        forall|m: Mismatch|
            result1 is Err && result1->Err_0.reports(m) ==> #[trigger] result2->Err_0.reports(m),
{
    lemma_eleven(hint.checks(config));
}

/// A video hint without fields changes nothing.
pub proof fn empty_video_hint_changes_nothing(config: VideoConfigView)
    ensures
        VideoHintView::empty().applies(config, Ok(()), config),
{
    lemma_eleven(VideoHintView::empty().checks(config));
}

/// A merged video config has every provided field, and keeps every field that was not provided.
pub proof fn video_hint_is_kept(
    hint: VideoHintView,
    config: VideoConfigView,
    after: VideoConfigView,
)
    requires
        hint.applies(config, Ok(()), after),
    ensures
        hint.codec matches Some(codec) ==> after.codec.detail == codec.detail,
        hint.description is Some ==> after.description == hint.description,
        hint.coded_width is Some ==> after.coded_width == hint.coded_width,
        hint.coded_height is Some ==> after.coded_height == hint.coded_height,
        hint.display_aspect_width is Some ==> after.display_aspect_width
            == hint.display_aspect_width,
        hint.display_aspect_height is Some ==> after.display_aspect_height
            == hint.display_aspect_height,
        hint.bitrate is Some ==> after.bitrate == hint.bitrate,
        hint.framerate is Some ==> after.framerate == hint.framerate,
        hint.optimize_for_latency is Some ==> after.optimize_for_latency
            == hint.optimize_for_latency,
        hint.container matches Some(container) ==> after.container == container,
        hint.jitter is Some ==> after.jitter == hint.jitter,
        hint.description is None ==> after.description == config.description,
        hint.coded_width is None ==> after.coded_width == config.coded_width,
        hint.coded_height is None ==> after.coded_height == config.coded_height,
        hint.display_aspect_width is None ==> after.display_aspect_width
            == config.display_aspect_width,
        hint.display_aspect_height is None ==> after.display_aspect_height
            == config.display_aspect_height,
        hint.bitrate is None ==> after.bitrate == config.bitrate,
        hint.framerate is None ==> after.framerate == config.framerate,
        hint.optimize_for_latency is None ==> after.optimize_for_latency
            == config.optimize_for_latency,
        hint.jitter is None ==> after.jitter == config.jitter,
        after.codec == config.codec,
        after.container == config.container,
        after.timeline == config.timeline,
{
    lemma_eleven(hint.checks(config));
}

/// Merging a video hint a second time succeeds and changes nothing, unless its frame rate is not
/// a number, which equals nothing.
pub proof fn video_merge_is_idempotent(
    hint: VideoHintView,
    config: VideoConfigView,
    after: VideoConfigView,
)
    requires
        hint.applies(config, Ok(()), after),
        hint.framerate matches Some(rate) ==> !rate.is_nan(),
    ensures
        hint.applies(after, Ok(()), after),
{
    lemma_eleven(hint.checks(config));
    lemma_eleven(hint.checks(after));
}

/// A complete video hint makes a config exactly when it asks for no container but the default.
pub proof fn complete_video_hint_makes_a_config(hint: VideoHintView)
    requires
        hint.base() is Some,
    ensures
        all_pass(hint.checks(hint.base().unwrap())) == (hint.container is None || hint.container
            == Some(ContainerView::Legacy)),
{
    lemma_eleven(hint.checks(hint.base().unwrap()));
}

} // verus!
