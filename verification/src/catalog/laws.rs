//! What holds of configs, hints and catalogs, in terms of their fields.

use crate::catalog::clock::resolve;
use crate::catalog::codec::{splits_a_character, AudioCodec, VideoCodec};
use crate::catalog::config::{
    AudioConfig, AudioConfigView, Container, ContainerView, Double, Timeline, VideoConfig,
    VideoConfigView,
};
use crate::catalog::hint::{AudioHint, AudioHintView, VideoHint, VideoHintView};
use crate::catalog::kind::{Audio, Kind, Video};
use crate::catalog::model::{Catalog, CatalogExt, Extra, Renditions};
use crate::error::{FieldValue, FieldView, Mismatch, MuxError};
use crate::time::{TimeOverflow, Timestamp, MAX_TIMESTAMP};
use vstd::prelude::*;
use vstd::string::StringSliceAdditionalSpecFns;

verus! {

/// A container is seen by its kind, with its bytes. Two containers look the same only if they are
/// of one kind and have the same bytes.
pub proof fn containers_are_told_apart(a: Container, b: Container)
    ensures
        (a@ == b@) == match (a, b) {
            (Container::Legacy, Container::Legacy) => true,
            (Container::Cmaf { init: x }, Container::Cmaf { init: y }) => x@ == y@,
            (Container::Loc, Container::Loc) => true,
            _ => false,
        },
        (a@ is Legacy) == (a is Legacy),
        (a@ is Loc) == (a is Loc),
        a matches Container::Cmaf { init } ==> a@ == (ContainerView::Cmaf { init: init@ }),
{
}

/// A codec is seen by both of its texts.
pub proof fn codecs_are_seen_whole(audio: AudioCodec, video: VideoCodec)
    ensures
        audio@.mime == audio.mime@,
        audio@.detail == audio.detail@,
        video@.mime == video.mime@,
        video@.detail == video.detail@,
{
}

/// A timeline section is seen with every field.
pub proof fn timelines_are_seen_whole(timeline: Timeline)
    ensures
        timeline@.track == timeline.track@,
        timeline@.timescale == timeline.timescale,
        timeline@.wall == timeline.wall,
{
}

/// An audio config is seen with every field.
pub proof fn audio_configs_are_seen_whole(config: AudioConfig)
    ensures
        config@.codec.mime == config.codec.mime@,
        config@.codec.detail == config.codec.detail@,
        config@.sample_rate == config.sample_rate,
        config@.channel_count == config.channel_count,
        config@.bitrate == config.bitrate,
        config@.description is Some == config.description is Some,
        config.description matches Some(bytes) ==> config@.description == Some(bytes@),
        config@.container == config.container@,
        config@.jitter == config.jitter,
        config@.timeline is Some == config.timeline is Some,
        config.timeline matches Some(timeline) ==> config@.timeline == Some(timeline@),
{
}

/// A video config is seen with every field.
pub proof fn video_configs_are_seen_whole(config: VideoConfig)
    ensures
        config@.codec.mime == config.codec.mime@,
        config@.codec.detail == config.codec.detail@,
        config@.description is Some == config.description is Some,
        config.description matches Some(bytes) ==> config@.description == Some(bytes@),
        config@.coded_width == config.coded_width,
        config@.coded_height == config.coded_height,
        config@.display_aspect_width == config.display_aspect_width,
        config@.display_aspect_height == config.display_aspect_height,
        config@.bitrate == config.bitrate,
        config@.framerate == config.framerate,
        config@.optimize_for_latency == config.optimize_for_latency,
        config@.container == config.container@,
        config@.jitter == config.jitter,
        config@.timeline is Some == config.timeline is Some,
        config.timeline matches Some(timeline) ==> config@.timeline == Some(timeline@),
{
}

/// An audio hint is seen with every field.
pub proof fn audio_hints_are_seen_whole(hint: AudioHint)
    ensures
        hint@.codec is Some == hint.codec is Some,
        hint.codec matches Some(codec) ==> hint@.codec == Some(codec@),
        hint@.description is Some == hint.description is Some,
        hint.description matches Some(bytes) ==> hint@.description == Some(bytes@),
        hint@.sample_rate == hint.sample_rate,
        hint@.channel_count == hint.channel_count,
        hint@.bitrate == hint.bitrate,
        hint@.container is Some == hint.container is Some,
        hint.container matches Some(container) ==> hint@.container == Some(container@),
        hint@.jitter == hint.jitter,
{
}

/// A video hint is seen with every field.
pub proof fn video_hints_are_seen_whole(hint: VideoHint)
    ensures
        hint@.codec is Some == hint.codec is Some,
        hint.codec matches Some(codec) ==> hint@.codec == Some(codec@),
        hint@.description is Some == hint.description is Some,
        hint.description matches Some(bytes) ==> hint@.description == Some(bytes@),
        hint@.coded_width == hint.coded_width,
        hint@.coded_height == hint.coded_height,
        hint@.display_aspect_width == hint.display_aspect_width,
        hint@.display_aspect_height == hint.display_aspect_height,
        hint@.bitrate == hint.bitrate,
        hint@.framerate == hint.framerate,
        hint@.optimize_for_latency == hint.optimize_for_latency,
        hint@.container is Some == hint.container is Some,
        hint.container matches Some(container) ==> hint@.container == Some(container@),
        hint@.jitter == hint.jitter,
{
}

/// A new config has what it was made of, the default container, and nothing else.
pub proof fn new_configs_hold_nothing_else(
    codec: AudioCodec,
    sample_rate: u32,
    channel_count: u32,
    audio: AudioConfig,
    other: VideoCodec,
    video: VideoConfig,
)
    requires
        call_ensures(AudioConfig::new, (codec, sample_rate, channel_count), audio),
        call_ensures(VideoConfig::new, (other,), video),
    ensures
        audio.codec@ == codec@,
        audio.sample_rate == sample_rate,
        audio.channel_count == channel_count,
        audio.bitrate is None,
        audio.description is None,
        audio.container is Legacy,
        audio.jitter is None,
        audio.timeline is None,
        video.codec@ == other@,
        video.description is None,
        video.coded_width is None,
        video.coded_height is None,
        video.display_aspect_width is None,
        video.display_aspect_height is None,
        video.bitrate is None,
        video.framerate is None,
        video.optimize_for_latency is None,
        video.container is Legacy,
        video.jitter is None,
        video.timeline is None,
{
    audio_configs_are_seen_whole(audio);
    video_configs_are_seen_whole(video);
    containers_are_told_apart(audio.container, Container::Legacy);
    containers_are_told_apart(video.container, Container::Legacy);
}

/// Numbers equal themselves and each other both ways, unless they are not numbers. The two zeros
/// are equal, and no other two numbers of different bits are.
pub proof fn numbers_compare_as_numbers(a: Double, b: Double)
    ensures
        a.equals(b) == b.equals(a),
        a.bits == b.bits ==> (a.equals(b) == (a.bits as int % 0x8000_0000_0000_0000
            <= 0x7ff0_0000_0000_0000)),
        a.bits != b.bits ==> (a.equals(b) == (a.bits as int % 0x8000_0000_0000_0000 == 0 && b.bits
            as int % 0x8000_0000_0000_0000 == 0)),
        a.bits as int % 0x8000_0000_0000_0000 > 0x7ff0_0000_0000_0000 ==> !a.equals(b),
{
}

/// Numbers are compared by what they are equal to.
pub proof fn numbers_are_compared_by_equality(a: Double, b: Double)
    ensures
        vstd::std_specs::cmp::PartialEqSpec::eq_spec(&a, &b) == a.equals(b),
{
}

/// A value of a field is shown by its kind, with what it holds.
pub proof fn field_values_are_seen_whole(value: FieldValue)
    ensures
        match value {
            FieldValue::Codec(text) => value@ == FieldView::Codec(text@),
            FieldValue::Number(n) => value@ == FieldView::Number(n),
            FieldValue::Bytes(bytes) => value@ == FieldView::Bytes(bytes@),
            FieldValue::Container(container) => value@ == FieldView::Container(container@),
            FieldValue::Rate(rate) => value@ == FieldView::Rate(rate),
        },
{
}

/// An error that reports a mismatch names its field and shows both values.
pub proof fn reports_show_both_values(error: MuxError, mismatch: Mismatch)
    requires
        error.reports(mismatch),
    ensures
        error matches MuxError::InitMismatch { field, actual, expected } && field@
            == mismatch.field && actual@ == mismatch.actual && expected@ == mismatch.expected,
{
}

/// Which fields of an audio config and a hint are held against each other, in order, and whether
/// they agree.
pub open spec fn audio_agreement(hint: AudioHintView, config: AudioConfigView) -> Seq<bool> {
    seq![
        hint.codec is None || hint.codec.unwrap().detail == config.codec.detail,
        hint.sample_rate is None || hint.sample_rate.unwrap() == config.sample_rate,
        hint.channel_count is None || hint.channel_count.unwrap() == config.channel_count,
        hint.description is None || config.description is None || hint.description
            == config.description,
        hint.container is None || hint.container.unwrap() == config.container,
    ]
}

/// Merging an audio hint succeeds exactly if every field that both have agrees, except the bitrate
/// and the jitter, which are not held against each other.
pub proof fn audio_merge_succeeds_on_agreement(
    hint: AudioHintView,
    config: AudioConfigView,
    result: Result<(), MuxError>,
    after: AudioConfigView,
)
    requires
        hint.applies(config, result, after),
    ensures
        result is Ok == {
            &&& hint.codec is Some ==> hint.codec.unwrap().detail == config.codec.detail
            &&& hint.sample_rate is Some ==> hint.sample_rate == Some(config.sample_rate)
            &&& hint.channel_count is Some ==> hint.channel_count == Some(config.channel_count)
            &&& hint.description is Some && config.description is Some ==> hint.description
                == config.description
            &&& hint.container is Some ==> hint.container == Some(config.container)
        },
{
    crate::catalog::hint::lemma_seven(hint.checks(config));
}

/// A refused audio config names the first field that disagrees and shows both values of it.
pub proof fn refused_audio_merge_names_the_field(
    hint: AudioHintView,
    config: AudioConfigView,
    error: MuxError,
    after: AudioConfigView,
)
    requires
        hint.applies(config, Err(error), after),
    ensures
        ({
            let agree = audio_agreement(hint, config);
            if !agree[0] {
                error.reports(
                    Mismatch {
                        field: "audio.codec"@,
                        actual: FieldView::Codec(config.codec.detail),
                        expected: FieldView::Codec(hint.codec.unwrap().detail),
                    },
                )
            } else if !agree[1] {
                error.reports(
                    Mismatch {
                        field: "audio.sample_rate"@,
                        actual: FieldView::Number(config.sample_rate),
                        expected: FieldView::Number(hint.sample_rate.unwrap()),
                    },
                )
            } else if !agree[2] {
                error.reports(
                    Mismatch {
                        field: "audio.channel_count"@,
                        actual: FieldView::Number(config.channel_count),
                        expected: FieldView::Number(hint.channel_count.unwrap()),
                    },
                )
            } else if !agree[3] {
                error.reports(
                    Mismatch {
                        field: "audio.description"@,
                        actual: FieldView::Bytes(config.description.unwrap()),
                        expected: FieldView::Bytes(hint.description.unwrap()),
                    },
                )
            } else {
                &&& !agree[4]
                &&& error.reports(
                    Mismatch {
                        field: "audio.container"@,
                        actual: FieldView::Container(config.container),
                        expected: FieldView::Container(hint.container.unwrap()),
                    },
                )
            }
        }),
        after.codec == config.codec,
        after.sample_rate == config.sample_rate,
        after.channel_count == config.channel_count,
        after.container == config.container,
        after.timeline == config.timeline,
        after.jitter == config.jitter,
        ({
            let agree = audio_agreement(hint, config);
            let through = agree[0] && agree[1] && agree[2] && agree[3];
            &&& after.description == if through && hint.description is Some {
                hint.description
            } else {
                config.description
            }
            &&& after.bitrate == if through && hint.bitrate is Some {
                hint.bitrate
            } else {
                config.bitrate
            }
        }),
{
    let checks = hint.checks(config);
    let step = choose|step: int| #[trigger]
        crate::catalog::hint::stops_at(checks, step) && error.reports(
            checks[step].unwrap(),
        ) && after == hint.merged(config, step);
    assert(checks.len() == 7);
    assert(checks[4] is None && checks[6] is None);
    assert(step == 0 || step == 1 || step == 2 || step == 3 || step == 5);
}

/// Which fields of a video config and a hint are held against each other, in order, and whether
/// they agree.
pub open spec fn video_agreement(hint: VideoHintView, config: VideoConfigView) -> Seq<bool> {
    seq![
        hint.codec is None || hint.codec.unwrap().detail == config.codec.detail,
        hint.description is None || config.description is None || hint.description
            == config.description,
        hint.coded_width is None || config.coded_width is None || hint.coded_width
            == config.coded_width,
        hint.coded_height is None || config.coded_height is None || hint.coded_height
            == config.coded_height,
        hint.display_aspect_width is None || config.display_aspect_width is None
            || hint.display_aspect_width == config.display_aspect_width,
        hint.display_aspect_height is None || config.display_aspect_height is None
            || hint.display_aspect_height == config.display_aspect_height,
        hint.framerate is None || config.framerate is None || config.framerate.unwrap().equals(
            hint.framerate.unwrap(),
        ),
        hint.container is None || hint.container.unwrap() == config.container,
    ]
}

/// Merging a video hint succeeds exactly if every field that both have agrees, except the bitrate,
/// the wish for low latency and the jitter, which are not held against each other.
pub proof fn video_merge_succeeds_on_agreement(
    hint: VideoHintView,
    config: VideoConfigView,
    result: Result<(), MuxError>,
    after: VideoConfigView,
)
    requires
        hint.applies(config, result, after),
    ensures
        result is Ok == {
            &&& hint.codec is Some ==> hint.codec.unwrap().detail == config.codec.detail
            &&& hint.description is Some && config.description is Some ==> hint.description
                == config.description
            &&& hint.coded_width is Some && config.coded_width is Some ==> hint.coded_width
                == config.coded_width
            &&& hint.coded_height is Some && config.coded_height is Some ==> hint.coded_height
                == config.coded_height
            &&& hint.display_aspect_width is Some && config.display_aspect_width is Some
                ==> hint.display_aspect_width == config.display_aspect_width
            &&& hint.display_aspect_height is Some && config.display_aspect_height is Some
                ==> hint.display_aspect_height == config.display_aspect_height
            &&& hint.framerate is Some && config.framerate is Some
                ==> config.framerate.unwrap().equals(hint.framerate.unwrap())
            &&& hint.container is Some ==> hint.container == Some(config.container)
        },
{
    crate::catalog::hint::lemma_eleven(hint.checks(config));
}

/// A refused video config names the first field that disagrees and shows both values of it.
#[verifier::rlimit(50)]
pub proof fn refused_video_merge_names_the_field(
    hint: VideoHintView,
    config: VideoConfigView,
    error: MuxError,
    after: VideoConfigView,
)
    requires
        hint.applies(config, Err(error), after),
    ensures
        ({
            let agree = video_agreement(hint, config);
            if !agree[0] {
                error.reports(
                    Mismatch {
                        field: "video.codec"@,
                        actual: FieldView::Codec(config.codec.detail),
                        expected: FieldView::Codec(hint.codec.unwrap().detail),
                    },
                )
            } else if !agree[1] {
                error.reports(
                    Mismatch {
                        field: "video.description"@,
                        actual: FieldView::Bytes(config.description.unwrap()),
                        expected: FieldView::Bytes(hint.description.unwrap()),
                    },
                )
            } else if !agree[2] {
                error.reports(
                    Mismatch {
                        field: "video.coded_width"@,
                        actual: FieldView::Number(config.coded_width.unwrap()),
                        expected: FieldView::Number(hint.coded_width.unwrap()),
                    },
                )
            } else if !agree[3] {
                error.reports(
                    Mismatch {
                        field: "video.coded_height"@,
                        actual: FieldView::Number(config.coded_height.unwrap()),
                        expected: FieldView::Number(hint.coded_height.unwrap()),
                    },
                )
            } else if !agree[4] {
                error.reports(
                    Mismatch {
                        field: "video.display_aspect_width"@,
                        actual: FieldView::Number(config.display_aspect_width.unwrap()),
                        expected: FieldView::Number(hint.display_aspect_width.unwrap()),
                    },
                )
            } else if !agree[5] {
                error.reports(
                    Mismatch {
                        field: "video.display_aspect_height"@,
                        actual: FieldView::Number(config.display_aspect_height.unwrap()),
                        expected: FieldView::Number(hint.display_aspect_height.unwrap()),
                    },
                )
            } else if !agree[6] {
                error.reports(
                    Mismatch {
                        field: "video.framerate"@,
                        actual: FieldView::Rate(config.framerate.unwrap()),
                        expected: FieldView::Rate(hint.framerate.unwrap()),
                    },
                )
            } else {
                &&& !agree[7]
                &&& error.reports(
                    Mismatch {
                        field: "video.container"@,
                        actual: FieldView::Container(config.container),
                        expected: FieldView::Container(hint.container.unwrap()),
                    },
                )
            }
        }),
        after.codec == config.codec,
        after.container == config.container,
        after.timeline == config.timeline,
        after.jitter == config.jitter,
        ({
            let agree = video_agreement(hint, config);
            &&& after.description == if agree[0] && agree[1] && hint.description is Some {
                hint.description
            } else {
                config.description
            }
            &&& after.coded_width == if agree[0] && agree[1] && agree[2] && hint.coded_width is Some {
                hint.coded_width
            } else {
                config.coded_width
            }
            &&& after.coded_height == if agree[0] && agree[1] && agree[2] && agree[3] && hint.coded_height is Some {
                hint.coded_height
            } else {
                config.coded_height
            }
            &&& after.display_aspect_width == if agree[0] && agree[1] && agree[2] && agree[3] && agree[4] && hint.display_aspect_width is Some {
                hint.display_aspect_width
            } else {
                config.display_aspect_width
            }
            &&& after.display_aspect_height == if agree[0] && agree[1] && agree[2] && agree[3] && agree[4] && agree[5] && hint.display_aspect_height is Some {
                hint.display_aspect_height
            } else {
                config.display_aspect_height
            }
            &&& after.bitrate == if agree[0] && agree[1] && agree[2] && agree[3] && agree[4] && agree[5] && hint.bitrate is Some {
                hint.bitrate
            } else {
                config.bitrate
            }
            &&& after.framerate == if agree[0] && agree[1] && agree[2] && agree[3] && agree[4] && agree[5] && agree[6] && hint.framerate is Some {
                hint.framerate
            } else {
                config.framerate
            }
            &&& after.optimize_for_latency == if agree[0] && agree[1] && agree[2] && agree[3] && agree[4] && agree[5] && agree[6] && hint.optimize_for_latency is Some {
                hint.optimize_for_latency
            } else {
                config.optimize_for_latency
            }
        }),
{
    let checks = hint.checks(config);
    let step = choose|step: int| #[trigger]
        crate::catalog::hint::stops_at(checks, step) && error.reports(
            checks[step].unwrap(),
        ) && after == hint.merged(config, step);
    assert(checks.len() == 11);
    assert(checks[6] is None && checks[8] is None && checks[10] is None);
    assert(step == 0 || step == 1 || step == 2 || step == 3 || step == 4 || step == 5 || step == 7
        || step == 9);
}

/// An audio hint makes a config only if it names the codec, the sample rate and the channels. The
/// config then has every field of the hint. It is refused exactly if the hint asks for another
/// container than the default.
pub proof fn audio_config_needs_three_fields(
    hint: AudioHint,
    result: Result<Option<AudioConfig>, MuxError>,
)
    requires
        call_ensures(AudioHint::to_config, (&hint,), result),
    ensures
        hint.codec is None || hint.sample_rate is None || hint.channel_count is None
            ==> result matches Ok(None),
        hint.codec is Some && hint.sample_rate is Some && hint.channel_count is Some ==> {
            &&& result is Ok == (hint.container is None || hint.container.unwrap() is Legacy)
            &&& result matches Ok(config) ==> config is Some && {
                let config = config.unwrap();
                &&& config.codec@ == hint.codec.unwrap()@
                &&& config.sample_rate == hint.sample_rate.unwrap()
                &&& config.channel_count == hint.channel_count.unwrap()
                &&& config@.description == hint@.description
                &&& config.bitrate == hint.bitrate
                &&& config.container is Legacy
                &&& config.jitter == hint.jitter
                &&& config.timeline is None
            }
            &&& result matches Err(error) ==> error.reports(
                Mismatch {
                    field: "audio.container"@,
                    actual: FieldView::Container(ContainerView::Legacy),
                    expected: FieldView::Container(hint.container.unwrap()@),
                },
            )
        },
{
    if hint.codec is Some && hint.sample_rate is Some && hint.channel_count is Some {
        let base = hint@.base().unwrap();
        audio_hints_are_seen_whole(hint);
        match result {
            Ok(config) => {
                let config = config.unwrap();
                audio_configs_are_seen_whole(config);
                audio_merge_succeeds_on_agreement(hint@, base, Ok(()), config@);
                crate::catalog::hint::audio_hint_is_kept(hint@, base, config@);
                containers_are_told_apart(config.container, Container::Legacy);
            },
            Err(error) => {
                let after = choose|after: AudioConfigView| #[trigger]
                    hint@.applies(base, Err(error), after);
                audio_merge_succeeds_on_agreement(hint@, base, Err(error), after);
                refused_audio_merge_names_the_field(hint@, base, error, after);
            },
        }
    }
}

/// A video hint makes a config only if it names the codec. The config then has every field of the
/// hint. It is refused exactly if the hint asks for another container than the default.
pub proof fn video_config_needs_a_codec(
    hint: VideoHint,
    result: Result<Option<VideoConfig>, MuxError>,
)
    requires
        call_ensures(VideoHint::to_config, (&hint,), result),
    ensures
        hint.codec is None ==> result matches Ok(None),
        hint.codec is Some ==> {
            &&& result is Ok == (hint.container is None || hint.container.unwrap() is Legacy)
            &&& result matches Ok(config) ==> config is Some && {
                let config = config.unwrap();
                &&& config.codec@ == hint.codec.unwrap()@
                &&& config@.description == hint@.description
                &&& config.coded_width == hint.coded_width
                &&& config.coded_height == hint.coded_height
                &&& config.display_aspect_width == hint.display_aspect_width
                &&& config.display_aspect_height == hint.display_aspect_height
                &&& config.bitrate == hint.bitrate
                &&& config.framerate == hint.framerate
                &&& config.optimize_for_latency == hint.optimize_for_latency
                &&& config.container is Legacy
                &&& config.jitter == hint.jitter
                &&& config.timeline is None
            }
            &&& result matches Err(error) ==> error.reports(
                Mismatch {
                    field: "video.container"@,
                    actual: FieldView::Container(ContainerView::Legacy),
                    expected: FieldView::Container(hint.container.unwrap()@),
                },
            )
        },
{
    if hint.codec is Some {
        let base = hint@.base().unwrap();
        video_hints_are_seen_whole(hint);
        match result {
            Ok(config) => {
                let config = config.unwrap();
                video_configs_are_seen_whole(config);
                video_merge_succeeds_on_agreement(hint@, base, Ok(()), config@);
                crate::catalog::hint::video_hint_is_kept(hint@, base, config@);
                containers_are_told_apart(config.container, Container::Legacy);
            },
            Err(error) => {
                let after = choose|after: VideoConfigView| #[trigger]
                    hint@.applies(base, Err(error), after);
                video_merge_succeeds_on_agreement(hint@, base, Err(error), after);
                refused_video_merge_names_the_field(hint@, base, error, after);
            },
        }
    }
}

/// A hint without fields provides none.
pub proof fn default_hints_are_empty(audio: AudioHint, video: VideoHint)
    requires
        audio@ == AudioHintView::empty(),
        video@ == VideoHintView::empty(),
    ensures
        audio.codec is None && audio.description is None && audio.sample_rate is None
            && audio.channel_count is None && audio.bitrate is None && audio.container is None
            && audio.jitter is None,
        video.codec is None && video.description is None && video.coded_width is None
            && video.coded_height is None && video.display_aspect_width is None
            && video.display_aspect_height is None && video.bitrate is None
            && video.framerate is None && video.optimize_for_latency is None
            && video.container is None && video.jitter is None,
{
    audio_hints_are_seen_whole(audio);
    video_hints_are_seen_whole(video);
}

/// A catalog is seen with every part.
pub proof fn catalogs_are_seen_whole<E: CatalogExt>(catalog: Catalog<E>)
    ensures
        catalog@.renditions.video.dom() == catalog.video.renditions@.dom(),
        catalog@.renditions.audio.dom() == catalog.audio.renditions@.dom(),
        forall|name: Seq<char>| #[trigger]
            catalog.video.renditions@.contains_key(name) ==> catalog@.renditions.video[name]
                == catalog.video.renditions@[name]@,
        forall|name: Seq<char>| #[trigger]
            catalog.audio.renditions@.contains_key(name) ==> catalog@.renditions.audio[name]
                == catalog.audio.renditions@[name]@,
        catalog@.display == catalog.video.display,
        catalog@.rotation == catalog.video.rotation,
        catalog@.flip == catalog.video.flip,
        catalog@.ext == catalog.ext.model(),
{
    assert(catalog@.renditions.video.dom() =~= catalog.video.renditions@.dom());
    assert(catalog@.renditions.audio.dom() =~= catalog.audio.renditions@.dom());
}

/// Untyped sections are seen by name, each with its text.
pub proof fn sections_are_seen_whole(extra: Extra)
    ensures
        extra.model().dom() == extra.sections@.dom(),
        forall|name: Seq<char>| #[trigger]
            extra.sections@.contains_key(name) ==> extra.model()[name] == extra.sections@[name]@,
{
    assert(extra.model().dom() =~= extra.sections@.dom());
}

/// Each kind has renditions of its own, by name.
pub proof fn kinds_have_their_own_renditions(
    all: Renditions,
    name: Seq<char>,
    video: VideoConfigView,
    audio: AudioConfigView,
)
    ensures
        Video::slot(all) == all.video,
        Audio::slot(all) == all.audio,
        crate::catalog::kind::inserted::<Video>(all, name, video) == (Renditions {
            video: all.video.insert(name, video),
            audio: all.audio,
        }),
        crate::catalog::kind::inserted::<Audio>(all, name, audio) == (Renditions {
            video: all.video,
            audio: all.audio.insert(name, audio),
        }),
        crate::catalog::kind::removed::<Video>(all, name) == (Renditions {
            video: all.video.remove(name),
            audio: all.audio,
        }),
        crate::catalog::kind::removed::<Audio>(all, name) == (Renditions {
            video: all.video,
            audio: all.audio.remove(name),
        }),
{
}

/// A kind merges the hints of that kind, and starts from one that provides nothing.
pub proof fn kinds_merge_their_own_hints(
    video: VideoHintView,
    before: VideoConfigView,
    result: Result<(), MuxError>,
    after: VideoConfigView,
    audio: AudioHintView,
    audio_before: AudioConfigView,
    audio_after: AudioConfigView,
)
    ensures
        Video::applies(video, before, result, after) == video.applies(before, result, after),
        Audio::applies(audio, audio_before, result, audio_after) == audio.applies(
            audio_before,
            result,
            audio_after,
        ),
        Video::empty_hint().codec is None && Video::empty_hint().description is None
            && Video::empty_hint().coded_width is None && Video::empty_hint().coded_height is None
            && Video::empty_hint().display_aspect_width is None
            && Video::empty_hint().display_aspect_height is None
            && Video::empty_hint().bitrate is None && Video::empty_hint().framerate is None
            && Video::empty_hint().optimize_for_latency is None
            && Video::empty_hint().container is None && Video::empty_hint().jitter is None,
        Audio::empty_hint().codec is None && Audio::empty_hint().description is None
            && Audio::empty_hint().sample_rate is None && Audio::empty_hint().channel_count is None
            && Audio::empty_hint().bitrate is None && Audio::empty_hint().container is None
            && Audio::empty_hint().jitter is None,
{
}

/// A given time is the time, and else the elapsed time is, as long as it fits.
pub proof fn given_times_win(
    hint: Option<Timestamp>,
    elapsed: u128,
    time: Result<Timestamp, MuxError>,
)
    requires
        call_ensures(resolve, (hint, elapsed), time),
    ensures
        hint matches Some(given) ==> time == Ok::<Timestamp, MuxError>(given),
        hint is None && elapsed <= MAX_TIMESTAMP ==> time is Ok && time.unwrap().micros()
            == elapsed,
        hint is None && elapsed > MAX_TIMESTAMP ==> time == Err::<Timestamp, MuxError>(
            MuxError::Timestamp(TimeOverflow),
        ),
{
}

/// A clock that tells a time tells the given one, or one that was read off it.
pub proof fn clocks_tell_given_times(
    clock: crate::catalog::clock::Clock,
    hint: Option<Timestamp>,
    time: Result<Timestamp, MuxError>,
)
    requires
        clock.tells(hint, time),
    ensures
        hint matches Some(given) ==> time == Ok::<Timestamp, MuxError>(given),
        hint is None ==> exists|elapsed: u128| #[trigger]
            clock.reads(elapsed) && if elapsed <= MAX_TIMESTAMP {
                time is Ok && time.unwrap().micros() == elapsed
            } else {
                time is Err
            },
{
}

/// Codec strings of ASCII are never cut inside a character. Those that are cut are H.264 strings.
pub proof fn only_odd_strings_are_cut(text: Seq<u8>)
    ensures
        (forall|i: int| 0 <= i < text.len() ==> #[trigger] text[i] < 0x80)
            ==> !crate::catalog::codec::cuts_a_character(text),
        crate::catalog::codec::cuts_a_character(text) ==> text.len() >= 11 && text[0] == 0x61
            && text[1] == 0x76 && text[2] == 0x63 && text[4] == 0x2e && (text.len() == 11
            || text[11] == 0x2e) && (0x80 <= text[7] < 0xc0 || 0x80 <= text[9] < 0xc0),
        text.len() == 11 && text[0] == 0x61 && text[1] == 0x76 && text[2] == 0x63 && (text[3]
            == 0x31 || text[3] == 0x33) && text[4] == 0x2e && 0x80 <= text[7] < 0xc0 && text[5]
            != 0x2e && text[6] != 0x2e && text[8] != 0x2e && text[9] != 0x2e && text[10] != 0x2e
            ==> crate::catalog::codec::cuts_a_character(text),
{
}

/// `byte` is the ASCII digit of `value` to the base sixteen, in either case.
pub open spec fn stands_for(byte: u8, value: int) -> bool {
    if 0 <= value < 10 {
        byte == 0x30 + value
    } else {
        10 <= value < 16 && (byte == 0x41 + (value - 10) || byte == 0x61 + (value - 10))
    }
}

/// The hexadecimal digits are the bytes that stand for a value under sixteen.
pub proof fn hexadecimal_digits_stand_for_values(byte: u8)
    ensures
        crate::catalog::codec::is_hex_digit(byte) == exists|value: int| stands_for(byte, value),
{
    if 0x30 <= byte <= 0x39 {
        assert(stands_for(byte, byte - 0x30));
    } else if 0x41 <= byte <= 0x46 {
        assert(stands_for(byte, byte - 0x41 + 10));
    } else if 0x61 <= byte <= 0x66 {
        assert(stands_for(byte, byte - 0x61 + 10));
    }
}

/// A string is seen to be cut exactly if it is an H.264 string whose parameters are six bytes long
/// and it is cut after the first pair, or after the second where the first reads as a number.
pub proof fn strings_are_cut_between_pairs(text: &str, splits: bool)
    requires
        call_ensures(splits_a_character, (text,), splits),
    ensures
        ({
            let b = text.spec_bytes();
            let shaped = b.len() >= 11 && b.take(5) == seq![0x61u8, 0x76, 0x63, b[3], 0x2e] && (b[3]
                == 0x31 || b[3] == 0x33) && !b.subrange(5, 11).contains(0x2eu8) && (b.len() == 11
                || b[11] == 0x2e);
            let number = (b[5] == 0x2b || exists|value: int| stands_for(b[5], value)) && exists|
                value: int,
            |
                stands_for(b[6], value);
            splits == (shaped && (0x80 <= b[7] < 0xc0 || (number && 0x80 <= b[9] < 0xc0)))
        }),
{
    let b = text.spec_bytes();
    if b.len() >= 11 {
        hexadecimal_digits_stand_for_values(b[5]);
        hexadecimal_digits_stand_for_values(b[6]);
        let prefix = seq![0x61u8, 0x76, 0x63, b[3], 0x2e];
        assert(b.take(5) == prefix <==> (b[0] == 0x61 && b[1] == 0x76 && b[2] == 0x63 && b[4]
            == 0x2e)) by {
            if b[0] == 0x61 && b[1] == 0x76 && b[2] == 0x63 && b[4] == 0x2e {
                assert(b.take(5) =~= prefix);
            }
            if b.take(5) == prefix {
                assert(b.take(5)[0] == b[0] && b.take(5)[1] == b[1] && b.take(5)[2] == b[2]
                    && b.take(5)[4] == b[4]);
            }
        }
        let component = b.subrange(5, 11);
        if component.contains(0x2eu8) {
            let i = choose|i: int| 0 <= i < component.len() && component[i] == 0x2e;
            assert(b[i + 5] == 0x2e);
        } else {
            assert forall|i: int| 5 <= i < 11 implies #[trigger] b[i] != 0x2e by {
                assert(component[i - 5] == b[i]);
            }
        }
    }
}

} // verus!
