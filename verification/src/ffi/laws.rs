//! What holds of the conversions, field by field.

use crate::catalog::codec::{AudioCodec, CodecView, VideoCodec};
use crate::catalog::hint::{AudioHint, VideoHint};
use crate::catalog::model::{Catalog, Extra};
use crate::ffi::error::MoqError;
use crate::ffi::media::{
    convert_catalog, Container, MoqAudio, MoqAudioHint, MoqCatalog, MoqInit, MoqVideo,
    MoqVideoHint,
};
use crate::import::init::Init;
use crate::time::Duration;
use vstd::prelude::*;

verus! {

/// A container is seen by its kind, with its bytes, whichever side it is on.
pub proof fn containers_are_seen_whole(container: Container, other: crate::catalog::config::Container)
    ensures
        (container@ is Legacy) == (container is Legacy),
        (container@ is Loc) == (container is Loc),
        container matches Container::Cmaf { init } ==> container@ == (
        crate::catalog::config::ContainerView::Cmaf { init: init@ }),
        (container@ == other@) == crate::ffi::media::same_container(other, container),
{
    crate::catalog::laws::containers_are_told_apart(other, other);
}

/// A converted container is of the same kind, with the same bytes, both ways.
pub proof fn containers_keep_their_kind(
    container: crate::catalog::config::Container,
    foreign: Container,
)
    ensures
        ({
            let there = <Container as vstd::std_specs::convert::FromSpec<
                crate::catalog::config::Container,
            >>::from_spec(container);
            match container {
                crate::catalog::config::Container::Legacy => there is Legacy,
                crate::catalog::config::Container::Cmaf { init } => there == (Container::Cmaf {
                    init,
                }),
                crate::catalog::config::Container::Loc => there is Loc,
            }
        }),
        ({
            let back = <crate::catalog::config::Container as vstd::std_specs::convert::FromSpec<
                Container,
            >>::from_spec(foreign);
            match foreign {
                Container::Legacy => back is Legacy,
                Container::Cmaf { init } => back == (crate::catalog::config::Container::Cmaf {
                    init,
                }),
                Container::Loc => back is Loc,
            }
        }),
{
}

/// A converted catalog has the same renditions, and each audio rendition keeps its codec string,
/// its bytes, its rate, its channels, its bitrate and its container.
pub proof fn converted_audio_keeps_every_field(
    catalog: Catalog<Extra>,
    converted: MoqCatalog,
    name: Seq<char>,
)
    requires
        call_ensures(convert_catalog, (&catalog,), converted),
    ensures
        converted.audio@.contains_key(name) == catalog.audio.renditions@.contains_key(name),
        catalog.audio.renditions@.contains_key(name) ==> {
            let config = catalog.audio.renditions@[name];
            let audio = converted.audio@[name];
            &&& audio.codec@ == config.codec.mime@
            &&& audio.description is Some == config.description is Some
            &&& config.description is Some ==> audio.description.unwrap()@
                == config.description.unwrap()@
            &&& audio.sample_rate == config.sample_rate
            &&& audio.channel_count == config.channel_count
            &&& audio.bitrate == config.bitrate
            &&& audio.container@ == config.container@
        },
{
    assert(converted.audio@.dom().contains(name) == catalog.audio.renditions@.dom().contains(name));
    if catalog.audio.renditions@.contains_key(name) {
        let config = catalog.audio.renditions@[name];
        containers_are_seen_whole(converted.audio@[name].container, config.container);
    }
}

/// A converted catalog has the same renditions, and each video rendition keeps its codec string,
/// its bytes, its sizes of which both sides are known, its bitrate, its frame rate and its container.
pub proof fn converted_video_keeps_every_field(
    catalog: Catalog<Extra>,
    converted: MoqCatalog,
    name: Seq<char>,
)
    requires
        call_ensures(convert_catalog, (&catalog,), converted),
    ensures
        converted.video@.contains_key(name) == catalog.video.renditions@.contains_key(name),
        catalog.video.renditions@.contains_key(name) ==> {
            let config = catalog.video.renditions@[name];
            let video = converted.video@[name];
            &&& video.codec@ == config.codec.mime@
            &&& video.description is Some == config.description is Some
            &&& config.description is Some ==> video.description.unwrap()@
                == config.description.unwrap()@
            &&& config.coded_width is None || config.coded_height is None ==> video.coded is None
            &&& config.coded_width is Some && config.coded_height is Some ==> video.coded is Some
                && video.coded.unwrap().width == config.coded_width.unwrap()
                && video.coded.unwrap().height == config.coded_height.unwrap()
            &&& config.display_aspect_width is None || config.display_aspect_height is None
                ==> video.display_aspect is None
            &&& config.display_aspect_width is Some && config.display_aspect_height is Some
                ==> video.display_aspect is Some && video.display_aspect.unwrap().width
                == config.display_aspect_width.unwrap() && video.display_aspect.unwrap().height
                == config.display_aspect_height.unwrap()
            &&& video.bitrate == config.bitrate
            &&& video.framerate == config.framerate
            &&& video.container@ == config.container@
        },
{
    assert(converted.video@.dom().contains(name) == catalog.video.renditions@.dom().contains(name));
    if catalog.video.renditions@.contains_key(name) {
        let config = catalog.video.renditions@[name];
        containers_are_seen_whole(converted.video@[name].container, config.container);
    }
}

/// A converted catalog keeps the display size, the rotation, the flip and every section's text.
pub proof fn converted_catalogs_keep_the_rest(
    catalog: Catalog<Extra>,
    converted: MoqCatalog,
    name: Seq<char>,
)
    requires
        call_ensures(convert_catalog, (&catalog,), converted),
    ensures
        converted.display is Some == catalog.video.display is Some,
        catalog.video.display is Some ==> converted.display.unwrap().width
            == catalog.video.display.unwrap().width && converted.display.unwrap().height
            == catalog.video.display.unwrap().height,
        converted.rotation == catalog.video.rotation,
        converted.flip == catalog.video.flip,
        converted.sections@.contains_key(name) == catalog.ext.sections@.contains_key(name),
        catalog.ext.sections@.contains_key(name) ==> converted.sections@[name]@
            == catalog.ext.sections@[name]@,
{
    assert(converted.sections@.dom().contains(name) == catalog.ext.sections@.dom().contains(name));
}

/// Foreign renditions are seen with every field, so a copy has every field.
pub proof fn foreign_renditions_are_seen_whole(video: MoqVideo, audio: MoqAudio)
    ensures
        video@.codec == video.codec@,
        video@.description is Some == video.description is Some,
        video.description matches Some(bytes) ==> video@.description == Some(bytes@),
        video@.coded == video.coded,
        video@.display_aspect == video.display_aspect,
        video@.bitrate == video.bitrate,
        video@.framerate == video.framerate,
        video@.container == video.container@,
        audio@.codec == audio.codec@,
        audio@.description is Some == audio.description is Some,
        audio.description matches Some(bytes) ==> audio@.description == Some(bytes@),
        audio@.sample_rate == audio.sample_rate,
        audio@.channel_count == audio.channel_count,
        audio@.bitrate == audio.bitrate,
        audio@.container == audio.container@,
{
}

/// `jitter` is a length of as many milliseconds, where there are any.
pub open spec fn lasts(jitter: Option<Duration>, millis: Option<u64>) -> bool {
    &&& jitter is Some == millis is Some
    &&& millis is Some ==> jitter.unwrap().secs * 1_000_000_000 + jitter.unwrap().nanos
        == millis.unwrap() * 1_000_000 && jitter.unwrap().nanos < 1_000_000_000
}

/// `out` has every field of `hint`, and `codec`.
pub open spec fn has_audio_fields(hint: MoqAudioHint, codec: Option<CodecView>, out: AudioHint) -> bool {
    &&& out.codec is Some == codec is Some
    &&& codec is Some ==> out.codec.unwrap().mime@ == codec.unwrap().mime
        && out.codec.unwrap().detail@ == codec.unwrap().detail
    &&& out.description is Some == hint.description is Some
    &&& hint.description is Some ==> out.description.unwrap()@ == hint.description.unwrap()@
    &&& out.sample_rate == hint.sample_rate
    &&& out.channel_count == hint.channel_count
    &&& out.bitrate == hint.bitrate
    &&& out.container is Some == hint.container is Some
    &&& hint.container is Some ==> crate::ffi::media::same_container(
        out.container.unwrap(),
        hint.container.unwrap(),
    )
    &&& lasts(out.jitter, hint.jitter_ms)
}

/// `out` has every field of `hint`, and `codec`.
pub open spec fn has_video_fields(hint: MoqVideoHint, codec: Option<CodecView>, out: VideoHint) -> bool {
    &&& out.codec is Some == codec is Some
    &&& codec is Some ==> out.codec.unwrap().mime@ == codec.unwrap().mime
        && out.codec.unwrap().detail@ == codec.unwrap().detail
    &&& out.description is Some == hint.description is Some
    &&& hint.description is Some ==> out.description.unwrap()@ == hint.description.unwrap()@
    &&& out.coded_width is Some == hint.coded is Some
    &&& out.coded_height is Some == hint.coded is Some
    &&& hint.coded is Some ==> out.coded_width.unwrap() == hint.coded.unwrap().width
        && out.coded_height.unwrap() == hint.coded.unwrap().height
    &&& out.display_aspect_width is Some == hint.display_aspect is Some
    &&& out.display_aspect_height is Some == hint.display_aspect is Some
    &&& hint.display_aspect is Some ==> out.display_aspect_width.unwrap()
        == hint.display_aspect.unwrap().width && out.display_aspect_height.unwrap()
        == hint.display_aspect.unwrap().height
    &&& out.bitrate == hint.bitrate
    &&& out.framerate == hint.framerate
    &&& out.optimize_for_latency == hint.optimize_for_latency
    &&& out.container is Some == hint.container is Some
    &&& hint.container is Some ==> crate::ffi::media::same_container(
        out.container.unwrap(),
        hint.container.unwrap(),
    )
    &&& lasts(out.jitter, hint.jitter_ms)
}

/// What is told of a result is its value, or the text of its error.
pub proof fn results_are_told_whole<T: View>(result: Result<T, MoqError>)
    ensures
        match result {
            Ok(value) => crate::ffi::error::told(result) == Ok::<T::V, Seq<char>>(value@),
            Err(MoqError::Codec(text)) => crate::ffi::error::told(result) == Err::<
                T::V,
                Seq<char>,
            >(text@),
        },
{
}

/// A hint that converts to what `fields` says has every field.
proof fn lemma_audio_fields(hint: MoqAudioHint, codec: Option<CodecView>, out: AudioHint)
    requires
        out@ == hint.fields(codec),
    ensures
        has_audio_fields(hint, codec, out),
{
    crate::catalog::laws::audio_hints_are_seen_whole(out);
    if hint.container is Some {
        containers_are_seen_whole(hint.container.unwrap(), out.container.unwrap());
    }
}

/// A hint that converts to what `fields` says has every field.
proof fn lemma_video_fields(hint: MoqVideoHint, codec: Option<CodecView>, out: VideoHint)
    requires
        out@ == hint.fields(codec),
    ensures
        has_video_fields(hint, codec, out),
{
    crate::catalog::laws::video_hints_are_seen_whole(out);
    if hint.container is Some {
        containers_are_seen_whole(hint.container.unwrap(), out.container.unwrap());
    }
}

/// Converting an audio hint keeps every field and takes the parsed codec. It fails exactly if the
/// codec was refused, and then says which codec and why.
pub proof fn audio_hints_convert_field_by_field(
    hint: MoqAudioHint,
    codec: Option<Result<AudioCodec, String>>,
    result: Result<AudioHint, MoqError>,
)
    requires
        call_ensures(MoqAudioHint::convert, (hint, codec), result),
    ensures
        codec is None ==> result is Ok && has_audio_fields(hint, None, result.unwrap()),
        codec matches Some(Ok(c)) ==> result is Ok && has_audio_fields(
            hint,
            Some(CodecView { mime: c.mime@, detail: c.detail@ }),
            result.unwrap(),
        ),
        codec matches Some(Err(e)) ==> (result matches Err(MoqError::Codec(text)) && text@
            == "invalid audio codec: "@ + e@),
{
    results_are_told_whole(result);
    if let Ok(out) = result {
        match codec {
            Some(Ok(c)) => {
                lemma_audio_fields(hint, Some(c@), out);
            },
            _ => {
                lemma_audio_fields(hint, None, out);
            },
        }
    }
}

/// Converting a video hint keeps every field and takes the parsed codec. It fails exactly if the
/// codec was refused, and then says which codec and why.
pub proof fn video_hints_convert_field_by_field(
    hint: MoqVideoHint,
    codec: Option<Result<VideoCodec, String>>,
    result: Result<VideoHint, MoqError>,
)
    requires
        call_ensures(MoqVideoHint::convert, (hint, codec), result),
    ensures
        codec is None ==> result is Ok && has_video_fields(hint, None, result.unwrap()),
        codec matches Some(Ok(c)) ==> result is Ok && has_video_fields(
            hint,
            Some(CodecView { mime: c.mime@, detail: c.detail@ }),
            result.unwrap(),
        ),
        codec matches Some(Err(e)) ==> (result matches Err(MoqError::Codec(text)) && text@
            == "invalid video codec: "@ + e@),
{
    results_are_told_whole(result);
    if let Ok(out) = result {
        match codec {
            Some(Ok(c)) => {
                lemma_video_fields(hint, Some(c@), out);
            },
            _ => {
                lemma_video_fields(hint, None, out);
            },
        }
    }
}

/// An audio hint from another language keeps every field, and its codec is what the parser makes of
/// its codec string.
pub proof fn foreign_audio_hints_keep_every_field(
    hint: MoqAudioHint,
    result: Result<AudioHint, MoqError>,
)
    requires
        call_ensures(AudioHint::try_from, (hint,), result),
    ensures
        hint.codec is None ==> result is Ok && has_audio_fields(hint, None, result.unwrap()),
        hint.codec is Some ==> match crate::catalog::codec::audio_codec_of(hint.codec.unwrap()@) {
            Ok(codec) => result is Ok && has_audio_fields(hint, Some(codec), result.unwrap()),
            Err(e) => result matches Err(MoqError::Codec(text)) && text@
                == "invalid audio codec: "@ + e,
        },
{
    results_are_told_whole(result);
    if let Ok(out) = result {
        match hint.parsed_codec() {
            Some(Ok(codec)) => {
                lemma_audio_fields(hint, Some(codec), out);
            },
            _ => {
                lemma_audio_fields(hint, None, out);
            },
        }
    }
}

/// A video hint from another language keeps every field, and its codec is what the parser makes of
/// its codec string.
pub proof fn foreign_video_hints_keep_every_field(
    hint: MoqVideoHint,
    result: Result<VideoHint, MoqError>,
)
    requires
        call_ensures(VideoHint::try_from, (hint,), result),
    ensures
        hint.codec is None ==> result is Ok && has_video_fields(hint, None, result.unwrap()),
        hint.codec is Some ==> match crate::catalog::codec::video_codec_of(hint.codec.unwrap()@) {
            Ok(codec) => result is Ok && has_video_fields(hint, Some(codec), result.unwrap()),
            Err(e) => result matches Err(MoqError::Codec(text)) && text@
                == "invalid video codec: "@ + e,
        },
{
    results_are_told_whole(result);
    if let Ok(out) = result {
        match hint.parsed_codec() {
            Some(Ok(codec)) => {
                lemma_video_fields(hint, Some(codec), out);
            },
            _ => {
                lemma_video_fields(hint, None, out);
            },
        }
    }
}

/// An init value from another language keeps its format, its bytes and both hints. It fails exactly
/// if a codec string is refused, the audio one first.
pub proof fn foreign_inits_keep_every_field(init: MoqInit, result: Result<Init, MoqError>)
    requires
        call_ensures(Init::try_from, (init,), result),
    ensures
        ({
            let audio = match init.audio {
                Some(hint) => match hint.codec {
                    Some(text) => Some(crate::catalog::codec::audio_codec_of(text@)),
                    None => None,
                },
                None => None,
            };
            let video = match init.video {
                Some(hint) => match hint.codec {
                    Some(text) => Some(crate::catalog::codec::video_codec_of(text@)),
                    None => None,
                },
                None => None,
            };
            &&& result is Ok == (!(audio matches Some(Err(_))) && !(video matches Some(Err(_))))
            &&& audio matches Some(Err(e)) ==> (result matches Err(MoqError::Codec(text)) && text@
                == "invalid audio codec: "@ + e)
            &&& !(audio matches Some(Err(_))) ==> (video matches Some(Err(e)) ==> (
            result matches Err(MoqError::Codec(text)) && text@ == "invalid video codec: "@ + e))
            &&& result matches Ok(out) ==> {
                &&& out.format@ == init.format@
                &&& out.data@ == init.data@
                &&& out.audio is Some == init.audio is Some
                &&& init.audio is Some ==> has_audio_fields(
                    init.audio.unwrap(),
                    match audio {
                        Some(Ok(codec)) => Some(codec),
                        _ => None,
                    },
                    out.audio.unwrap(),
                )
                &&& out.video is Some == init.video is Some
                &&& init.video is Some ==> has_video_fields(
                    init.video.unwrap(),
                    match video {
                        Some(Ok(codec)) => Some(codec),
                        _ => None,
                    },
                    out.video.unwrap(),
                )
            }
        }),
{
    results_are_told_whole(result);
    if let Ok(out) = result {
        inits_are_seen_whole(out);
        if init.audio is Some {
            let hint = init.audio.unwrap();
            let codec = match hint.parsed_codec() {
                Some(Ok(codec)) => Some(codec),
                _ => None,
            };
            lemma_audio_fields(hint, codec, out.audio.unwrap());
        }
        if init.video is Some {
            let hint = init.video.unwrap();
            let codec = match hint.parsed_codec() {
                Some(Ok(codec)) => Some(codec),
                _ => None,
            };
            lemma_video_fields(hint, codec, out.video.unwrap());
        }
    }
}

/// An init value is seen with every field.
pub proof fn inits_are_seen_whole(init: Init)
    ensures
        init@.format == init.format@,
        init@.data == init.data@,
        init@.audio is Some == init.audio is Some,
        init.audio matches Some(hint) ==> init@.audio == Some(hint@),
        init@.video is Some == init.video is Some,
        init.video matches Some(hint) ==> init@.video == Some(hint@),
{
}

/// An init value holds what it was built of: its format and bytes, and each hint that was added.
pub proof fn inits_hold_what_they_are_built_of(
    format: String,
    data: Vec<u8>,
    init: Init,
    audio: AudioHint,
    with_audio: Init,
    video: VideoHint,
    with_both: Init,
)
    requires
        call_ensures(Init::new, (format, data), init),
        call_ensures(Init::with_audio, (init, audio), with_audio),
        call_ensures(Init::with_video, (with_audio, video), with_both),
    ensures
        init.audio is None && init.video is None,
        with_audio.audio is Some && with_audio.video is None,
        with_both.format@ == format@,
        with_both.data@ == data@,
        with_both.audio is Some && with_both.audio.unwrap()@ == audio@,
        with_both.video is Some && with_both.video.unwrap()@ == video@,
{
    inits_are_seen_whole(init);
    inits_are_seen_whole(with_audio);
    inits_are_seen_whole(with_both);
}

/// A video hint can be parsed unless it has a codec string that would be cut inside a character.
pub proof fn hints_are_parseable_unless_cut(hint: MoqVideoHint)
    ensures
        hint.codec is None ==> hint.parseable(),
        hint.codec matches Some(text) ==> hint.parseable()
            == !crate::catalog::codec::cuts_a_character(vstd::utf8::encode_utf8(text@)),
{
}

/// The checked conversion gives a result wherever the audio codec string is refused or the video one
/// can be parsed, and then the one that the conversion gives.
pub proof fn checked_conversions_leave_out_only_cut_strings(
    init: MoqInit,
    out: Option<Result<Init, MoqError>>,
)
    requires
        call_ensures(Init::checked_from, (init,), out),
    ensures
        out is None ==> init.video is Some && !init.video.unwrap().parseable(),
        init.video is None || init.video.unwrap().parseable() ==> out is Some,
        out matches Some(Ok(o)) ==> o.format@ == init.format@ && o.data@ == init.data@
            && o.audio is Some == init.audio is Some && o.video is Some == init.video is Some,
{
    if let Some(Ok(o)) = out {
        results_are_told_whole(out.unwrap());
        inits_are_seen_whole(o);
    }
}

} // verus!
