use moq_media::catalog::codec::{AudioCodec, VideoCodec};
use moq_media::catalog::{AudioConfig, AudioHint, Catalog, Display, Double, Extra, VideoConfig, VideoHint};
use moq_media::ffi::{
    convert_catalog, Container, MoqAudioHint, MoqDimensions, MoqError, MoqFrame, MoqInit,
    MoqVideoHint,
};
use moq_media::import::Init;
use moq_media::names::NameMap;
use moq_media::time::Duration;

fn no_audio() -> MoqAudioHint {
    MoqAudioHint {
        codec: None,
        description: None,
        sample_rate: None,
        channel_count: None,
        bitrate: None,
        container: None,
        jitter_ms: None,
    }
}

fn no_video() -> MoqVideoHint {
    MoqVideoHint {
        codec: None,
        description: None,
        coded: None,
        display_aspect: None,
        bitrate: None,
        framerate: None,
        optimize_for_latency: None,
        container: None,
        jitter_ms: None,
    }
}

fn audio_of(codec: &str) -> MoqAudioHint {
    let mut hint = no_audio();
    hint.codec = Some(codec.to_string());
    hint
}

fn video_of(codec: &str) -> MoqVideoHint {
    let mut hint = no_video();
    hint.codec = Some(codec.to_string());
    hint
}

fn init_of(audio: Option<MoqAudioHint>, video: Option<MoqVideoHint>) -> MoqInit {
    MoqInit { format: "fmp4".to_string(), data: vec![1, 2, 3], audio, video }
}

#[test]
fn empty_hints_convert_to_empty_hints() {
    assert_eq!(AudioHint::try_from(no_audio()), Ok(AudioHint::default()));
    assert_eq!(VideoHint::try_from(no_video()), Ok(VideoHint::default()));
}

#[test]
fn audio_hints_convert_field_by_field() {
    let mut hint = audio_of("opus");
    hint.description = Some(vec![9]);
    hint.sample_rate = Some(48_000);
    hint.channel_count = Some(2);
    hint.bitrate = Some(64_000);
    hint.container = Some(Container::Cmaf { init: vec![4, 5] });
    hint.jitter_ms = Some(1_020);
    let out = AudioHint::try_from(hint.clone()).unwrap();
    assert_eq!(out.codec.as_ref().unwrap().mime, "opus");
    assert_eq!(out.description, Some(vec![9]));
    assert_eq!(out.sample_rate, Some(48_000));
    assert_eq!(out.channel_count, Some(2));
    assert_eq!(out.bitrate, Some(64_000));
    assert_eq!(
        out.container,
        Some(moq_media::catalog::Container::Cmaf { init: vec![4, 5] })
    );
    assert_eq!(out.jitter, Some(Duration { secs: 1, nanos: 20_000_000 }));
}

#[test]
fn codec_strings_are_parsed() {
    // The parser writes a codec string in its canonical form.
    let out = AudioHint::try_from(audio_of("mp4a.40.02")).unwrap();
    assert_eq!(out.codec.unwrap().mime, "mp4a.40.2");
    let out = VideoHint::try_from(video_of("avc1.64001F")).unwrap();
    assert_eq!(out.codec.unwrap().mime, "avc1.64001f");
    // A string without parameters is taken as it is.
    let out = AudioHint::try_from(audio_of("mp4a.zz")).unwrap();
    assert_eq!(out.codec.unwrap().mime, "mp4a.zz");
    let out = VideoHint::try_from(video_of("theora")).unwrap();
    assert_eq!(out.codec.unwrap().mime, "theora");
}

#[test]
fn equal_codecs_have_equal_details() {
    let one = VideoHint::try_from(video_of("avc1.64001F")).unwrap().codec;
    let two = VideoHint::try_from(video_of("avc1.64001f")).unwrap().codec;
    let three = VideoHint::try_from(video_of("avc3.64001f")).unwrap().codec;
    assert_eq!(one, two);
    assert_ne!(two, three);
}

#[test]
fn refused_codec_strings_say_which_and_why() {
    let Err(MoqError::Codec(text)) = AudioHint::try_from(audio_of("mp4a.40.zz")) else {
        panic!("expected an error");
    };
    assert!(text.starts_with("invalid audio codec: "));
    assert!(text.len() > "invalid audio codec: ".len());
    let Err(MoqError::Codec(text)) = VideoHint::try_from(video_of("avc1.zz")) else {
        panic!("expected an error");
    };
    assert!(text.starts_with("invalid video codec: "));
    assert!(text.len() > "invalid video codec: ".len());

    // The text follows the reason.
    assert_eq!(
        audio_of("x").convert(Some(Err("no such codec".to_string()))),
        Err(MoqError::Codec("invalid audio codec: no such codec".to_string()))
    );
    assert_eq!(
        video_of("x").convert(Some(Err("".to_string()))),
        Err(MoqError::Codec("invalid video codec: ".to_string()))
    );
}

#[test]
fn video_hints_convert_field_by_field() {
    let mut hint = video_of("vp8");
    hint.description = Some(vec![1]);
    hint.coded = Some(MoqDimensions { width: 640, height: 480 });
    hint.display_aspect = Some(MoqDimensions { width: 4, height: 3 });
    hint.bitrate = Some(5);
    hint.framerate = Some(Double { bits: 30.0f64.to_bits() });
    hint.optimize_for_latency = Some(true);
    hint.container = Some(Container::Loc);
    hint.jitter_ms = Some(0);
    assert!(hint.is_parseable());
    let out = VideoHint::try_from(hint.clone()).unwrap();
    assert_eq!(out.codec.as_ref().unwrap().mime, "vp8");
    assert_eq!(out.description, Some(vec![1]));
    assert_eq!((out.coded_width, out.coded_height), (Some(640), Some(480)));
    assert_eq!((out.display_aspect_width, out.display_aspect_height), (Some(4), Some(3)));
    assert_eq!(out.bitrate, Some(5));
    assert_eq!(out.framerate, Some(Double { bits: 30.0f64.to_bits() }));
    assert_eq!(out.optimize_for_latency, Some(true));
    assert_eq!(out.container, Some(moq_media::catalog::Container::Loc));
    assert_eq!(out.jitter, Some(Duration { secs: 0, nanos: 0 }));
}

#[test]
fn strings_whose_parameters_cut_a_character_are_told() {
    // Two bytes, a two-byte character across the cut, two bytes.
    assert!(!video_of("avc1.6\u{e9}001").is_parseable());
    // The second cut is reached only if the first pair is a number.
    assert!(!video_of("avc1.640\u{e9}1").is_parseable());
    assert!(video_of("avc1.zz0\u{e9}1").is_parseable());
    assert!(VideoHint::try_from(video_of("avc1.zz0\u{e9}1")).is_err());
    // Other lengths are not cut.
    assert!(video_of("avc1.6\u{e9}0010").is_parseable());
    assert!(video_of("avc1.\u{e9}").is_parseable());
    assert!(video_of("vp8.6\u{e9}001").is_parseable());
}

#[test]
fn inits_convert_with_their_hints() {
    let out = Init::try_from(init_of(Some(audio_of("opus")), Some(video_of("vp8")))).unwrap();
    assert_eq!(out.format, "fmp4");
    assert_eq!(out.data, vec![1, 2, 3]);
    assert_eq!(out.audio, Some(AudioHint::try_from(audio_of("opus")).unwrap()));
    assert_eq!(out.video, Some(VideoHint::try_from(video_of("vp8")).unwrap()));

    let out = Init::try_from(init_of(None, None)).unwrap();
    assert_eq!(out, Init::new("fmp4".to_string(), vec![1, 2, 3]));
}

#[test]
fn the_audio_hint_of_an_init_is_looked_at_first() {
    let Err(MoqError::Codec(text)) =
        Init::try_from(init_of(Some(audio_of("mp4a.40.zz")), Some(video_of("avc1.zz"))))
    else {
        panic!("expected an error");
    };
    assert!(text.starts_with("invalid audio codec: "));
    let Err(MoqError::Codec(text)) =
        Init::try_from(init_of(Some(audio_of("opus")), Some(video_of("avc1.zz"))))
    else {
        panic!("expected an error");
    };
    assert!(text.starts_with("invalid video codec: "));
    // A refused audio hint comes before a video hint that cannot be parsed.
    let cut = "avc1.6\u{e9}001";
    assert!(Init::try_from(init_of(Some(audio_of("mp4a.40.zz")), Some(video_of(cut)))).is_err());
    assert!(matches!(
        Init::checked_from(init_of(Some(audio_of("mp4a.40.zz")), Some(video_of(cut)))),
        Some(Err(_))
    ));
    assert!(Init::checked_from(init_of(Some(audio_of("opus")), Some(video_of(cut)))).is_none());
    assert!(matches!(
        Init::checked_from(init_of(None, Some(video_of("vp8"))).clone()),
        Some(Ok(_))
    ));
}

#[test]
fn init_builders_set_one_field() {
    let mut audio = AudioHint::default();
    audio.bitrate = Some(1);
    let mut video = VideoHint::default();
    video.bitrate = Some(2);
    let init = Init::new("aac".to_string(), vec![7])
        .with_audio(audio.clone())
        .with_video(video.clone());
    assert_eq!(init.format, "aac");
    assert_eq!(init.data, vec![7]);
    assert_eq!(init.audio, Some(audio));
    assert_eq!(init.video, Some(video));
    assert_eq!(init.clone(), init);
    let empty = Init::default();
    assert_eq!((empty.format.as_str(), empty.data.len()), ("", 0));
    assert_eq!((empty.audio, empty.video), (None, None));
}

#[test]
fn containers_convert_both_ways() {
    for container in [
        moq_media::catalog::Container::Legacy,
        moq_media::catalog::Container::Cmaf { init: vec![1, 2] },
        moq_media::catalog::Container::Loc,
    ] {
        let there = Container::from(container.clone());
        assert_eq!(there.clone(), there);
        assert_eq!(moq_media::catalog::Container::from(there), container);
    }
    assert_eq!(
        Container::from(moq_media::catalog::Container::Cmaf { init: vec![1] }),
        Container::Cmaf { init: vec![1] }
    );
}

#[test]
fn catalogs_convert_with_every_rendition() {
    let mut sections: NameMap<String> = NameMap::new();
    sections.insert("chat".to_string(), "{\"a\":1}".to_string());
    let mut catalog = Catalog::new(Extra { sections });
    let mut hd = VideoConfig::new(VideoCodec {
        mime: "avc1.64001f".to_string(),
        detail: "H264".to_string(),
    });
    hd.description = Some(vec![1]);
    hd.coded_width = Some(1280);
    hd.coded_height = Some(720);
    hd.display_aspect_width = Some(16);
    hd.bitrate = Some(5);
    hd.framerate = Some(Double { bits: 60.0f64.to_bits() });
    let mut sd = hd.clone();
    sd.coded_height = None;
    sd.display_aspect_height = Some(9);
    sd.container = moq_media::catalog::Container::Cmaf { init: vec![8] };
    catalog.video.renditions.insert("hd".to_string(), hd);
    catalog.video.renditions.insert("sd".to_string(), sd);
    catalog.video.display = Some(Display { width: 3, height: 4 });
    catalog.video.rotation = Some(Double { bits: 90.0f64.to_bits() });
    catalog.video.flip = Some(true);
    let mut opus = AudioConfig::new(
        AudioCodec { mime: "opus".to_string(), detail: "Opus".to_string() },
        48_000,
        2,
    );
    opus.bitrate = Some(6);
    catalog.audio.renditions.insert("a".to_string(), opus);

    let out = convert_catalog(&catalog);
    assert_eq!((out.video.len(), out.audio.len(), out.sections.len()), (2, 1, 1));
    let hd = out.video.get("hd").unwrap().clone();
    assert_eq!(hd.codec, "avc1.64001f");
    assert_eq!(hd.description, Some(vec![1]));
    assert_eq!(hd.coded, Some(MoqDimensions { width: 1280, height: 720 }));
    // Half a size is no size.
    assert_eq!(hd.display_aspect, None);
    assert_eq!(hd.bitrate, Some(5));
    assert_eq!(hd.framerate, Some(Double { bits: 60.0f64.to_bits() }));
    assert_eq!(hd.container, Container::Legacy);
    let sd = out.video.get("sd").unwrap();
    assert_eq!(sd.coded, None);
    assert_eq!(sd.display_aspect, Some(MoqDimensions { width: 16, height: 9 }));
    assert_eq!(sd.container, Container::Cmaf { init: vec![8] });
    let a = out.audio.get("a").unwrap().clone();
    assert_eq!(a.codec, "opus");
    assert_eq!((a.sample_rate, a.channel_count, a.bitrate), (48_000, 2, Some(6)));
    assert_eq!(a.description, None);
    assert_eq!(a.container, Container::Legacy);
    assert_eq!(out.display, Some(MoqDimensions { width: 3, height: 4 }));
    assert_eq!(out.rotation, Some(Double { bits: 90.0f64.to_bits() }));
    assert_eq!(out.flip, Some(true));
    assert_eq!(out.sections.get("chat"), Some(&"{\"a\":1}".to_string()));
}

#[test]
fn frames_carry_their_fields() {
    let frame = MoqFrame { payload: vec![1], timestamp_us: 2, keyframe: true };
    assert_eq!((frame.payload, frame.timestamp_us, frame.keyframe), (vec![1], 2, true));
}

#[test]
fn names_are_unique_and_removable() {
    let mut map: NameMap<u32> = NameMap::new();
    map.insert("a".to_string(), 1);
    map.insert("b".to_string(), 2);
    map.insert("a".to_string(), 3);
    assert_eq!(map.len(), 2);
    assert_eq!((map.get("a"), map.get("b"), map.get("c")), (Some(&3), Some(&2), None));
    map.update("b", |value| *value += 40);
    map.update("c", |value| *value += 40);
    assert_eq!(map.get("b"), Some(&42));
    map.remove("a");
    map.remove("c");
    assert_eq!((map.len(), map.get("a")), (1, None));
    assert_eq!(map.entry(0).name, "b");
}
