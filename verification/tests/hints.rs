use moq_media::catalog::codec::{AudioCodec, VideoCodec};
use moq_media::catalog::{AudioConfig, AudioHint, Container, Double, Timeline, VideoConfig, VideoHint};
use moq_media::error::{FieldValue, MuxError};
use moq_media::time::Duration;

fn audio_codec(name: &str) -> AudioCodec {
    AudioCodec { mime: name.to_string(), detail: name.to_string() }
}

fn video_codec(name: &str) -> VideoCodec {
    VideoCodec { mime: name.to_string(), detail: name.to_string() }
}

fn double(value: f64) -> Double {
    Double { bits: value.to_bits() }
}

fn opus() -> AudioConfig {
    AudioConfig::new(audio_codec("opus"), 48_000, 2)
}

fn vp8() -> VideoConfig {
    VideoConfig::new(video_codec("vp8"))
}

fn mismatch(field: &'static str, actual: FieldValue, expected: FieldValue) -> Result<(), MuxError> {
    Err(MuxError::InitMismatch { field, actual, expected })
}

#[test]
fn empty_hints_change_nothing() {
    let mut audio = opus();
    assert_eq!(AudioHint::default().apply(&mut audio), Ok(()));
    assert_eq!(audio, opus());
    let mut video = vp8();
    assert_eq!(VideoHint::default().apply(&mut video), Ok(()));
    assert_eq!(video, vp8());
}

#[test]
fn audio_hint_fills_in_and_replaces() {
    let mut hint = AudioHint::default();
    hint.codec = Some(audio_codec("opus"));
    hint.sample_rate = Some(48_000);
    hint.channel_count = Some(2);
    hint.description = Some(vec![1, 2]);
    hint.bitrate = Some(64_000);
    hint.container = Some(Container::Legacy);
    hint.jitter = Some(Duration::from_millis(20));
    let mut config = opus();
    config.bitrate = Some(1);
    config.jitter = Some(Duration::from_millis(1));
    config.timeline = Some(Timeline { track: "t".to_string(), timescale: 1000, wall: None });
    let mut expected = config.clone();
    expected.description = Some(vec![1, 2]);
    expected.bitrate = Some(64_000);
    expected.jitter = Some(Duration { secs: 0, nanos: 20_000_000 });
    assert_eq!(hint.apply(&mut config), Ok(()));
    assert_eq!(config, expected);
    // A second merge changes nothing.
    assert_eq!(hint.apply(&mut config), Ok(()));
    assert_eq!(config, expected);
}

#[test]
fn audio_mismatches_name_the_field() {
    let mut hint = AudioHint::default();
    hint.codec = Some(audio_codec("mp4a.40.2"));
    assert_eq!(
        hint.apply(&mut opus()),
        mismatch(
            "audio.codec",
            FieldValue::Codec("opus".to_string()),
            FieldValue::Codec("mp4a.40.2".to_string())
        )
    );

    let mut hint = AudioHint::default();
    hint.sample_rate = Some(44_100);
    assert_eq!(
        hint.apply(&mut opus()),
        mismatch("audio.sample_rate", FieldValue::Number(48_000), FieldValue::Number(44_100))
    );

    let mut hint = AudioHint::default();
    hint.channel_count = Some(1);
    assert_eq!(
        hint.apply(&mut opus()),
        mismatch("audio.channel_count", FieldValue::Number(2), FieldValue::Number(1))
    );

    let mut hint = AudioHint::default();
    hint.description = Some(vec![1]);
    let mut config = opus();
    config.description = Some(vec![1, 0]);
    assert_eq!(
        hint.apply(&mut config),
        mismatch("audio.description", FieldValue::Bytes(vec![1, 0]), FieldValue::Bytes(vec![1]))
    );

    let mut hint = AudioHint::default();
    hint.container = Some(Container::Loc);
    assert_eq!(
        hint.apply(&mut opus()),
        mismatch(
            "audio.container",
            FieldValue::Container(Container::Legacy),
            FieldValue::Container(Container::Loc)
        )
    );
}

#[test]
fn a_mismatch_keeps_what_was_merged_before_it() {
    let mut hint = AudioHint::default();
    hint.description = Some(vec![7]);
    hint.bitrate = Some(5);
    hint.container = Some(Container::Loc);
    hint.jitter = Some(Duration::from_millis(1));
    let mut config = opus();
    assert!(hint.apply(&mut config).is_err());
    assert_eq!(config.description, Some(vec![7]));
    assert_eq!(config.bitrate, Some(5));
    assert_eq!(config.container, Container::Legacy);
    assert_eq!(config.jitter, None);
}

#[test]
fn the_first_mismatch_is_reported() {
    let mut hint = AudioHint::default();
    hint.sample_rate = Some(1);
    hint.channel_count = Some(1);
    assert!(matches!(
        hint.apply(&mut opus()),
        Err(MuxError::InitMismatch { field: "audio.sample_rate", .. })
    ));
}

#[test]
fn audio_config_needs_three_fields() {
    let mut hint = AudioHint::default();
    hint.codec = Some(audio_codec("opus"));
    hint.sample_rate = Some(48_000);
    hint.bitrate = Some(9);
    assert_eq!(hint.to_config(), Ok(None));
    hint.channel_count = Some(2);
    let mut expected = opus();
    expected.bitrate = Some(9);
    assert_eq!(hint.to_config(), Ok(Some(expected)));
    // A new config is in the default container, so any other one disagrees with it.
    hint.container = Some(Container::Cmaf { init: vec![1] });
    assert!(matches!(
        hint.to_config(),
        Err(MuxError::InitMismatch { field: "audio.container", .. })
    ));
    hint.container = Some(Container::Legacy);
    assert!(hint.to_config().is_ok());
}

#[test]
fn video_hint_fills_in_and_replaces() {
    let mut hint = VideoHint::default();
    hint.codec = Some(video_codec("vp8"));
    hint.description = Some(vec![3]);
    hint.coded_width = Some(640);
    hint.coded_height = Some(480);
    hint.display_aspect_width = Some(4);
    hint.display_aspect_height = Some(3);
    hint.bitrate = Some(1_000);
    hint.framerate = Some(double(29.97));
    hint.optimize_for_latency = Some(true);
    hint.container = Some(Container::Legacy);
    hint.jitter = Some(Duration::from_millis(1_500));
    let mut config = vp8();
    config.coded_width = Some(640);
    config.bitrate = Some(2);
    config.optimize_for_latency = Some(false);
    assert_eq!(hint.apply(&mut config), Ok(()));
    let mut expected = vp8();
    expected.description = Some(vec![3]);
    expected.coded_width = Some(640);
    expected.coded_height = Some(480);
    expected.display_aspect_width = Some(4);
    expected.display_aspect_height = Some(3);
    expected.bitrate = Some(1_000);
    expected.framerate = Some(double(29.97));
    expected.optimize_for_latency = Some(true);
    expected.jitter = Some(Duration { secs: 1, nanos: 500_000_000 });
    assert_eq!(config, expected);
    assert_eq!(hint.to_config(), Ok(Some(expected)));
}

#[test]
fn video_mismatches_name_the_field() {
    let mut full = vp8();
    full.description = Some(vec![1]);
    full.coded_width = Some(10);
    full.coded_height = Some(20);
    full.display_aspect_width = Some(30);
    full.display_aspect_height = Some(40);
    full.framerate = Some(double(25.0));

    let mut hint = VideoHint::default();
    hint.codec = Some(video_codec("vp9"));
    assert_eq!(
        hint.apply(&mut full.clone()),
        mismatch(
            "video.codec",
            FieldValue::Codec("vp8".to_string()),
            FieldValue::Codec("vp9".to_string())
        )
    );

    let mut hint = VideoHint::default();
    hint.description = Some(vec![2]);
    assert_eq!(
        hint.apply(&mut full.clone()),
        mismatch("video.description", FieldValue::Bytes(vec![1]), FieldValue::Bytes(vec![2]))
    );

    let mut hint = VideoHint::default();
    hint.coded_width = Some(11);
    assert_eq!(
        hint.apply(&mut full.clone()),
        mismatch("video.coded_width", FieldValue::Number(10), FieldValue::Number(11))
    );

    let mut hint = VideoHint::default();
    hint.coded_height = Some(21);
    assert_eq!(
        hint.apply(&mut full.clone()),
        mismatch("video.coded_height", FieldValue::Number(20), FieldValue::Number(21))
    );

    let mut hint = VideoHint::default();
    hint.display_aspect_width = Some(31);
    assert_eq!(
        hint.apply(&mut full.clone()),
        mismatch("video.display_aspect_width", FieldValue::Number(30), FieldValue::Number(31))
    );

    let mut hint = VideoHint::default();
    hint.display_aspect_height = Some(41);
    assert_eq!(
        hint.apply(&mut full.clone()),
        mismatch("video.display_aspect_height", FieldValue::Number(40), FieldValue::Number(41))
    );

    let mut hint = VideoHint::default();
    hint.framerate = Some(double(24.0));
    assert_eq!(
        hint.apply(&mut full.clone()),
        mismatch(
            "video.framerate",
            FieldValue::Rate(double(25.0)),
            FieldValue::Rate(double(24.0))
        )
    );

    let mut hint = VideoHint::default();
    hint.container = Some(Container::Cmaf { init: vec![5] });
    assert_eq!(
        hint.apply(&mut full.clone()),
        mismatch(
            "video.container",
            FieldValue::Container(Container::Legacy),
            FieldValue::Container(Container::Cmaf { init: vec![5] })
        )
    );
}

#[test]
fn frame_rates_compare_as_numbers() {
    let zero = double(0.0);
    let minus_zero = double(-0.0);
    let nan = double(f64::NAN);
    assert!(zero.same(&minus_zero));
    assert!(!nan.same(&nan));
    assert!(!nan.same(&zero));
    assert!(double(f64::INFINITY).same(&double(f64::INFINITY)));
    assert!(!double(f64::INFINITY).same(&double(f64::NEG_INFINITY)));
    assert!(!double(1.0).same(&double(-1.0)));

    let mut hint = VideoHint::default();
    hint.framerate = Some(nan);
    let mut config = vp8();
    assert_eq!(hint.apply(&mut config), Ok(()));
    // What is not a number disagrees with itself.
    assert!(matches!(
        hint.apply(&mut config),
        Err(MuxError::InitMismatch { field: "video.framerate", .. })
    ));
    hint.framerate = Some(minus_zero);
    config.framerate = Some(zero);
    assert_eq!(hint.apply(&mut config), Ok(()));
    assert_eq!(config.framerate.map(|rate| rate.bits), Some(minus_zero.bits));
}

#[test]
fn video_config_needs_a_codec() {
    let mut hint = VideoHint::default();
    hint.coded_width = Some(1);
    assert_eq!(hint.to_config(), Ok(None));
    hint.codec = Some(video_codec("vp8"));
    let mut expected = vp8();
    expected.coded_width = Some(1);
    assert_eq!(hint.to_config(), Ok(Some(expected)));
    hint.container = Some(Container::Loc);
    assert!(matches!(
        hint.to_config(),
        Err(MuxError::InitMismatch { field: "video.container", .. })
    ));
}
