use moq_media::catalog::clock::resolve;
use moq_media::catalog::codec::{AudioCodec, VideoCodec};
use moq_media::catalog::publisher::Publisher;
use moq_media::catalog::{
    Audio, AudioConfig, AudioHint, AudioTrack, Catalog, Producer, Rendition, Video, VideoConfig,
    VideoHint, VideoTrack,
};
use moq_media::error::MuxError;
use moq_media::time::{TimeOverflow, Timestamp, MAX_TIMESTAMP};

fn vp8() -> VideoConfig {
    VideoConfig::new(VideoCodec { mime: "vp8".to_string(), detail: "VP8".to_string() })
}

fn opus() -> AudioConfig {
    AudioConfig::new(
        AudioCodec { mime: "opus".to_string(), detail: "Opus".to_string() },
        48_000,
        2,
    )
}

fn names(catalog: &Catalog) -> (Vec<String>, Vec<String>) {
    let mut video = Vec::new();
    for i in 0..catalog.video.renditions.len() {
        video.push(catalog.video.renditions.entry(i).name.clone());
    }
    let mut audio = Vec::new();
    for i in 0..catalog.audio.renditions.len() {
        audio.push(catalog.audio.renditions.entry(i).name.clone());
    }
    (video, audio)
}

fn listed(video: &[&str], audio: &[&str]) -> (Vec<String>, Vec<String>) {
    (
        video.iter().map(|name| name.to_string()).collect(),
        audio.iter().map(|name| name.to_string()).collect(),
    )
}

#[test]
fn first_snapshot_has_every_reserved_track() {
    let producer: Producer = Producer::new(Catalog::new(()));
    let reserved = producer.reserve();
    let mut video: VideoTrack = reserved.video("v".to_string());
    let mut audio: AudioTrack = reserved.audio("a".to_string());
    reserved.release();
    assert_eq!(video.name(), "v");
    video.set(vp8()).unwrap();
    assert!(producer.drain().is_empty());
    audio.set(opus()).unwrap();
    let sent = producer.drain();
    assert_eq!(sent.len(), 1);
    assert_eq!(names(&sent[0]), listed(&["v"], &["a"]));
    assert_eq!(sent[0].video.renditions.get("v"), Some(&vp8()));
    assert_eq!(sent[0].audio.renditions.get("a"), Some(&opus()));
    assert!(sent[0].audio.renditions.get("v").is_none());
}

#[test]
fn a_live_reservation_withholds_the_catalog() {
    let producer: Producer = Producer::new(Catalog::new(()));
    let reserved = producer.reserve();
    let again = reserved.clone();
    let mut video = reserved.video("v".to_string());
    video.set(vp8()).unwrap();
    reserved.release();
    assert!(producer.drain().is_empty());
    again.release();
    assert_eq!(producer.drain().len(), 1);
}

#[test]
fn changes_are_published_at_once_while_nothing_is_reserved() {
    let producer: Producer = Producer::new(Catalog::new(()));
    let reserved = producer.reserve();
    let mut video = reserved.video("v".to_string());
    reserved.release();
    video.set(vp8()).unwrap();
    assert_eq!(producer.drain().len(), 1);
    video.update(|config| config.bitrate = Some(7));
    let sent = producer.drain();
    assert_eq!(sent.len(), 1);
    assert_eq!(sent[0].video.renditions.get("v").unwrap().bitrate, Some(7));
    // Setting again replaces the config.
    video.set(vp8()).unwrap();
    let sent = producer.drain();
    assert_eq!(sent.len(), 1);
    assert_eq!(sent[0].video.renditions.get("v").unwrap().bitrate, None);
    producer.edit(|catalog| catalog.video.flip = Some(true));
    let sent = producer.drain();
    assert_eq!(sent.len(), 1);
    assert_eq!(sent[0].video.flip, Some(true));
    video.retire();
    let sent = producer.drain();
    assert_eq!(sent.len(), 1);
    assert_eq!(names(&sent[0]), listed(&[], &[]));
}

#[test]
fn an_unset_rendition_is_retired_without_a_removal() {
    let producer: Producer = Producer::new(Catalog::new(()));
    let reserved = producer.reserve();
    let mut kept = reserved.video("v".to_string());
    // Reserved under the same name but never set: ending it must not remove the other's entry.
    let unset = reserved.video("v".to_string());
    kept.set(vp8()).unwrap();
    reserved.release();
    assert!(producer.drain().is_empty());
    unset.retire();
    let sent = producer.drain();
    assert_eq!(sent.len(), 1);
    assert_eq!(names(&sent[0]), listed(&["v"], &[]));
}

#[test]
fn nothing_is_published_when_nothing_changed() {
    let producer: Producer = Producer::new(Catalog::new(()));
    let reserved = producer.reserve();
    let mut unset: Rendition<(), Video> = reserved.init::<Video>("v".to_string());
    unset.update(|config| config.bitrate = Some(1));
    unset.retire();
    reserved.release();
    assert!(producer.drain().is_empty());
}

#[test]
fn a_config_that_disagrees_with_its_hint_is_refused() {
    let producer: Producer = Producer::new(Catalog::new(()));
    let reserved = producer.reserve();
    let mut hint = AudioHint::default();
    hint.sample_rate = Some(44_100);
    hint.bitrate = Some(128_000);
    let mut audio = reserved.audio_with_hint("a".to_string(), hint);
    reserved.release();
    assert!(matches!(
        audio.set(opus()),
        Err(MuxError::InitMismatch { field: "audio.sample_rate", .. })
    ));
    assert!(producer.drain().is_empty());
    // It still holds its reservation, and can be set to a config that agrees.
    let mut config = opus();
    config.sample_rate = 44_100;
    audio.set(config).unwrap();
    let sent = producer.drain();
    assert_eq!(sent.len(), 1);
    assert_eq!(sent[0].audio.renditions.get("a").unwrap().bitrate, Some(128_000));
}

#[test]
fn a_hint_is_merged_into_the_published_config() {
    let producer: Producer = Producer::new(Catalog::new(()));
    let reserved = producer.reserve();
    let mut hint = VideoHint::default();
    hint.coded_width = Some(640);
    let mut video = reserved.video_with_hint("v".to_string(), hint);
    let mut other = reserved.init_with_hint::<Audio>("a".to_string(), AudioHint::default());
    let edits = reserved.producer();
    reserved.release();
    video.set(vp8()).unwrap();
    edits.edit(|catalog| catalog.video.flip = Some(false));
    assert!(producer.drain().is_empty());
    other.set(opus()).unwrap();
    let sent = producer.drain();
    assert_eq!(sent.len(), 1);
    assert_eq!(sent[0].video.renditions.get("v").unwrap().coded_width, Some(640));
    assert_eq!(sent[0].video.flip, Some(false));
}

#[test]
fn a_new_reservation_withholds_again() {
    let mut publisher: Publisher<()> = Publisher::new(Catalog::new(()));
    publisher.edit(|catalog| catalog.video.flip = Some(true));
    assert_eq!(publisher.drain().len(), 1);
    publisher.reserve();
    assert!(publisher.set::<Video>("v", vp8(), &VideoHint::default(), false).is_ok());
    publisher.update::<Video, _>("v", true, |config| config.bitrate = Some(3));
    publisher.update::<Video, _>("v", false, |config| config.bitrate = Some(5));
    publisher.update::<Video, _>("missing", true, |config| config.bitrate = Some(4));
    assert!(publisher.drain().is_empty());
    publisher.release();
    let sent = publisher.drain();
    assert_eq!(sent.len(), 1);
    assert_eq!(sent[0].video.renditions.get("v").unwrap().bitrate, Some(3));
    assert_eq!(names(&sent[0]), listed(&["v"], &[]));
    publisher.retire::<Video>("v", true, false);
    assert_eq!(names(&publisher.drain()[0]), listed(&[], &[]));
}

#[test]
fn timestamps_are_resolved_on_the_shared_clock() {
    let producer: Producer = Producer::new(Catalog::new(()));
    let reserved = producer.reserve();
    let video = reserved.video("v".to_string());
    let given = Timestamp::from_micros(42).unwrap();
    assert_eq!(producer.timestamp(Some(given)), Ok(given));
    assert_eq!(reserved.timestamp(Some(given)), Ok(given));
    assert_eq!(video.timestamp(Some(given)), Ok(given));
    let first = producer.timestamp(None).unwrap();
    let second = video.timestamp(None).unwrap();
    let third = reserved.timestamp(None).unwrap();
    assert!(first.as_micros() <= second.as_micros());
    assert!(second.as_micros() <= third.as_micros());
}

#[test]
fn elapsed_time_is_bounded() {
    let given = Timestamp::from_micros(1).unwrap();
    assert_eq!(resolve(Some(given), u128::MAX), Ok(given));
    assert_eq!(resolve(None, 5), Ok(Timestamp::from_micros(5).unwrap()));
    assert_eq!(
        resolve(None, MAX_TIMESTAMP as u128),
        Ok(Timestamp::from_micros(MAX_TIMESTAMP).unwrap())
    );
    assert_eq!(
        resolve(None, MAX_TIMESTAMP as u128 + 1),
        Err(MuxError::Timestamp(TimeOverflow))
    );
}
