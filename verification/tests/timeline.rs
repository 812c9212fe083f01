use moq_media::kio::{Poll, Waiter};
use moq_media::time::Timestamp;
use moq_media::timeline::throttle::Throttle;
use moq_media::timeline::wall::anchor;
use moq_media::timeline::{
    track_name, Consumer, Index, Producer, Record, DEFAULT_GRANULARITY_MICROS, DEFAULT_TIMESCALE,
    MOQ_EPOCH_UNIX_MILLIS,
};

fn micros(us: u64) -> Timestamp {
    Timestamp::from_micros(us).unwrap()
}

/// Drain every record currently available without blocking.
fn drain_ref(consumer: &mut Consumer) -> Vec<Record> {
    let waiter = Waiter::noop();
    let mut out = Vec::new();
    while let Poll::Ready(Ok(Some(record))) = consumer.poll_next(&waiter) {
        out.push(record);
    }
    out
}

fn drain(mut consumer: Consumer) -> Vec<Record> {
    drain_ref(&mut consumer)
}

#[test]
fn records_group_opens_in_milliseconds() {
    let mut broadcast = moq_net::Broadcast::new().produce();
    let producer = Producer::new(&mut broadcast, "video0").unwrap();
    assert_eq!(producer.section().track, "video0.timeline");

    // Group 0 opens at 0us, group 1 at 4_000_000us.
    let mut media = producer.clone();
    media.record(0, micros(0)).unwrap();
    media.record(1, micros(4_000_000)).unwrap();
    media.finish().unwrap();

    // pts is in milliseconds (the default timescale), not the micros the media carries.
    let records = drain(producer.consume());
    assert_eq!(records, vec![Record::new(0, 0), Record::new(1, 4_000)]);
}

#[test]
fn granularity_throttles_records() {
    let mut broadcast = moq_net::Broadcast::new().produce();
    let mut producer = Producer::new(&mut broadcast, "audio0").unwrap();

    // Default granularity is 1s. Group opens 300ms apart, all within a second of the first,
    // then one past it: only the first and the one past the granularity are recorded.
    for (seq, ms) in [(0u64, 0u64), (1, 300), (2, 600), (3, 900), (4, 1200)] {
        producer.record(seq, Timestamp::from_millis(ms).unwrap()).unwrap();
    }
    producer.finish().unwrap();

    let records = drain(producer.consume());
    assert_eq!(records, vec![Record::new(0, 0), Record::new(4, 1200)]);
}

#[test]
fn section_advertises_track_and_wall() {
    let mut broadcast = moq_net::Broadcast::new().produce();
    let producer = Producer::new(&mut broadcast, "audio0").unwrap();

    let section = producer.section();
    assert_eq!(section.track, "audio0.timeline");
    assert_eq!(section.timescale, 1000);
    assert_eq!(section.wall, None);

    // pts 0 observed at Unix ms 1_751_846_400_000 => wall of pts 0 is that time minus the moq
    // epoch (ms timescale).
    let moq = MOQ_EPOCH_UNIX_MILLIS;
    producer.set_wall(micros(0), 1_751_846_400_000);
    assert_eq!(producer.section().wall, Some(1_751_846_400_000 - moq));

    // A nonzero pts extrapolates back to pts 0: a frame at pts 2s observed at that wall time
    // means pts 0 was 2s (2000 ms) earlier.
    producer.set_wall(micros(2_000_000), 1_751_846_400_000);
    assert_eq!(producer.section().wall, Some(1_751_846_400_000 - moq - 2_000));
}

#[test]
fn consumer_reads_the_named_track() {
    let mut broadcast = moq_net::Broadcast::new().produce();
    let mut producer = Producer::new(&mut broadcast, "video0").unwrap();
    producer.record(3, micros(7_000)).unwrap();
    producer.finish().unwrap();

    // Subscribe by the advertised name, like a remote consumer reading the catalog would.
    let subscriber = broadcast
        .consume()
        .subscribe_track(&moq_net::Track::new(&producer.section().track))
        .unwrap();
    let mut consumer = Consumer::new(subscriber, producer.section().timescale);
    let records = drain_ref(&mut consumer);
    assert_eq!(records, vec![Record::new(3, 7)]);
    assert_eq!(consumer.pts_micros(7), 7_000);
}

#[test]
fn epoch_and_timescale_are_the_conventional_ones() {
    assert_eq!(MOQ_EPOCH_UNIX_MILLIS, hang::catalog::MOQ_EPOCH_UNIX_MILLIS);
    assert_eq!(DEFAULT_TIMESCALE, hang::catalog::Timeline::default_timescale());
    assert_eq!(DEFAULT_GRANULARITY_MICROS, 1_000_000);
    assert_eq!(track_name("video0"), "video0.timeline");
    assert_eq!(track_name(""), ".timeline");
}

#[test]
fn a_second_timeline_of_the_same_name_is_refused() {
    let mut broadcast = moq_net::Broadcast::new().produce();
    let _first = Producer::new(&mut broadcast, "video0").unwrap();
    assert!(matches!(
        Producer::new(&mut broadcast, "video0"),
        Err(moq_net::Error::Duplicate)
    ));
}

#[test]
fn recording_after_the_end_fails_but_still_throttles() {
    let mut broadcast = moq_net::Broadcast::new().produce();
    let mut producer = Producer::new(&mut broadcast, "video0").unwrap();
    producer.record(0, micros(0)).unwrap();
    producer.finish().unwrap();
    assert!(producer.finish().is_err());
    assert!(producer.record(1, micros(5_000_000)).is_err());
    // The failed group counts as the last one.
    assert!(producer.record(2, micros(5_500_000)).is_ok());
    assert!(producer.record(3, micros(6_000_000)).is_err());
    assert_eq!(drain(producer.consume()), vec![Record::new(0, 0)]);
}

#[test]
fn clones_share_the_throttle_and_the_wall() {
    let mut broadcast = moq_net::Broadcast::new().produce();
    let mut first = Producer::new(&mut broadcast, "audio0").unwrap();
    let mut second = first.clone().with_granularity(micros(100));
    first.record(0, micros(1_000)).unwrap();
    first.record(1, micros(1_150)).unwrap();
    second.record(2, micros(1_150)).unwrap();
    second.record(3, micros(1_249)).unwrap();
    second.record(4, micros(2_250)).unwrap();
    first.finish().unwrap();
    assert_eq!(
        drain(second.consume()),
        vec![Record::new(0, 1), Record::new(2, 1), Record::new(4, 2)]
    );
    second.set_wall(micros(0), MOQ_EPOCH_UNIX_MILLIS + 5);
    assert_eq!(first.section().wall, Some(5));
}

#[test]
fn throttle_admits_at_the_granularity_and_not_before() {
    let mut throttle = Throttle::new();
    let second = micros(1_000_000);
    assert!(throttle.accept(second, micros(500)));
    assert!(!throttle.accept(second, micros(500)));
    assert!(!throttle.accept(second, micros(1_000_499)));
    assert!(throttle.accept(second, micros(1_000_500)));
    // Going back is too soon.
    assert!(!throttle.accept(second, micros(0)));
    assert!(!throttle.accept(micros(0), micros(1_000_499)));
    assert!(throttle.accept(micros(0), micros(1_000_500)));
}

#[test]
fn anchors_do_not_go_below_the_epoch() {
    assert_eq!(anchor(micros(0), 0, 1000), 0);
    assert_eq!(anchor(micros(0), MOQ_EPOCH_UNIX_MILLIS, 1000), 0);
    assert_eq!(anchor(micros(3_000_000), MOQ_EPOCH_UNIX_MILLIS + 2_999, 1000), 0);
    assert_eq!(anchor(micros(3_000_999), MOQ_EPOCH_UNIX_MILLIS + 5_000, 1000), 2_000);
    assert_eq!(anchor(micros(1_000_000), MOQ_EPOCH_UNIX_MILLIS + 5_000, 90_000), 360_000);
    // The 64 low bits, where the timescale is that fine.
    let wide = (u64::MAX - MOQ_EPOCH_UNIX_MILLIS) as u128 * 4_000_000_000 / 1000;
    assert_eq!(anchor(micros(0), u64::MAX, 4_000_000_000), wide as u64);
}

#[test]
fn observed_time_is_recovered_from_the_anchor() {
    let observed = 1_751_846_400_123;
    let wall = anchor(micros(7_654_321), observed, 1000);
    assert_eq!(wall + 7_654 + MOQ_EPOCH_UNIX_MILLIS, observed);
}

#[test]
fn timestamps_convert_to_microseconds() {
    let mut broadcast = moq_net::Broadcast::new().produce();
    let producer = Producer::new(&mut broadcast, "video0").unwrap();
    let consumer = producer.consume();
    assert_eq!(consumer.timescale(), 1000);
    assert_eq!(consumer.pts_micros(0), 0);
    assert_eq!(consumer.pts_micros(1_234), 1_234_000);
    assert_eq!(consumer.pts_micros(u64::MAX), (u64::MAX as u128 * 1000) as u64);

    let track = moq_net::Track::new("other").produce();
    let ticks = Consumer::new(track.consume(), 90_000);
    assert_eq!(ticks.timescale(), 90_000);
    assert_eq!(ticks.pts_micros(90_000), 1_000_000);
    assert_eq!(ticks.pts_micros(1), 11);
}

#[test]
fn live_consumer_sees_each_record_and_the_end() {
    let mut broadcast = moq_net::Broadcast::new().produce();
    let mut producer = Producer::new(&mut broadcast, "video0").unwrap();
    let mut consumer = producer.consume();
    let waiter = Waiter::noop();
    assert!(matches!(consumer.poll_next(&waiter), Poll::Pending));
    producer.record(9, micros(2_000_999)).unwrap();
    assert!(matches!(
        consumer.poll_next(&waiter),
        Poll::Ready(Ok(Some(Record { group: 9, pts: 2_000 })))
    ));
    assert!(matches!(consumer.poll_next(&waiter), Poll::Pending));
    producer.finish().unwrap();
    assert!(matches!(consumer.poll_next(&waiter), Poll::Ready(Ok(None))));
}

#[test]
fn timestamps_are_bounded() {
    let max = moq_media::time::MAX_TIMESTAMP;
    assert_eq!(Timestamp::from_micros(max).unwrap().as_micros(), max);
    assert!(Timestamp::from_micros(max + 1).is_err());
    assert_eq!(Timestamp::from_millis(max / 1000).unwrap().as_micros(), max / 1000 * 1000);
    assert!(Timestamp::from_millis(max / 1000 + 1).is_err());
    assert!(Timestamp::from_millis(u64::MAX).is_err());
    assert_eq!(Timestamp::from_secs(3).unwrap().as_micros(), 3_000_000);
    assert!(Timestamp::from_secs(u64::MAX).is_err());
    assert_eq!(Timestamp::from_secs(3).unwrap().as_scale(90_000), 270_000);
    assert_eq!(micros(1_999).as_scale(1000), 1);
    // The same bound and the same conversions as on the wire.
    assert!(moq_net::Timescale::<1_000_000>::from_micros(max).is_ok());
    assert!(moq_net::Timescale::<1_000_000>::from_micros(max + 1).is_err());
    let wire = moq_net::Timescale::<1_000_000>::from_micros(max).unwrap();
    assert_eq!(wire.as_scale(90_000), micros(max).as_scale(90_000));
}

#[test]
fn an_index_keeps_what_is_a_granularity_apart() {
    let mut index = Index::new(moq_net::Track::new("t").produce());
    let granularity = micros(10_000);
    for (sequence, time) in [(5, 1_000), (6, 10_999), (7, 11_000), (8, 11_001), (9, 30_999)] {
        index.open(granularity, sequence, micros(time)).unwrap();
    }
    let consumer = index.consume();
    index.finish().unwrap();
    // Nothing follows the end.
    assert!(index.finish().is_err());
    assert!(index.open(granularity, 10, micros(90_000)).is_err());
    assert_eq!(
        drain(consumer),
        vec![Record::new(5, 1), Record::new(7, 11), Record::new(9, 30)]
    );
}
