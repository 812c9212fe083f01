//! The log of records that a timeline track carries, and its reader.

use crate::kio::state::Poll;
use std::task::Waker;
use vstd::prelude::*;

verus! {

/// One timeline record: the media track opened group `group` at time `pts`, in the timeline's
/// timescale.
#[derive(Clone, Copy, Debug, PartialEq, Eq, Structural)]
pub struct Record {
    pub group: u64,
    pub pts: u64,
}

impl Record {
    /// A record of its two fields.
    pub fn new(group: u64, pts: u64) -> (record: Self)
        ensures
            record == (Record { group, pts }),
    {
        Record { group, pts }
    }
}

/// `moq_net::Error`, carried as an opaque value.
#[verifier::external_type_specification]
#[verifier::external_body]
pub struct ExNetError(moq_net::Error);

/// `moq_json::Error`, carried as an opaque value.
#[verifier::external_type_specification]
#[verifier::external_body]
pub struct ExJsonError(moq_json::Error);

/// `moq_net::BroadcastProducer`, carried as an opaque value.
#[verifier::external_type_specification]
#[verifier::external_body]
pub struct ExBroadcastProducer(moq_net::BroadcastProducer);

/// `moq_net::TrackProducer`, carried as an opaque value.
#[verifier::external_type_specification]
#[verifier::external_body]
pub struct ExTrackProducer(moq_net::TrackProducer);

/// `moq_net::TrackConsumer`, carried as an opaque value.
#[verifier::external_type_specification]
#[verifier::external_body]
pub struct ExTrackConsumer(moq_net::TrackConsumer);

/// The name of the track that a `moq_net::TrackProducer` publishes.
pub uninterp spec fn published_name(track: moq_net::TrackProducer) -> Seq<char>;

/// The name of the track that a `moq_net::TrackConsumer` reads.
pub uninterp spec fn subscribed_name(track: moq_net::TrackConsumer) -> Seq<char>;

/// The records that a log has accepted, in order.
pub uninterp spec fn records_of(log: RecordLog) -> Seq<Record>;

/// What a log was made with: the name of its track, and whether its frames are compressed.
pub uninterp spec fn log_source(log: RecordLog) -> (Seq<char>, bool);

/// Whether a log has been finished: `finish` has succeeded on it.
pub uninterp spec fn finished(log: RecordLog) -> bool;

/// What a reader was made with: the name of its track, and whether it takes the frames for
/// compressed.
pub uninterp spec fn reader_source(reader: RecordReader) -> (Seq<char>, bool);

/// Why a log operation failed.
pub enum LogError {
    /// The track failed.
    Net(moq_net::Error),
    /// The record could not be encoded.
    Encode(moq_json::Error),
}

/// `moq_net::BroadcastProducer::create_track`, for `moq_net::Track::new`: a track of the given
/// name. It fails when the broadcast has ended or has a track of that name, which other handles
/// on the broadcast decide too.
#[verifier::external_body]
pub(crate) fn create_track(
    broadcast: &mut moq_net::BroadcastProducer,
    name: &str,
) -> (track: Result<moq_net::TrackProducer, moq_net::Error>)
    ensures
        track matches Ok(t) ==> published_name(t) == name@,
{
    broadcast.create_track(moq_net::Track::new(name))
}

/// An append-only log of records on a track. Its one handle: it cannot be cloned.
#[verifier::external_body]
pub struct RecordLog {
    inner: moq_json::stream::Producer<hang::timeline::Record>,
}

impl RecordLog {
    /// `moq_json::stream::Producer::new`: an empty log on `track`.
    #[verifier::external_body]
    pub(crate) fn new(track: moq_net::TrackProducer, compression: bool) -> (log: Self)
        ensures
            records_of(log) == Seq::<Record>::empty(),
            log_source(log) == (published_name(track), compression),
            !finished(log),
    {
        let config = moq_json::stream::ProducerConfig::default().with_compression(compression);
        RecordLog { inner: moq_json::stream::Producer::new(track, config) }
    }

    /// `moq_json::stream::Producer::append`: adds the record at the end of the log, unless the
    /// track has failed or ended. A finished log takes no more records. A record of integers
    /// always encodes, and so does every compressed frame, so an error is the track's.
    #[verifier::external_body]
    pub(crate) fn append(&mut self, record: &Record) -> (result: Result<(), LogError>)
        ensures
            result is Ok ==> records_of(*final(self)) == records_of(*old(self)).push(*record),
            result is Err ==> records_of(*final(self)) == records_of(*old(self)),
            result matches Err(e) ==> e is Net,
            finished(*old(self)) ==> result is Err,
            finished(*final(self)) == finished(*old(self)),
            log_source(*final(self)) == log_source(*old(self)),
    {
        match self.inner.append(&hang::timeline::Record::new(record.group, record.pts)) {
            Ok(()) => Ok(()),
            Err(moq_json::Error::Net(err)) => Err(LogError::Net(err)),
            Err(err) => Err(LogError::Encode(err)),
        }
    }

    /// `moq_json::stream::Producer::finish`: ends the track after the last record. A log is
    /// finished once: a second attempt fails. An error is the track's.
    #[verifier::external_body]
    pub(crate) fn finish(&mut self) -> (result: Result<(), LogError>)
        ensures
            records_of(*final(self)) == records_of(*old(self)),
            result matches Err(e) ==> e is Net,
            finished(*old(self)) ==> result is Err,
            finished(*final(self)) == (finished(*old(self)) || result is Ok),
            log_source(*final(self)) == log_source(*old(self)),
    {
        match self.inner.finish() {
            Ok(()) => Ok(()),
            Err(moq_json::Error::Net(err)) => Err(LogError::Net(err)),
            Err(err) => Err(LogError::Encode(err)),
        }
    }

    /// `moq_json::stream::Producer::consume`: a subscriber to the log's track.
    #[verifier::external_body]
    pub(crate) fn consume(&self) -> (track: moq_net::TrackConsumer)
        ensures
            subscribed_name(track) == log_source(*self).0,
    {
        self.inner.consume()
    }
}

/// Reads a log from the start of its track.
#[verifier::external_body]
pub struct RecordReader {
    inner: moq_json::stream::Consumer<hang::timeline::Record>,
    /// Keeps the registration of the last poll alive.
    waiter: moq_net::kio::Waiter,
}

impl RecordReader {
    /// `moq_json::stream::Consumer::new`: a reader of `track`.
    #[verifier::external_body]
    pub(crate) fn new(track: moq_net::TrackConsumer, compression: bool) -> (reader: Self)
        ensures
            reader_source(reader) == (subscribed_name(track), compression),
    {
        let config = moq_json::stream::ConsumerConfig::default().with_compression(compression);
        let inner = moq_json::stream::Consumer::new(track, config);
        RecordReader { inner, waiter: moq_net::kio::Waiter::noop() }
    }

    /// `moq_json::stream::Consumer::poll_next`: the next record of the track, or nothing once
    /// the track has ended. While there is none yet, `waker` is woken once there may be. What
    /// comes back rests on the publisher and on the network.
    #[verifier::external_body]
    pub(crate) fn poll_next(&mut self, waker: &Waker) -> (next: Poll<
        Result<Option<Record>, moq_json::Error>,
    >)
        ensures
            reader_source(*final(self)) == reader_source(*old(self)),
    {
        self.waiter = moq_net::kio::Waiter::new(waker.clone());
        match self.inner.poll_next(&self.waiter) {
            std::task::Poll::Ready(Ok(Some(r))) => {
                Poll::Ready(Ok(Some(Record { group: r.group, pts: r.pts })))
            },
            std::task::Poll::Ready(Ok(None)) => Poll::Ready(Ok(None)),
            std::task::Poll::Ready(Err(err)) => Poll::Ready(Err(err)),
            std::task::Poll::Pending => Poll::Pending,
        }
    }
}

} // verus!
