//! The publishing side of a timeline.

use crate::catalog::config::Timeline;
use crate::locks::Unrestricted;
use crate::time::Timestamp;
use crate::timeline::consumer::Consumer;
use crate::timeline::log::{create_track, LogError, Record, RecordLog};
use crate::timeline::throttle::Throttle;
use crate::timeline::wall::anchor;
use std::sync::Arc;
use vstd::prelude::*;
use vstd::rwlock::{RwLock, RwLockPredicate};
use vstd::string::*;

verus! {

/// The default granularity, in microseconds: at most one record per second of media time.
pub const DEFAULT_GRANULARITY_MICROS: u64 = 1_000_000;

/// The default timescale: milliseconds.
pub const DEFAULT_TIMESCALE: u32 = 1000;

/// The conventional name of the timeline track of the rendition `name`.
pub open spec fn timeline_of(name: Seq<char>) -> Seq<char> {
    name + ".timeline"@
}

/// The conventional name of a rendition's timeline track: `<name>.timeline`.
pub fn track_name(name: &str) -> (track: String)
    ensures
        track@ == timeline_of(name@),
{
    let mut track = name.to_owned();
    track.append(".timeline");
    track
}

/// The record of a group that opens at `pts`, at the default timescale.
pub open spec fn record_of(sequence: u64, pts: Timestamp) -> Record {
    Record { group: sequence, pts: pts.scaled(DEFAULT_TIMESCALE as int) as u64 }
}

/// The records never go back in time, and none is later than `last`, in microseconds.
pub open spec fn ordered(records: Seq<Record>, last: Option<int>) -> bool {
    &&& forall|i: int, j: int|
        0 <= i < j < records.len() ==> (#[trigger] records[i]).pts <= (#[trigger] records[j]).pts
    &&& forall|i: int|
        0 <= i < records.len() ==> last is Some && (#[trigger] records[i]).pts * 1000
            <= last.unwrap()
}

/// A log, and the throttle in front of it.
pub struct Index {
    log: RecordLog,
    throttle: Throttle,
}

impl Index {
    /// The records, in order.
    pub closed spec fn records(self) -> Seq<Record> {
        crate::timeline::log::records_of(self.log)
    }

    /// The time of the last group that was to be recorded, in microseconds.
    pub closed spec fn last(self) -> Option<int> {
        self.throttle.last()
    }

    /// The name of the log's track, and whether its frames are compressed.
    pub closed spec fn source(self) -> (Seq<char>, bool) {
        crate::timeline::log::log_source(self.log)
    }

    /// Whether the log has been finished.
    pub closed spec fn finished(self) -> bool {
        crate::timeline::log::finished(self.log)
    }

    /// Nothing has been recorded or finished.
    pub open spec fn is_new(self) -> bool {
        &&& self.records() == Seq::<Record>::empty()
        &&& self.last() is None
        &&& !self.finished()
    }

    /// An empty index on `track`.
    pub fn new(track: moq_net::TrackProducer) -> (index: Self)
        ensures
            index.is_new(),
            index.source() == (crate::timeline::log::published_name(track), true),
    {
        Index { log: RecordLog::new(track, true), throttle: Throttle::new() }
    }

    /// Opening group `sequence` at `pts` gave `result` and left `after`: nothing happens if that is
    /// too soon after the last one, else the group is recorded. Where the track fails, as a
    /// finished one does, the group counts as recorded all the same.
    pub open spec fn opened(
        self,
        granularity: Timestamp,
        sequence: u64,
        pts: Timestamp,
        result: Result<(), moq_net::Error>,
        after: Self,
    ) -> bool {
        &&& if crate::timeline::throttle::too_soon(
            self.last(),
            granularity.micros() as int,
            pts.micros() as int,
        ) {
            &&& result is Ok
            &&& after.records() == self.records()
            &&& after.last() == self.last()
        } else {
            &&& after.records() == if result is Ok {
                self.records().push(record_of(sequence, pts))
            } else {
                self.records()
            }
            &&& after.last() == Some(pts.micros() as int)
            &&& self.finished() ==> result is Err
        }
        &&& after.finished() == self.finished()
        &&& after.source() == self.source()
    }

    /// Ending the track gave `result` and left `after`. A second end fails.
    pub open spec fn ended(self, result: Result<(), moq_net::Error>, after: Self) -> bool {
        &&& self.finished() ==> result is Err
        &&& after.finished() == (self.finished() || result is Ok)
        &&& after.records() == self.records()
        &&& after.last() == self.last()
        &&& after.source() == self.source()
    }

    /// Record that group `sequence` opened at `pts`, unless that is too soon after the last one.
    pub fn open(&mut self, granularity: Timestamp, sequence: u64, pts: Timestamp) -> (result: Result<
        (),
        moq_net::Error,
    >)
        ensures
            old(self).opened(granularity, sequence, pts, result, *final(self)),
            ordered(old(self).records(), old(self).last()) ==> ordered(
                final(self).records(),
                final(self).last(),
            ),
    {
        if !self.throttle.accept(granularity, pts) {
            return Ok(());
        }
        let units: u128 = pts.as_scale(DEFAULT_TIMESCALE as u64);
        let micros: u64 = pts.as_micros();
        assert(micros * 1000 / 1_000_000 <= micros);
        let record = Record::new(sequence, units as u64);
        match self.log.append(&record) {
            Ok(()) => Ok(()),
            Err(LogError::Net(err)) => Err(err),
            Err(LogError::Encode(_)) => vstd::pervasive::unreached(),
        }
    }

    /// End the track after the last record.
    pub fn finish(&mut self) -> (result: Result<(), moq_net::Error>)
        ensures
            old(self).ended(result, *final(self)),
    {
        match self.log.finish() {
            Ok(()) => Ok(()),
            Err(LogError::Net(err)) => Err(err),
            Err(LogError::Encode(_)) => vstd::pervasive::unreached(),
        }
    }

    /// A consumer of the log's track.
    pub fn consume(&self) -> (consumer: Consumer)
        ensures
            consumer.source() == (self.source().0, true),
            consumer.units() == DEFAULT_TIMESCALE,
    {
        Consumer::new(self.log.consume(), DEFAULT_TIMESCALE)
    }
}

/// What the lock on an [`Index`] keeps: its track, and its records in order.
pub struct Indexed {
    pub track: Seq<char>,
}

impl RwLockPredicate<Index> for Indexed {
    open spec fn inv(self, index: Index) -> bool {
        &&& index.source() == (self.track, true)
        &&& ordered(index.records(), index.last())
    }
}

/// Publishes one media track's timeline.
///
/// Cheaply clonable: clones share the track, the throttle and the wall-clock anchor.
pub struct Producer {
    index: Arc<RwLock<Index, Indexed>>,
    track: String,
    timescale: u32,
    wall: Arc<RwLock<Option<u64>, Unrestricted>>,
    granularity: Timestamp,
}

impl Producer {
    #[verifier::type_invariant]
    spec fn well_formed(self) -> bool {
        &&& self.index.pred().track == self.track@
        &&& self.timescale == DEFAULT_TIMESCALE
    }

    /// The name of the timeline track.
    pub closed spec fn track(self) -> Seq<char> {
        self.track@
    }

    /// The minimum media time between two records.
    pub closed spec fn granularity(self) -> Timestamp {
        self.granularity
    }

    /// The lock around the track's log and its throttle.
    pub closed spec fn index(self) -> RwLock<Index, Indexed> {
        *self.index
    }

    /// The lock around the wall-clock anchor.
    pub closed spec fn wall(self) -> RwLock<Option<u64>, Unrestricted> {
        *self.wall
    }

    /// The broadcast was asked for a track named `name`, and gave `net`.
    pub closed spec fn asked(
        broadcast: moq_net::BroadcastProducer,
        name: Seq<char>,
        net: Result<moq_net::TrackProducer, moq_net::Error>,
    ) -> bool {
        exists|b: &mut moq_net::BroadcastProducer, n: &str|
            *b == broadcast && n@ == name && #[trigger] call_ensures(create_track, (b, n), net)
    }

    /// Create a timeline track for the media rendition `name` on the given broadcast, at the
    /// default timescale and granularity. Fails where the broadcast refuses the track.
    pub fn new(broadcast: &mut moq_net::BroadcastProducer, name: &str) -> (producer: Result<
        Self,
        moq_net::Error,
    >)
        ensures
            exists|net: Result<moq_net::TrackProducer, moq_net::Error>| #[trigger]
                Self::asked(*old(broadcast), timeline_of(name@), net) && match net {
                    Ok(_) => producer is Ok,
                    Err(e) => producer == Err::<Self, moq_net::Error>(e),
                },
            producer matches Ok(p) ==> {
                &&& p.track() == timeline_of(name@)
                &&& p.granularity().micros() == DEFAULT_GRANULARITY_MICROS
                &&& crate::locks::made(p.wall(), None, Unrestricted)
                &&& exists|index: Index|
                    index.is_new() && #[trigger] crate::locks::made(
                        p.index(),
                        index,
                        Indexed { track: timeline_of(name@) },
                    )
            },
    {
        let track = track_name(name);
        let net = create_track(broadcast, track.as_str());
        assert(Self::asked(*old(broadcast), timeline_of(name@), net));
        let net = match net {
            Ok(net) => net,
            Err(err) => return Err(err),
        };
        let index = Index::new(net);
        let granularity = match Timestamp::from_micros(DEFAULT_GRANULARITY_MICROS) {
            Ok(granularity) => granularity,
            Err(_) => vstd::pervasive::unreached(),
        };
        let ghost kept = Indexed { track: track@ };
        let producer = Producer {
            index: Arc::new(RwLock::new(index, Ghost(kept))),
            track,
            timescale: DEFAULT_TIMESCALE,
            wall: Arc::new(RwLock::new(None, Ghost(Unrestricted))),
            granularity,
        };
        assert(crate::locks::made(producer.index(), index, kept));
        Ok(producer)
    }

    /// Set the record throttle: at most one record per `granularity` of media time.
    pub fn with_granularity(self, granularity: Timestamp) -> (producer: Self)
        ensures
            producer.granularity() == granularity,
            producer.track() == self.track(),
            producer.index() == self.index(),
            producer.wall() == self.wall(),
    {
        proof {
            use_type_invariant(&self);
        }
        Producer { granularity, ..self }
    }

    /// The catalog section advertising this timeline, to attach to the rendition's config. Its
    /// anchor is the last one set through any clone.
    pub fn section(&self) -> (section: Timeline)
        ensures
            section@.track == self.track(),
            section@.timescale == DEFAULT_TIMESCALE,
            crate::locks::looked(self.wall(), |wall: Option<u64>| section@.wall == wall),
    {
        proof {
            use_type_invariant(self);
        }
        let (wall, handle) = self.wall.acquire_write();
        handle.release_write(wall);
        assert(crate::locks::taken(self.wall(), wall, handle));
        assert(crate::locks::put_back(handle, wall));
        Timeline { track: self.track.clone(), timescale: self.timescale, wall }
    }

    /// Set (or replace) the wall-clock anchor advertised in the catalog section, from an observed
    /// pairing of a media timestamp `pts` with its wall-clock time `unix_millis` (Unix epoch
    /// milliseconds): the [`anchor`] of the two.
    pub fn set_wall(&self, pts: Timestamp, unix_millis: u64)
        ensures
            crate::locks::stepped(
                self.wall(),
                |before: Option<u64>, after: Option<u64>|
                    after matches Some(wall) && wall == crate::timeline::wall::anchor_of(
                        pts,
                        unix_millis as int,
                        DEFAULT_TIMESCALE as int,
                    ),
            ),
    {
        proof {
            use_type_invariant(self);
            crate::timeline::wall::millisecond_anchor_fits(pts, unix_millis);
        }
        let wall: u64 = anchor(pts, unix_millis, self.timescale);
        let (before, handle) = self.wall.acquire_write();
        handle.release_write(Some(wall));
        assert(crate::locks::taken(self.wall(), before, handle));
        assert(crate::locks::put_back(handle, Some(wall)));
    }

    /// Record that group `sequence` opened at presentation time `pts`, unless it falls within the
    /// granularity of the last recorded group: [`Index::open`].
    pub fn record(&mut self, sequence: u64, pts: Timestamp) -> (result: Result<(), moq_net::Error>)
        ensures
            *final(self) == *old(self),
            crate::locks::stepped(
                old(self).index(),
                |before: Index, after: Index|
                    before.opened(old(self).granularity(), sequence, pts, result, after),
            ),
    {
        let (mut index, handle) = self.index.acquire_write();
        let ghost before = index;
        let result = index.open(self.granularity, sequence, pts);
        handle.release_write(index);
        assert(crate::locks::taken(self.index(), before, handle));
        assert(crate::locks::put_back(handle, index));
        result
    }

    /// Create a subscriber for the underlying track: [`Index::consume`].
    pub fn consume(&self) -> (consumer: Consumer)
        ensures
            consumer.source() == (self.track(), true),
            consumer.units() == DEFAULT_TIMESCALE,
            crate::locks::looked(
                self.index(),
                |index: Index| consumer.source() == (index.source().0, true),
            ),
    {
        proof {
            use_type_invariant(self);
        }
        let (index, handle) = self.index.acquire_write();
        let consumer = index.consume();
        handle.release_write(index);
        assert(crate::locks::taken(self.index(), index, handle));
        assert(crate::locks::put_back(handle, index));
        consumer
    }

    /// Finish the timeline track, closing any open group: [`Index::finish`].
    pub fn finish(&mut self) -> (result: Result<(), moq_net::Error>)
        ensures
            *final(self) == *old(self),
            crate::locks::stepped(
                old(self).index(),
                |before: Index, after: Index| before.ended(result, after),
            ),
    {
        let (mut index, handle) = self.index.acquire_write();
        let ghost before = index;
        let result = index.finish();
        handle.release_write(index);
        assert(crate::locks::taken(self.index(), before, handle));
        assert(crate::locks::put_back(handle, index));
        result
    }
}

impl Clone for Producer {
    fn clone(&self) -> (producer: Self)
        ensures
            producer.track() == self.track(),
            producer.granularity() == self.granularity(),
            producer.index() == self.index(),
            producer.wall() == self.wall(),
    {
        proof {
            use_type_invariant(self);
        }
        Producer {
            index: self.index.clone(),
            track: self.track.clone(),
            timescale: self.timescale,
            wall: self.wall.clone(),
            granularity: self.granularity,
        }
    }
}

} // verus!
