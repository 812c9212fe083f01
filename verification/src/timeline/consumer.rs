//! The reading side of a timeline.

use crate::kio::state::Poll;
use crate::kio::waiter::Waiter;
use crate::time::Timestamp;
use crate::timeline::log::{Record, RecordReader};
use std::task::Waker;
use vstd::prelude::*;

verus! {

/// `pts`, in `timescale` units, in microseconds rounded down.
pub open spec fn micros_of(pts: int, timescale: int) -> int {
    pts * 1_000_000 / timescale
}

/// Consumes a timeline track, yielding every [`Record`] in publish order.
pub struct Consumer {
    inner: RecordReader,
    timescale: u32,
}

impl Consumer {
    /// The name of the track that is read, and whether its frames are taken for compressed.
    pub closed spec fn source(self) -> (Seq<char>, bool) {
        crate::timeline::log::reader_source(self.inner)
    }

    /// The units per second of the records' timestamps.
    pub closed spec fn units(self) -> u32 {
        self.timescale
    }

    /// Create a consumer reading from the given track subscriber.
    ///
    /// `timescale` is the one in the media track's catalog section, so that
    /// [`pts_micros`](Self::pts_micros) can convert records back to microseconds.
    pub fn new(track: moq_net::TrackConsumer, timescale: u32) -> (consumer: Self)
        ensures
            consumer.source() == (crate::timeline::log::subscribed_name(track), true),
            consumer.units() == timescale,
    {
        Consumer { inner: RecordReader::new(track, true), timescale }
    }

    /// The timescale (units per second) of the records' `pts` field.
    pub fn timescale(&self) -> (timescale: u32)
        ensures
            timescale == self.units(),
    {
        self.timescale
    }

    /// Convert a record's `pts` to microseconds, as far as 64 bits hold them.
    pub fn pts_micros(&self, pts: u64) -> (micros: u64)
        requires
            self.units() != 0,
        ensures
            micros == micros_of(pts as int, self.units() as int) % 0x1_0000_0000_0000_0000,
    {
        let wide: u128 = pts as u128 * 1_000_000 / self.timescale as u128;
        assert(wide as u64 == wide % 0x1_0000_0000_0000_0000) by (bit_vector);
        #[verifier::truncate]
        (wide as u64)
    }

    /// The reader was polled for the next record with the waker of `waiter`, and gave `next`.
    pub closed spec fn polled(
        self,
        waiter: &Waiter,
        next: Poll<Result<Option<Record>, moq_json::Error>>,
    ) -> bool {
        exists|reader: &mut RecordReader, waker: &Waker|
            *reader == self.inner && *waker == *waiter.ticket().waker && #[trigger] call_ensures(
                RecordReader::poll_next,
                (reader, waker),
                next,
            )
    }

    /// Poll for the next record, without blocking. `None` once the track ends.
    ///
    /// The registration of a poll lasts until the next one, also where `waiter` is dropped before,
    /// so its task may be woken once more than it needs to be.
    pub fn poll_next(&mut self, waiter: &Waiter) -> (next: Poll<
        Result<Option<Record>, moq_json::Error>,
    >)
        ensures
            old(self).polled(waiter, next),
            final(self).source() == old(self).source(),
            final(self).units() == old(self).units(),
    {
        self.inner.poll_next(waiter.waker())
    }
}

/// A time that is recorded in milliseconds and converted back is the same time, short of at most
/// the part of a millisecond that the record cannot hold.
pub proof fn recorded_time_comes_back(pts: Timestamp)
    requires
        pts.micros() <= crate::time::MAX_TIMESTAMP,
    ensures
        0 <= micros_of(pts.scaled(1000), 1000) <= u64::MAX,
        micros_of(pts.scaled(1000), 1000) == pts.micros() - pts.micros() % 1000,
{
    let millis = pts.scaled(1000);
    assert(millis == pts.micros() / 1000);
    assert(micros_of(millis, 1000) == millis * 1000);
}

} // verus!
