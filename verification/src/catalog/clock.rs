//! The clock of a broadcast.

use crate::error::MuxError;
use crate::time::{TimeOverflow, Timestamp, MAX_TIMESTAMP};
use std::time::Instant;
use vstd::prelude::*;

verus! {

/// `std::time::Instant`, carried as an opaque value.
#[verifier::external_type_specification]
#[verifier::external_body]
pub struct ExInstant(Instant);

/// `Instant::now` reads the machine's clock, so nothing is promised.
pub assume_specification[ Instant::now ]() -> Instant;

/// `Instant::elapsed`, in whole microseconds. It reads the machine's clock, so nothing is
/// promised.
#[verifier::external_body]
fn elapsed_micros(start: &Instant) -> u128 {
    start.elapsed().as_micros()
}

/// `time` is what a broadcast makes of `hint`, `elapsed` microseconds after its start: the hint
/// where there is one, else the elapsed time, unless that is too large.
pub open spec fn resolves(
    hint: Option<Timestamp>,
    elapsed: u128,
    time: Result<Timestamp, MuxError>,
) -> bool {
    match time {
        Ok(t) => match hint {
            Some(h) => t == h,
            None => elapsed <= MAX_TIMESTAMP && t.micros() == elapsed,
        },
        Err(e) => hint is None && elapsed > MAX_TIMESTAMP && e == MuxError::Timestamp(TimeOverflow),
    }
}

/// `hint`, or else the time `elapsed` microseconds after the start.
pub fn resolve(hint: Option<Timestamp>, elapsed: u128) -> (time: Result<Timestamp, MuxError>)
    ensures
        resolves(hint, elapsed, time),
{
    if let Some(time) = hint {
        return Ok(time);
    }
    if elapsed > MAX_TIMESTAMP as u128 {
        return Err(MuxError::Timestamp(TimeOverflow));
    }
    match Timestamp::from_micros(elapsed as u64) {
        Ok(time) => Ok(time),
        Err(err) => Err(MuxError::Timestamp(err)),
    }
}

/// A clock that starts at zero.
pub struct Clock {
    start: Instant,
}

impl Clock {
    /// The start was read off the machine's clock.
    pub closed spec fn started(self) -> bool {
        call_ensures(Instant::now, (), self.start)
    }

    /// The machine's clock was seen `elapsed` microseconds after the start.
    pub closed spec fn reads(self, elapsed: u128) -> bool {
        call_ensures(elapsed_micros, (&self.start,), elapsed)
    }

    /// `time` is `hint`, or else a time that this clock was seen at.
    pub open spec fn tells(
        self,
        hint: Option<Timestamp>,
        time: Result<Timestamp, MuxError>,
    ) -> bool {
        exists|elapsed: u128| #[trigger] self.reads(elapsed) && resolves(hint, elapsed, time)
    }

    /// A clock that starts now.
    pub fn new() -> (clock: Self)
        ensures
            clock.started(),
    {
        Clock { start: Instant::now() }
    }

    /// A clock that started with this one.
    pub fn share(&self) -> (clock: Self)
        ensures
            clock == *self,
    {
        Clock { start: self.start }
    }

    /// `hint`, or else the time on this clock.
    pub fn timestamp(&self, hint: Option<Timestamp>) -> (time: Result<Timestamp, MuxError>)
        ensures
            self.tells(hint, time),
    {
        let elapsed: u128 = elapsed_micros(&self.start);
        assert(self.reads(elapsed));
        resolve(hint, elapsed)
    }
}

} // verus!
