//! Media timestamps and durations.

use vstd::prelude::*;

verus! {

/// The largest value a timestamp holds: what fits in a 62-bit variable-length integer.
pub const MAX_TIMESTAMP: u64 = 0x3fff_ffff_ffff_ffff;

/// A timestamp is past [`MAX_TIMESTAMP`].
#[derive(Clone, Copy, Debug, PartialEq, Eq, Structural)]
pub struct TimeOverflow;

/// A presentation time in microseconds.
#[derive(Clone, Copy, Debug, PartialEq, Eq, Structural)]
pub struct Timestamp {
    micros: u64,
}

impl Timestamp {
    #[verifier::type_invariant]
    spec fn well_formed(self) -> bool {
        self.micros <= MAX_TIMESTAMP
    }

    /// The microseconds since time zero.
    pub closed spec fn micros(self) -> nat {
        self.micros as nat
    }

    /// This time in units of `1 / scale` seconds, rounded down.
    pub open spec fn scaled(self, scale: int) -> int {
        self.micros() * scale / 1_000_000
    }

    /// A time in microseconds.
    pub fn from_micros(micros: u64) -> (time: Result<Self, TimeOverflow>)
        ensures
            match time {
                Ok(t) => micros <= MAX_TIMESTAMP && t.micros() == micros,
                Err(_) => micros > MAX_TIMESTAMP,
            },
    {
        if micros > MAX_TIMESTAMP {
            return Err(TimeOverflow);
        }
        Ok(Timestamp { micros })
    }

    /// A time in milliseconds.
    pub fn from_millis(millis: u64) -> (time: Result<Self, TimeOverflow>)
        ensures
            match time {
                Ok(t) => millis * 1000 <= MAX_TIMESTAMP && t.micros() == millis * 1000,
                Err(_) => millis * 1000 > MAX_TIMESTAMP,
            },
    {
        match millis.checked_mul(1000) {
            Some(micros) => Timestamp::from_micros(micros),
            None => Err(TimeOverflow),
        }
    }

    /// A time in seconds.
    pub fn from_secs(secs: u64) -> (time: Result<Self, TimeOverflow>)
        ensures
            match time {
                Ok(t) => secs * 1_000_000 <= MAX_TIMESTAMP && t.micros() == secs * 1_000_000,
                Err(_) => secs * 1_000_000 > MAX_TIMESTAMP,
            },
    {
        match secs.checked_mul(1_000_000) {
            Some(micros) => Timestamp::from_micros(micros),
            None => Err(TimeOverflow),
        }
    }

    /// This time in microseconds.
    pub fn as_micros(self) -> (micros: u64)
        ensures
            micros == self.micros(),
            micros <= MAX_TIMESTAMP,
    {
        proof {
            use_type_invariant(&self);
        }
        self.micros
    }

    /// This time in units of `1 / scale` seconds, rounded down.
    pub fn as_scale(self, scale: u64) -> (units: u128)
        ensures
            units == self.scaled(scale as int),
    {
        let micros: u128 = self.micros as u128;
        let scale: u128 = scale as u128;
        assert(micros * scale <= 0xffff_ffff_ffff_ffff * 0xffff_ffff_ffff_ffff) by (nonlinear_arith)
            requires
                micros <= 0xffff_ffff_ffff_ffff,
                scale <= 0xffff_ffff_ffff_ffff,
        ;
        micros * scale / 1_000_000
    }
}

/// A length of time, to the nanosecond.
#[derive(Clone, Copy, Debug, PartialEq, Eq, Structural)]
pub struct Duration {
    pub secs: u64,
    /// The nanoseconds past the last whole second, under one billion.
    pub nanos: u32,
}

impl Duration {
    /// The whole length in nanoseconds.
    pub open spec fn total_nanos(self) -> int {
        self.secs * 1_000_000_000 + self.nanos
    }

    pub open spec fn well_formed(self) -> bool {
        self.nanos < 1_000_000_000
    }

    /// The length of `millis` milliseconds.
    pub open spec fn of_millis(millis: u64) -> Self {
        Duration { secs: millis / 1000, nanos: ((millis % 1000) * 1_000_000) as u32 }
    }

    /// A length of `millis` milliseconds.
    pub fn from_millis(millis: u64) -> (duration: Self)
        ensures
            duration == Duration::of_millis(millis),
            duration.well_formed(),
            duration.total_nanos() == millis * 1_000_000,
    {
        Duration { secs: millis / 1000, nanos: (millis % 1000) as u32 * 1_000_000 }
    }
}

} // verus!
