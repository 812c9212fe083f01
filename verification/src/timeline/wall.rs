//! The wall-clock anchor of a timeline.

use crate::time::Timestamp;
use vstd::prelude::*;

verus! {

/// The moq epoch (2020-01-01T00:00:00Z) in milliseconds since the Unix epoch.
pub const MOQ_EPOCH_UNIX_MILLIS: u64 = 1_577_836_800_000;

/// `a - b`, or zero where that is negative.
pub open spec fn at_least_zero(a: int, b: int) -> int {
    if a > b {
        a - b
    } else {
        0
    }
}

/// The wall-clock time of timestamp zero, in `timescale` units since the moq epoch, where
/// timestamp `pts` was observed `unix_millis` milliseconds after the Unix epoch. A time before
/// the moq epoch counts as the epoch.
pub open spec fn anchor_of(pts: Timestamp, unix_millis: int, timescale: int) -> int {
    at_least_zero(
        at_least_zero(unix_millis, MOQ_EPOCH_UNIX_MILLIS as int) * timescale / 1000,
        pts.scaled(timescale),
    )
}

/// The anchor that a timeline advertises: [`anchor_of`], as far as 64 bits hold it.
pub fn anchor(pts: Timestamp, unix_millis: u64, timescale: u32) -> (wall: u64)
    ensures
        wall == anchor_of(pts, unix_millis as int, timescale as int) % 0x1_0000_0000_0000_0000,
{
    let scale: u128 = timescale as u128;
    let pts_units: u128 = pts.as_scale(timescale as u64);
    let moq_millis: u128 = unix_millis.saturating_sub(MOQ_EPOCH_UNIX_MILLIS) as u128;
    assert(0 <= moq_millis * scale <= 0xffff_ffff_ffff_ffff * 0xffff_ffff) by (nonlinear_arith)
        requires
            0 <= moq_millis <= 0xffff_ffff_ffff_ffff,
            0 <= scale <= 0xffff_ffff,
    ;
    let moq_units: u128 = moq_millis * scale / 1000;
    let units: u128 = moq_units.saturating_sub(pts_units);
    assert(units as u64 == units % 0x1_0000_0000_0000_0000) by (bit_vector);
    #[verifier::truncate]
    (units as u64)
}

/// At the millisecond timescale the anchor is never cut to 64 bits.
pub proof fn millisecond_anchor_fits(pts: Timestamp, unix_millis: u64)
    ensures
        0 <= anchor_of(pts, unix_millis as int, 1000) <= unix_millis,
{
    let moq = at_least_zero(unix_millis as int, MOQ_EPOCH_UNIX_MILLIS as int);
    assert(moq * 1000 / 1000 == moq);
}

/// A consumer recovers the time of the observation: the anchor, plus the timestamp in
/// milliseconds, plus the moq epoch.
pub proof fn anchor_recovers_the_observation(pts: Timestamp, unix_millis: u64)
    requires
        MOQ_EPOCH_UNIX_MILLIS + pts.scaled(1000) <= unix_millis,
    ensures
        anchor_of(pts, unix_millis as int, 1000) + pts.scaled(1000) + MOQ_EPOCH_UNIX_MILLIS
            == unix_millis,
{
    let moq = at_least_zero(unix_millis as int, MOQ_EPOCH_UNIX_MILLIS as int);
    assert(moq * 1000 / 1000 == moq);
}

} // verus!
