//! What holds of a timeline, in terms of groups and times.

use crate::time::{Duration, TimeOverflow, Timestamp, MAX_TIMESTAMP};
use crate::timeline::consumer::Consumer;
use crate::timeline::log::Record;
use crate::timeline::producer::{
    track_name, Index, Producer, DEFAULT_GRANULARITY_MICROS, DEFAULT_TIMESCALE,
};
use crate::timeline::wall::{anchor, MOQ_EPOCH_UNIX_MILLIS};
use vstd::prelude::*;
use vstd::string::*;

verus! {

/// The units of a timeline: milliseconds, at most one record per second, and a wall clock that
/// starts 18262 days after the Unix epoch.
pub proof fn units_are_conventional()
    ensures
        DEFAULT_TIMESCALE == 1000,
        DEFAULT_GRANULARITY_MICROS == 1_000_000,
        MOQ_EPOCH_UNIX_MILLIS == 18262 * 24 * 60 * 60 * 1000,
{
}

/// A time holds 62 bits of microseconds. It is made of that many microseconds, of a thousandth as
/// many milliseconds or of a millionth as many seconds, and not made only where those do not fit.
pub proof fn times_hold_sixty_two_bits(
    count: u64,
    micros: Result<Timestamp, TimeOverflow>,
    millis: Result<Timestamp, TimeOverflow>,
    secs: Result<Timestamp, TimeOverflow>,
)
    requires
        call_ensures(Timestamp::from_micros, (count,), micros),
        call_ensures(Timestamp::from_millis, (count,), millis),
        call_ensures(Timestamp::from_secs, (count,), secs),
    ensures
        micros is Ok == (count < 4 * 0x1000_0000_0000_0000),
        micros matches Ok(time) ==> time.micros() == count,
        millis is Ok == (count * 1000 < 4 * 0x1000_0000_0000_0000),
        millis matches Ok(time) ==> time.micros() == count * 1000,
        secs is Ok == (count * 1_000_000 < 4 * 0x1000_0000_0000_0000),
        secs matches Ok(time) ==> time.micros() == count * 1_000_000,
{
}

/// A time in other units is rounded down, by less than one unit.
pub proof fn times_scale_down(time: Timestamp, scale: int)
    requires
        scale >= 0,
    ensures
        time.scaled(scale) * 1_000_000 <= time.micros() * scale,
        time.micros() * scale < time.scaled(scale) * 1_000_000 + 1_000_000,
{
}

/// Milliseconds make a length of as many milliseconds, in whole seconds and the rest.
pub proof fn milliseconds_make_lengths(millis: u64, length: Duration)
    requires
        call_ensures(Duration::from_millis, (millis,), length),
    ensures
        length.secs * 1_000_000_000 + length.nanos == millis * 1_000_000,
        length.nanos < 1_000_000_000,
        length == Duration::of_millis(millis),
{
}

/// A group opens too soon exactly if it opens less than a granularity after the last one, or before
/// it. The first one never does.
pub proof fn groups_open_too_soon(last: int, granularity: int, pts: int)
    ensures
        crate::timeline::throttle::too_soon(Some(last), granularity, pts) == (pts - last
            < granularity),
        !crate::timeline::throttle::too_soon(None, granularity, pts),
{
}

/// Every recorded time is the time of some group open, and the first group is always recorded.
pub proof fn only_opens_are_recorded(opens: Seq<int>, granularity: int)
    ensures
        forall|i: int|
            0 <= i < crate::timeline::throttle::kept(opens, granularity).len() ==> opens.contains(
                #[trigger] crate::timeline::throttle::kept(opens, granularity)[i],
            ),
        opens.len() > 0 ==> crate::timeline::throttle::kept(opens, granularity).len() > 0
            && crate::timeline::throttle::kept(opens, granularity)[0] == opens[0],
    decreases opens.len(),
{
    if opens.len() > 0 {
        let earlier = opens.drop_last();
        only_opens_are_recorded(earlier, granularity);
        let before = crate::timeline::throttle::kept(earlier, granularity);
        let kept = crate::timeline::throttle::kept(opens, granularity);
        assert forall|i: int| 0 <= i < kept.len() implies opens.contains(#[trigger] kept[i]) by {
            if i < before.len() {
                assert(kept[i] == before[i]);
                let j = choose|j: int| 0 <= j < earlier.len() && earlier[j] == before[i];
                assert(opens[j] == kept[i]);
            } else {
                assert(opens[opens.len() - 1] == kept[i]);
            }
        }
    }
}

/// Recording a group appends one record, which carries the very sequence number the group was
/// opened with and its time in whole milliseconds. A group that opens too soon is not recorded, and
/// a failed track records nothing. Records are never changed.
pub proof fn records_carry_their_group(
    before: Index,
    granularity: Timestamp,
    sequence: u64,
    pts: Timestamp,
    result: Result<(), moq_net::Error>,
    after: Index,
)
    requires
        before.opened(granularity, sequence, pts, result, after),
        pts.micros() <= MAX_TIMESTAMP,
    ensures
        ({
            let soon = before.last() is Some && pts.micros() - before.last().unwrap()
                < granularity.micros();
            &&& soon ==> result is Ok && after.records() == before.records() && after.last()
                == before.last()
            &&& !soon ==> after.last() == Some(pts.micros() as int)
            &&& !soon && result is Err ==> after.records() == before.records()
            &&& !soon && result is Ok ==> {
                let last = after.records().last();
                &&& after.records().len() == before.records().len() + 1
                &&& after.records().drop_last() == before.records()
                &&& last.group == sequence
                &&& last.pts * 1000 <= pts.micros()
                &&& pts.micros() < last.pts * 1000 + 1000
            }
            &&& !soon && before.finished() ==> result is Err
        }),
        after.finished() == before.finished(),
        after.source() == before.source(),
{
    times_scale_down(pts, 1000);
    assert(0 <= pts.scaled(1000) <= u64::MAX);
    if after.records().len() > 0 {
        assert(before.records().push(after.records().last()).drop_last() =~= before.records());
    }
}

/// Groups of different sequence numbers have different records, and later ones have larger groups.
pub proof fn records_tell_groups_apart(
    one: Index,
    two: Index,
    granularity: Timestamp,
    first: u64,
    second: u64,
    pts: Timestamp,
    later: Timestamp,
    one_after: Index,
    two_after: Index,
)
    requires
        one.opened(granularity, first, pts, Ok(()), one_after),
        two.opened(granularity, second, later, Ok(()), two_after),
        one_after.records().len() > one.records().len(),
        two_after.records().len() > two.records().len(),
        pts.micros() <= MAX_TIMESTAMP,
        later.micros() <= MAX_TIMESTAMP,
    ensures
        (one_after.records().last().group == two_after.records().last().group) == (first == second),
        (one_after.records().last().group < two_after.records().last().group) == (first < second),
        pts.micros() <= later.micros() ==> one_after.records().last().pts
            <= two_after.records().last().pts,
{
    records_carry_their_group(one, granularity, first, pts, Ok(()), one_after);
    records_carry_their_group(two, granularity, second, later, Ok(()), two_after);
}

/// The end of a timeline keeps its records, and comes once.
pub proof fn timelines_end_once(before: Index, result: Result<(), moq_net::Error>, after: Index)
    requires
        before.ended(result, after),
    ensures
        before.finished() ==> result is Err && after.finished(),
        !before.finished() ==> after.finished() == (result is Ok),
        after.records() == before.records(),
        after.last() == before.last(),
        after.source() == before.source(),
{
}

/// A new timeline has no records, has seen no group and is not finished.
pub proof fn timelines_start_empty(index: Index)
    requires
        index.is_new(),
    ensures
        index.records().len() == 0,
        index.last() is None,
        !index.finished(),
{
}

/// In an ordered timeline a later record has no earlier time, and none is later than the last group.
pub proof fn ordered_timelines_never_go_back(
    records: Seq<Record>,
    last: Option<int>,
    i: int,
    j: int,
)
    requires
        crate::timeline::producer::ordered(records, last),
        0 <= i <= j < records.len(),
    ensures
        records[i].pts <= records[j].pts,
        last is Some,
        records[j].pts * 1000 <= last.unwrap(),
{
}

/// Recording through a handle records that group with the handle's own granularity.
pub proof fn handles_record_the_group(
    producer: Producer,
    sequence: u64,
    pts: Timestamp,
    result: Result<(), moq_net::Error>,
)
    requires
        crate::locks::stepped(
            producer.index(),
            |before: Index, after: Index|
                before.opened(producer.granularity(), sequence, pts, result, after),
        ),
        pts.micros() <= MAX_TIMESTAMP,
    ensures
        exists|
            before: Index,
            after: Index,
            handle: vstd::rwlock::WriteHandle<'_, Index, crate::timeline::producer::Indexed>,
        |
            #[trigger] crate::locks::taken(producer.index(), before, handle)
                && #[trigger] crate::locks::put_back(handle, after) && (before.last() is None
                && result is Ok ==> after.records().len() == before.records().len() + 1
                && after.records().last().group == sequence),
{
    let (before, after, handle) = choose|
        before: Index,
        after: Index,
        handle: vstd::rwlock::WriteHandle<'_, Index, crate::timeline::producer::Indexed>,
    |
        #[trigger] crate::locks::taken(producer.index(), before, handle)
            && #[trigger] crate::locks::put_back(handle, after) && before.opened(
            producer.granularity(),
            sequence,
            pts,
            result,
            after,
        );
    records_carry_their_group(before, producer.granularity(), sequence, pts, result, after);
}

/// The track of a timeline is named like its rendition, with `.timeline` behind it.
pub proof fn timelines_are_named_after_their_rendition(name: &str, track: String)
    requires
        call_ensures(track_name, (name,), track),
    ensures
        track@.len() == name@.len() + 9,
        forall|i: int| 0 <= i < name@.len() ==> #[trigger] track@[i] == name@[i],
        track@.skip(name@.len() as int) == seq!['.', 't', 'i', 'm', 'e', 'l', 'i', 'n', 'e'],
        track@ == crate::timeline::producer::timeline_of(name@),
{
    reveal_strlit(".timeline");
    assert(track@.skip(name@.len() as int) =~= ".timeline"@);
    assert(".timeline"@ =~= seq!['.', 't', 'i', 'm', 'e', 'l', 'i', 'n', 'e']);
}

/// Timelines of different renditions are on different tracks.
pub proof fn timelines_do_not_share_tracks(one: Seq<char>, two: Seq<char>)
    requires
        crate::timeline::producer::timeline_of(one) == crate::timeline::producer::timeline_of(two),
    ensures
        one == two,
{
    let track = crate::timeline::producer::timeline_of(one);
    assert(one =~= track.take(one.len() as int));
    assert(two =~= track.take(two.len() as int));
    assert(track.len() == one.len() + ".timeline"@.len());
    assert(track.len() == two.len() + ".timeline"@.len());
}

/// The anchor is the time of the observation since the moq epoch, in the units of the timeline and
/// rounded down, less the timestamp. An observation before the epoch counts as one at the epoch, and
/// a timestamp past the observation gives zero.
pub proof fn anchors_go_back_to_time_zero(pts: Timestamp, unix_millis: u64, timescale: u32)
    ensures
        ({
            let since = if unix_millis > MOQ_EPOCH_UNIX_MILLIS {
                unix_millis - MOQ_EPOCH_UNIX_MILLIS
            } else {
                0
            };
            let wall = crate::timeline::wall::anchor_of(
                pts,
                unix_millis as int,
                timescale as int,
            );
            let units = wall + pts.scaled(timescale as int);
            &&& wall >= 0
            &&& wall > 0 ==> units * 1000 <= since * timescale && since * timescale < units * 1000
                + 1000
            &&& wall == 0 ==> since * timescale < units * 1000 + 1000
        }),
{
    let since = crate::timeline::wall::at_least_zero(
        unix_millis as int,
        MOQ_EPOCH_UNIX_MILLIS as int,
    );
    assert(since * timescale >= 0) by (nonlinear_arith)
        requires
            since >= 0,
            timescale >= 0,
    ;
    let whole = since * timescale / 1000;
    assert(whole * 1000 <= since * timescale < whole * 1000 + 1000);
    times_scale_down(pts, timescale as int);
    assert(pts.micros() * timescale >= 0) by (nonlinear_arith)
        requires
            pts.micros() >= 0,
            timescale >= 0,
    ;
}

/// What is advertised is that anchor, wherever 64 bits hold it.
pub proof fn advertised_anchors_are_exact(
    pts: Timestamp,
    unix_millis: u64,
    timescale: u32,
    wall: u64,
)
    requires
        call_ensures(anchor, (pts, unix_millis, timescale), wall),
        crate::timeline::wall::anchor_of(pts, unix_millis as int, timescale as int) <= u64::MAX,
    ensures
        wall == crate::timeline::wall::anchor_of(pts, unix_millis as int, timescale as int),
{
    anchors_go_back_to_time_zero(pts, unix_millis, timescale);
}

/// A record's time in microseconds is rounded down, by less than one microsecond.
pub proof fn records_convert_to_microseconds(consumer: &Consumer, pts: u64, micros: u64)
    requires
        consumer.units() != 0,
        call_ensures(Consumer::pts_micros, (consumer, pts), micros),
        pts * 1_000_000 <= u64::MAX,
    ensures
        micros * consumer.units() <= pts * 1_000_000,
        pts * 1_000_000 < micros * consumer.units() + consumer.units(),
{
    let units = consumer.units() as int;
    let scaled = pts * 1_000_000;
    let whole = crate::timeline::consumer::micros_of(pts as int, units);
    vstd::arithmetic::div_mod::lemma_fundamental_div_mod(scaled, units);
    vstd::arithmetic::div_mod::lemma_mod_bound(scaled, units);
    assert(whole * units == units * whole) by (nonlinear_arith);
    assert(0 <= whole <= scaled) by (nonlinear_arith)
        requires
            whole == scaled / units,
            units >= 1,
            scaled >= 0,
    ;
    assert(whole % 0x1_0000_0000_0000_0000 == whole);
}

} // verus!
