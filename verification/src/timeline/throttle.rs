//! Which group opens a timeline records.

use crate::time::Timestamp;
use vstd::prelude::*;

verus! {

/// A group that opens at `pts` falls within the granularity of the last recorded one.
pub open spec fn too_soon(last: Option<int>, granularity: int, pts: int) -> bool {
    last matches Some(time) && pts < time + granularity
}

/// The last of `times`.
pub open spec fn last_of(times: Seq<int>) -> Option<int> {
    if times.len() == 0 {
        None
    } else {
        Some(times.last())
    }
}

/// The times that are recorded out of `opens`, taken in order.
pub open spec fn kept(opens: Seq<int>, granularity: int) -> Seq<int>
    decreases opens.len(),
{
    if opens.len() == 0 {
        Seq::empty()
    } else {
        let before = kept(opens.drop_last(), granularity);
        if too_soon(last_of(before), granularity, opens.last()) {
            before
        } else {
            before.push(opens.last())
        }
    }
}

/// Remembers the last recorded time.
pub struct Throttle {
    last: Option<Timestamp>,
}

impl Throttle {
    /// The last recorded time in microseconds.
    pub closed spec fn last(self) -> Option<int> {
        match self.last {
            Some(time) => Some(time.micros() as int),
            None => None,
        }
    }

    /// A throttle that has recorded nothing.
    pub fn new() -> (throttle: Self)
        ensures
            throttle.last() is None,
    {
        Throttle { last: None }
    }

    /// Whether to record a group that opens at `pts`. If so, the next ones are held against it.
    pub fn accept(&mut self, granularity: Timestamp, pts: Timestamp) -> (accepted: bool)
        ensures
            accepted == !too_soon(
                old(self).last(),
                granularity.micros() as int,
                pts.micros() as int,
            ),
            final(self).last() == if accepted {
                Some(pts.micros() as int)
            } else {
                old(self).last()
            },
    {
        if let Some(last) = self.last {
            if pts.as_micros() < last.as_micros() + granularity.as_micros() {
                return false;
            }
        }
        self.last = Some(pts);
        true
    }
}

/// A throttle that has seen `opens` and is asked about `pts` accepts it exactly when the times
/// kept out of both are one more.
pub proof fn accepting_extends_the_index(
    opens: Seq<int>,
    granularity: int,
    last: Option<int>,
    pts: int,
)
    requires
        last == last_of(kept(opens, granularity)),
    ensures
        too_soon(last, granularity, pts) ==> kept(opens.push(pts), granularity) == kept(
            opens,
            granularity,
        ),
        !too_soon(last, granularity, pts) ==> kept(opens.push(pts), granularity) == kept(
            opens,
            granularity,
        ).push(pts),
        last_of(kept(opens.push(pts), granularity)) == if too_soon(last, granularity, pts) {
            last
        } else {
            Some(pts)
        },
{
    assert(opens.push(pts).drop_last() =~= opens);
}

/// At most one record per granularity: any two recorded times are at least that far apart, and
/// they never go back.
pub proof fn at_most_one_record_per_granularity(opens: Seq<int>, granularity: int)
    requires
        granularity >= 0,
    ensures
        forall|i: int, j: int|
            0 <= i < j < kept(opens, granularity).len() ==> #[trigger] kept(opens, granularity)[j]
                >= #[trigger] kept(opens, granularity)[i] + granularity,
    decreases opens.len(),
{
    if opens.len() > 0 {
        at_most_one_record_per_granularity(opens.drop_last(), granularity);
        let before = kept(opens.drop_last(), granularity);
        assert forall|i: int, j: int|
            0 <= i < j < kept(opens, granularity).len() implies #[trigger] kept(
            opens,
            granularity,
        )[j] >= #[trigger] kept(opens, granularity)[i] + granularity by {
            if j == before.len() {
                assert(before[before.len() - 1] >= before[i]);
            } else {
                assert(before[j] >= before[i] + granularity);
            }
        }
    }
}

/// Every group open is covered: some record lies less than a granularity before it, or after it.
pub proof fn every_open_is_covered(opens: Seq<int>, granularity: int, k: int)
    requires
        granularity > 0,
        0 <= k < opens.len(),
    ensures
        exists|i: int|
            0 <= i < kept(opens, granularity).len() && opens[k] < #[trigger] kept(
                opens,
                granularity,
            )[i] + granularity,
    decreases opens.len(),
{
    let before = kept(opens.drop_last(), granularity);
    let after = kept(opens, granularity);
    if k == opens.len() - 1 {
        assert(opens[k] < after[after.len() - 1] + granularity);
    } else {
        every_open_is_covered(opens.drop_last(), granularity, k);
        let i = choose|i: int|
            0 <= i < before.len() && opens.drop_last()[k] < #[trigger] before[i] + granularity;
        assert(after[i] == before[i]);
    }
}

/// Groups that open a granularity or more apart are all recorded.
pub proof fn spaced_opens_are_all_recorded(opens: Seq<int>, granularity: int)
    requires
        forall|i: int, j: int|
            0 <= i < j < opens.len() ==> #[trigger] opens[j] >= #[trigger] opens[i] + granularity,
    ensures
        kept(opens, granularity) == opens,
    decreases opens.len(),
{
    if opens.len() > 0 {
        spaced_opens_are_all_recorded(opens.drop_last(), granularity);
        assert(opens.drop_last().push(opens.last()) =~= opens);
    } else {
        assert(kept(opens, granularity) =~= opens);
    }
}

} // verus!
