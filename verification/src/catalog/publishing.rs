//! What holds of publishing a catalog, in terms of what is sent.

use crate::catalog::config::{AudioConfigView, VideoConfigView};
use crate::catalog::kind::{Audio, Kind, Video};
use crate::catalog::model::{Catalog, CatalogExt, CatalogView, Renditions};
use crate::catalog::producer::{Producer, Settled};
use crate::catalog::publisher::{Event, Publisher, PublisherView};
use crate::catalog::tracks::{AudioTrack, Reserved, VideoTrack};
use vstd::prelude::*;
use vstd::rwlock::{RwLock, WriteHandle};

verus! {

/// A publisher starts with the given catalog, unreserved, and has nothing to send.
pub proof fn publishers_start_silent<X>(catalog: CatalogView<X>)
    ensures
        PublisherView::fresh(catalog).catalog == catalog,
        PublisherView::fresh(catalog).reservers == 0,
        !PublisherView::fresh(catalog).staged,
        PublisherView::fresh(catalog).published.len() == 0,
{
}

/// A change is what the catalog then is. It is sent at once if nothing is reserved, and not sent
/// but remembered if anything is.
pub proof fn changes_are_sent_or_remembered<X>(
    publisher: PublisherView<X>,
    catalog: CatalogView<X>,
)
    ensures
        publisher.edit(catalog).catalog == catalog,
        publisher.edit(catalog).reservers == publisher.reservers,
        publisher.reservers == 0 ==> publisher.edit(catalog).published
            == publisher.published.push(catalog) && publisher.edit(catalog).staged
            == publisher.staged,
        publisher.reservers > 0 ==> publisher.edit(catalog).published == publisher.published
            && publisher.edit(catalog).staged,
{
}

/// A reservation counts one, and changes nothing else.
pub proof fn reservations_count_one<X>(publisher: PublisherView<X>)
    requires
        publisher.reservers < usize::MAX,
    ensures
        publisher.reserve().reservers == publisher.reservers + 1,
        publisher.reserve().catalog == publisher.catalog,
        publisher.reserve().staged == publisher.staged,
        publisher.reserve().published == publisher.published,
{
}

/// The end of a reservation counts one less. Only the last one sends, only if there is something
/// to send, and then the catalog as it is, once.
pub proof fn only_the_last_release_sends<X>(publisher: PublisherView<X>)
    requires
        publisher.reservers > 0,
    ensures
        publisher.release().reservers == publisher.reservers - 1,
        publisher.release().catalog == publisher.catalog,
        publisher.reservers > 1 ==> publisher.release().published == publisher.published
            && publisher.release().staged == publisher.staged,
        publisher.reservers == 1 && publisher.staged ==> publisher.release().published
            == publisher.published.push(publisher.catalog) && !publisher.release().staged,
        !publisher.staged ==> publisher.release().published == publisher.published
            && !publisher.release().staged,
{
}

/// How many reservations stay live once a rendition gives up the one it held, if it held one.
pub open spec fn left_live(reservers: nat, held: bool) -> int {
    if held {
        reservers - 1
    } else {
        reservers as int
    }
}

/// `after` is `before` after its catalog became `catalog` and a reservation was given up if one was
/// held: nothing is sent while any other reservation is live, and else that catalog is, once.
pub open spec fn sent_once_unreserved<X>(
    before: PublisherView<X>,
    catalog: CatalogView<X>,
    held: bool,
    after: PublisherView<X>,
) -> bool {
    let live = left_live(before.reservers, held);
    &&& after.catalog == catalog
    &&& after.reservers == live
    &&& live > 0 ==> after.published == before.published && after.staged
    &&& live == 0 ==> after.published == before.published.push(catalog) && !after.staged
}

/// Setting a rendition puts it into the catalog under its name and leaves the rest of the catalog.
/// Nothing is sent while another reservation is live; without one the catalog is sent, once.
pub proof fn set_renditions_are_withheld<X>(
    publisher: PublisherView<X>,
    name: Seq<char>,
    video: VideoConfigView,
    audio: AudioConfigView,
    held: bool,
)
    requires
        held ==> publisher.reservers > 0,
        publisher.reservers == 0 ==> !publisher.staged,
    ensures
        sent_once_unreserved(
            publisher,
            CatalogView {
                renditions: Renditions {
                    video: publisher.catalog.renditions.video.insert(name, video),
                    audio: publisher.catalog.renditions.audio,
                },
                ..publisher.catalog
            },
            held,
            publisher.set::<Video>(name, video, held),
        ),
        sent_once_unreserved(
            publisher,
            CatalogView {
                renditions: Renditions {
                    video: publisher.catalog.renditions.video,
                    audio: publisher.catalog.renditions.audio.insert(name, audio),
                },
                ..publisher.catalog
            },
            held,
            publisher.set::<Audio>(name, audio, held),
        ),
{
}

/// Setting publishes nothing while another reservation stays live.
pub proof fn setting_publishes_nothing_while_reserved<X, K: Kind>(
    publisher: PublisherView<X>,
    name: Seq<char>,
    config: <K::Config as View>::V,
    held: bool,
)
    requires
        publisher.reservers > 1 || (publisher.reservers > 0 && !held),
    ensures
        publisher.set::<K>(name, config, held).published == publisher.published,
        publisher.set::<K>(name, config, held).reservers > 0,
        publisher.set::<K>(name, config, held).staged,
{
}

/// Setting a rendition is a change of the catalog, followed by a release if a reservation was held.
/// So what holds of any run of changes and releases holds of it.
pub proof fn setting_is_a_change_and_a_release<X, K: Kind>(
    publisher: PublisherView<X>,
    name: Seq<char>,
    config: <K::Config as View>::V,
    held: bool,
)
    ensures
        publisher.set::<K>(name, config, held) == crate::catalog::publisher::run(
            publisher,
            if held {
                seq![
                    Event::Edit(publisher.set::<K>(name, config, held).catalog),
                    Event::Release,
                ]
            } else {
                seq![Event::Edit(publisher.set::<K>(name, config, held).catalog)]
            },
        ),
{
    let catalog = publisher.set::<K>(name, config, held).catalog;
    reveal_with_fuel(crate::catalog::publisher::run, 3);
    let one = seq![Event::Edit(catalog)];
    let two = seq![Event::Edit(catalog), Event::Release];
    assert(one.drop_last() =~= Seq::empty());
    assert(two.drop_last() =~= one);
}

/// Ending a rendition removes it from the catalog if it had been set, and leaves the rest. Nothing
/// is sent while another reservation is live. A rendition that was never set changes no catalog, and
/// its end sends only what others had staged.
pub proof fn ended_renditions_are_withheld<X>(
    publisher: PublisherView<X>,
    name: Seq<char>,
    held: bool,
)
    requires
        held ==> publisher.reservers > 0,
        publisher.reservers == 0 ==> !publisher.staged,
    ensures
        sent_once_unreserved(
            publisher,
            CatalogView {
                renditions: Renditions {
                    video: publisher.catalog.renditions.video.remove(name),
                    audio: publisher.catalog.renditions.audio,
                },
                ..publisher.catalog
            },
            held,
            publisher.retire::<Video>(name, true, held),
        ),
        sent_once_unreserved(
            publisher,
            CatalogView {
                renditions: Renditions {
                    video: publisher.catalog.renditions.video,
                    audio: publisher.catalog.renditions.audio.remove(name),
                },
                ..publisher.catalog
            },
            held,
            publisher.retire::<Audio>(name, true, held),
        ),
        !held ==> publisher.retire::<Video>(name, false, held) == publisher && publisher.retire::<
            Audio,
        >(name, false, held) == publisher,
        held ==> publisher.retire::<Video>(name, false, held) == publisher.release()
            && publisher.retire::<Audio>(name, false, held) == publisher.release(),
{
}

/// How many reservations `events` leave live.
pub open spec fn live<X>(start: int, events: Seq<Event<X>>) -> int
    decreases events.len(),
{
    if events.len() == 0 {
        start
    } else {
        live(start, events.drop_last()) + match events.last() {
            Event::Reserve => 1int,
            Event::Release => -1int,
            Event::Edit(_) => 0int,
        }
    }
}

/// No reservation ends that is not live, and the reservations can be counted.
pub open spec fn countable<X>(start: int, events: Seq<Event<X>>) -> bool {
    forall|n: int| 0 <= n <= events.len() ==> 0 <= live(start, #[trigger] events.take(n)) <= usize::MAX
}

/// The count is the number of live reservations, after any run of events.
pub proof fn reservations_are_counted<X>(publisher: PublisherView<X>, events: Seq<Event<X>>)
    requires
        countable(publisher.reservers as int, events),
    ensures
        crate::catalog::publisher::run(publisher, events).reservers == live(
            publisher.reservers as int,
            events,
        ),
    decreases events.len(),
{
    assert(events.take(events.len() as int) =~= events);
    if events.len() > 0 {
        let earlier = events.drop_last();
        assert forall|n: int| 0 <= n <= earlier.len() implies 0 <= live(
            publisher.reservers as int,
            #[trigger] earlier.take(n),
        ) <= usize::MAX by {
            assert(earlier.take(n) =~= events.take(n));
        }
        reservations_are_counted(publisher, earlier);
        assert(earlier.take(earlier.len() as int) =~= earlier);
        assert(events.take(earlier.len() as int) =~= earlier);
        assert(0 <= live(publisher.reservers as int, events.take(earlier.len() as int)));
        assert(0 <= live(publisher.reservers as int, events.take(events.len() as int))
            <= usize::MAX);
    } else {
        assert(0 <= live(publisher.reservers as int, events.take(0)) <= usize::MAX);
    }
}

/// No snapshot is ever half-converged: each one that is sent is the catalog as it was at a time when
/// no reservation was live.
pub proof fn snapshots_are_taken_unreserved<X>(
    publisher: PublisherView<X>,
    events: Seq<Event<X>>,
    i: int,
)
    requires
        publisher.published.len() <= i < crate::catalog::publisher::run(
            publisher,
            events,
        ).published.len(),
    ensures
        exists|k: int|
            0 <= k <= events.len() && {
                let moment = crate::catalog::publisher::run(publisher, #[trigger] events.take(k));
                moment.reservers == 0 && moment.catalog == crate::catalog::publisher::run(
                    publisher,
                    events,
                ).published[i]
            },
    decreases events.len(),
{
    if events.len() > 0 {
        let earlier = events.drop_last();
        let before = crate::catalog::publisher::run(publisher, earlier);
        if i < before.published.len() {
            snapshots_are_taken_unreserved(publisher, earlier, i);
            let k = choose|k: int|
                0 <= k <= earlier.len() && {
                    let moment = crate::catalog::publisher::run(
                        publisher,
                        #[trigger] earlier.take(k),
                    );
                    moment.reservers == 0 && moment.catalog == before.published[i]
                };
            assert(earlier.take(k) =~= events.take(k));
        } else {
            assert(events.take(events.len() as int) =~= events);
        }
    }
}

/// Snapshots are sent in the order of the changes: what was sent stays sent.
pub proof fn what_is_sent_stays_sent<X>(publisher: PublisherView<X>, events: Seq<Event<X>>)
    ensures
        publisher.published.is_prefix_of(
            crate::catalog::publisher::run(publisher, events).published,
        ),
    decreases events.len(),
{
    if events.len() > 0 {
        what_is_sent_stays_sent(publisher, events.drop_last());
    }
}

/// Each snapshot that is handed out is seen whole, in order.
pub proof fn snapshots_are_seen_whole<E: CatalogExt>(catalogs: Seq<Catalog<E>>)
    ensures
        crate::catalog::publisher::snapshots(catalogs).len() == catalogs.len(),
        forall|i: int|
            0 <= i < catalogs.len() ==> #[trigger] crate::catalog::publisher::snapshots(catalogs)[i]
                == catalogs[i]@,
{
}

/// Reserving through a handle counts one reservation and changes nothing else.
pub proof fn handles_reserve_one<E: CatalogExt>(lock: RwLock<Publisher<E>, Settled>)
    requires
        crate::catalog::producer::reserved_once(lock),
    ensures
        exists|
            before: Publisher<E>,
            after: Publisher<E>,
            handle: WriteHandle<'_, Publisher<E>, Settled>,
        |
            #[trigger] crate::locks::taken(lock, before, handle) && #[trigger] crate::locks::put_back(
                handle,
                after,
            ) && (before@.reservers < usize::MAX ==> after@.reservers == before@.reservers + 1)
                && after@.catalog == before@.catalog && after@.staged == before@.staged
                && after@.published == before@.published,
{
}

/// Releasing through a handle counts one reservation less. Only the last one sends, and then the
/// catalog with everything that was staged.
pub proof fn handles_release_one<E: CatalogExt>(lock: RwLock<Publisher<E>, Settled>)
    requires
        crate::catalog::producer::released_once(lock),
    ensures
        exists|
            before: Publisher<E>,
            after: Publisher<E>,
            handle: WriteHandle<'_, Publisher<E>, Settled>,
        |
            #[trigger] crate::locks::taken(lock, before, handle) && #[trigger] crate::locks::put_back(
                handle,
                after,
            ) && (before@.reservers > 0 ==> after@.reservers == before@.reservers - 1)
                && after@.catalog == before@.catalog && after@.published == if before@.reservers
                == 1 && before@.staged {
                before@.published.push(before@.catalog)
            } else {
                before@.published
            },
{
}

/// A reservation made from another one, by cloning it or for a rendition, is counted on the same
/// catalog.
pub proof fn reservations_are_counted_where_they_are_made<E: CatalogExt>(
    reserved: Reserved<E>,
    copy: Reserved<E>,
)
    requires
        call_ensures(<Reserved<E> as Clone>::clone, (&reserved,), copy),
    ensures
        copy.catalog().publisher() == reserved.catalog().publisher(),
        exists|
            before: Publisher<E>,
            after: Publisher<E>,
            handle: WriteHandle<'_, Publisher<E>, Settled>,
        |
            #[trigger] crate::locks::taken(reserved.catalog().publisher(), before, handle)
                && #[trigger] crate::locks::put_back(handle, after) && (before@.reservers
                < usize::MAX ==> after@.reservers == before@.reservers + 1),
{
    handles_reserve_one(reserved.catalog().publisher());
}

/// A settled publisher has nothing staged once nothing is reserved.
pub proof fn settled_publishers_have_nothing_staged<X>(publisher: PublisherView<X>)
    requires
        publisher.settled(),
        publisher.reservers == 0,
    ensures
        !publisher.staged,
{
}

/// Ending a rendition through its handle takes it out of the catalog if it was set, and then
/// changes no count. One that was never set leaves the catalog and releases its reservation.
pub proof fn ended_renditions_leave_the_catalog<E: CatalogExt>(
    video: VideoTrack<E>,
    audio: AudioTrack<E>,
)
    requires
        call_ensures(VideoTrack::<E>::retire, (video,), ()),
        call_ensures(AudioTrack::<E>::retire, (audio,), ()),
    ensures
        exists|
            before: Publisher<E>,
            after: Publisher<E>,
            handle: WriteHandle<'_, Publisher<E>, Settled>,
        |
            #[trigger] crate::locks::taken(video.catalog().publisher(), before, handle)
                && #[trigger] crate::locks::put_back(handle, after)
                && after@.catalog.renditions.video == if video.present() {
                before@.catalog.renditions.video.remove(video.track())
            } else {
                before@.catalog.renditions.video
            } && after@.catalog.renditions.audio == before@.catalog.renditions.audio && (
            before@.reservers > 0 ==> after@.reservers == if video.present() {
                before@.reservers as int
            } else {
                before@.reservers - 1
            }),
        exists|
            before: Publisher<E>,
            after: Publisher<E>,
            handle: WriteHandle<'_, Publisher<E>, Settled>,
        |
            #[trigger] crate::locks::taken(audio.catalog().publisher(), before, handle)
                && #[trigger] crate::locks::put_back(handle, after)
                && after@.catalog.renditions.audio == if audio.present() {
                before@.catalog.renditions.audio.remove(audio.track())
            } else {
                before@.catalog.renditions.audio
            } && after@.catalog.renditions.video == before@.catalog.renditions.video && (
            before@.reservers > 0 ==> after@.reservers == if audio.present() {
                before@.reservers as int
            } else {
                before@.reservers - 1
            }),
{
}

/// Draining through a handle hands out everything that was to be sent, each snapshot once.
pub proof fn snapshots_are_handed_out_once<E: CatalogExt>(
    producer: Producer<E>,
    sent: Vec<Catalog<E>>,
)
    requires
        call_ensures(Producer::<E>::drain, (&producer,), sent),
    ensures
        exists|
            before: Publisher<E>,
            after: Publisher<E>,
            handle: WriteHandle<'_, Publisher<E>, Settled>,
        |
            #[trigger] crate::locks::taken(producer.publisher(), before, handle)
                && #[trigger] crate::locks::put_back(handle, after) && sent@.len()
                == before@.published.len() && (forall|i: int|
                0 <= i < sent@.len() ==> #[trigger] sent@[i]@ == before@.published[i])
                && after@.published.len() == 0 && after@.catalog == before@.catalog
                && after@.reservers == before@.reservers && after@.staged == before@.staged,
{
    let (before, after, handle) = choose|
        before: Publisher<E>,
        after: Publisher<E>,
        handle: WriteHandle<'_, Publisher<E>, Settled>,
    |
        #[trigger] crate::locks::taken(producer.publisher(), before, handle)
            && #[trigger] crate::locks::put_back(handle, after)
            && crate::catalog::publisher::snapshots(sent@) == before@.published && after@ == (
        PublisherView { published: Seq::empty(), ..before@ });
    snapshots_are_seen_whole(sent@);
    assert forall|i: int| 0 <= i < sent@.len() implies #[trigger] sent@[i]@
        == before@.published[i] by {
        assert(crate::catalog::publisher::snapshots(sent@)[i] == sent@[i]@);
    }
}

} // verus!
