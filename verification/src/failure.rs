//! What the end of the background sync loop leads to.
//!
//! The loop runs in a task of its own. When it ends with an error, the task
//! sends that error as one event, through the same channel as every other
//! event. The controller takes it in its turn, notes that syncing has
//! stopped, and goes on; the listeners do not notice.

use crate::controller::ControllerView;
use crate::delivery::{
    every_item_arrives_once, keeps_consumer, lemma_initial_state, lemma_run_keeps_wf,
    lemma_sent_by_push, listeners_stop_only_when_their_streams_end,
};
use crate::event::{sync_loop_events, Event, EventKind, Payloads};
use crate::fanin::{sent_by, FanIn, Move, Parcel};
use crate::listener::{ListenerPhase, StopReason};
use vstd::prelude::*;

verus! {

/// How many of `events` carry the error of the sync loop.
pub open spec fn fatal_events<P: Payloads>(events: Seq<Event<P>>) -> nat
    decreases events.len(),
{
    if events.len() == 0 {
        0
    } else {
        fatal_events(events.drop_last()) + (if events.last() is FatalSyncError {
            1nat
        } else {
            0nat
        })
    }
}

/// How many of `parcels` carry the error of the sync loop.
pub open spec fn fatal_parcels<P: Payloads>(parcels: Seq<Parcel<Event<P>>>) -> nat
    decreases parcels.len(),
{
    if parcels.len() == 0 {
        0
    } else {
        fatal_parcels(parcels.drop_last()) + (if parcels.last().item is FatalSyncError {
            1nat
        } else {
            0nat
        })
    }
}

/// How many of the items that the listeners below `count` sent carry the
/// error of the sync loop.
pub open spec fn fatal_below<P: Payloads>(parcels: Seq<Parcel<Event<P>>>, count: nat) -> nat
    decreases count,
{
    if count == 0 {
        0
    } else {
        fatal_below(parcels, (count - 1) as nat) + fatal_events(sent_by(parcels, count - 1))
    }
}

/// The kinds of the events in `parcels`, in order.
pub open spec fn kinds_of<P: Payloads>(parcels: Seq<Parcel<Event<P>>>) -> Seq<EventKind> {
    Seq::new(parcels.len(), |k: int| parcels[k].item.spec_kind())
}

proof fn lemma_fatal_below_push<P: Payloads>(
    parcels: Seq<Parcel<Event<P>>>,
    parcel: Parcel<Event<P>>,
    count: nat,
)
    ensures
        fatal_below(parcels.push(parcel), count) == fatal_below(parcels, count) + (if 0
            <= parcel.from < count && parcel.item is FatalSyncError {
            1nat
        } else {
            0nat
        }),
    decreases count,
{
    if count > 0 {
        lemma_fatal_below_push(parcels, parcel, (count - 1) as nat);
        lemma_sent_by_push(parcels, parcel, count - 1);
        if parcel.from == count - 1 {
            assert(sent_by(parcels, count - 1).push(parcel.item).drop_last() =~= sent_by(
                parcels,
                count - 1,
            ));
        }
    }
}

proof fn lemma_no_parcels_no_errors<P: Payloads>(count: nat)
    ensures
        fatal_below(Seq::<Parcel<Event<P>>>::empty(), count) == 0,
    decreases count,
{
    if count > 0 {
        lemma_no_parcels_no_errors::<P>((count - 1) as nat);
    }
}

/// Where every parcel names one of the listeners below `count` as its
/// sender, the errors among the parcels are those that these listeners sent.
proof fn lemma_errors_have_one_sender<P: Payloads>(parcels: Seq<Parcel<Event<P>>>, count: nat)
    requires
        forall|k: int| 0 <= k < parcels.len() ==> 0 <= (#[trigger] parcels[k]).from < count,
    ensures
        fatal_below(parcels, count) == fatal_parcels(parcels),
    decreases parcels.len(),
{
    if parcels.len() == 0 {
        assert(parcels =~= Seq::<Parcel<Event<P>>>::empty());
        lemma_no_parcels_no_errors::<P>(count);
    } else {
        let before = parcels.drop_last();
        let newest = parcels.last();
        assert forall|k: int| 0 <= k < before.len() implies 0 <= (#[trigger] before[k]).from
            < count by {
            assert(before[k] == parcels[k]);
        }
        lemma_errors_have_one_sender(before, count);
        lemma_fatal_below_push(before, newest, count);
        assert(before.push(newest) =~= parcels);
        assert(newest == parcels[parcels.len() - 1]);
    }
}

/// Where each listener sent exactly its stream and only the stream of
/// `watcher` holds an error, and holds one, the listeners below `count`
/// sent one error if `watcher` is among them and none if not.
proof fn lemma_errors_come_from_the_watcher<P: Payloads>(
    parcels: Seq<Parcel<Event<P>>>,
    streams: Seq<Seq<Event<P>>>,
    watcher: int,
    count: nat,
)
    requires
        count <= streams.len(),
        0 <= watcher < streams.len(),
        forall|i: int| 0 <= i < streams.len() ==> #[trigger] sent_by(parcels, i) == streams[i],
        forall|i: int|
            0 <= i < streams.len() && i != watcher ==> fatal_events(#[trigger] streams[i]) == 0,
        fatal_events(streams[watcher]) == 1,
    ensures
        fatal_below(parcels, count) == if watcher < count {
            1nat
        } else {
            0nat
        },
    decreases count,
{
    if count > 0 {
        lemma_errors_come_from_the_watcher(parcels, streams, watcher, (count - 1) as nat);
        assert(sent_by(parcels, count - 1) == streams[count - 1]);
    }
}

/// Consuming events never ends the controller, and the controller knows
/// that syncing has stopped exactly when it knew before or one of the
/// events carried the error of the sync loop.
pub proof fn controller_notes_the_error<P: Payloads>(
    controller: ControllerView,
    parcels: Seq<Parcel<Event<P>>>,
)
    ensures
        controller.after_events(kinds_of(parcels)).drained == controller.drained,
        controller.after_events(kinds_of(parcels)).sync_stopped == (controller.sync_stopped
            || fatal_parcels(parcels) > 0),
    decreases parcels.len(),
{
    if parcels.len() > 0 {
        controller_notes_the_error(controller, parcels.drop_last());
        assert(kinds_of(parcels).drop_last() =~= kinds_of(parcels.drop_last()));
    }
}

/// A sync loop that ends with an error puts exactly one event into the
/// channel, which carries the error.
pub proof fn failed_sync_loop_sends_one_event<P: Payloads>(error: P::SyncError)
    ensures
        sync_loop_events::<P>(Err(error)) == seq![Event::<P>::FatalSyncError(error)],
        fatal_events(sync_loop_events::<P>(Err(error))) == 1,
        sync_loop_events::<P>(Ok(())).len() == 0,
{
    let events = sync_loop_events::<P>(Err(error));
    assert(events.drop_last() =~= Seq::<Event<P>>::empty());
    assert(fatal_events(events.drop_last()) == 0);
}

/// The background sync loop fails while listeners are at work; `watcher` is
/// the task that reports it, and no other stream holds such an error. Then,
/// whatever the schedule, once everything has settled: the controller has
/// taken exactly one event with the error of the sync loop, the one of
/// `watcher`; it knows that syncing has stopped, and has not ended; and
/// every listener has delivered its whole stream and stopped only because
/// the stream ended.
pub proof fn sync_failure_arrives_once<P: Payloads>(
    streams: Seq<Seq<Event<P>>>,
    capacity: nat,
    moves: Seq<Move>,
    watcher: int,
    error: P::SyncError,
)
    requires
        capacity >= 1,
        0 <= watcher < streams.len(),
        streams[watcher] == sync_loop_events::<P>(Err(error)),
        forall|i: int|
            0 <= i < streams.len() && i != watcher ==> fatal_events(#[trigger] streams[i]) == 0,
        FanIn::initial(streams, capacity).allows(moves),
        keeps_consumer(moves),
        FanIn::initial(streams, capacity).run(moves).settled(),
    ensures
        ({
            let end = FanIn::initial(streams, capacity).run(moves);
            let controller = ControllerView::initial().after_events(kinds_of(end.observed));
            &&& sent_by(end.observed, watcher) == seq![Event::<P>::FatalSyncError(error)]
            &&& fatal_parcels(end.observed) == 1
            &&& controller.sync_stopped
            &&& !controller.drained
            &&& forall|i: int|
                0 <= i < streams.len() ==> {
                    &&& #[trigger] sent_by(end.observed, i) == streams[i]
                    &&& end.producers[i].phase == ListenerPhase::Stopped(StopReason::StreamEnded)
                }
        }),
{
    let start = FanIn::initial(streams, capacity);
    let end = start.run(moves);
    every_item_arrives_once(streams, capacity, moves);
    failed_sync_loop_sends_one_event::<P>(error);
    lemma_initial_state(streams, capacity);
    lemma_run_keeps_wf(start, moves);
    assert(sent_by(end.observed, watcher) == streams[watcher]);
    assert forall|k: int| 0 <= k < end.observed.len() implies 0 <= (#[trigger] end.observed[k]).from
        < streams.len() by {
        assert(end.has(end.observed[k].from));
    }
    lemma_errors_have_one_sender(end.observed, streams.len());
    lemma_errors_come_from_the_watcher(end.observed, streams, watcher, streams.len());
    controller_notes_the_error(ControllerView::initial(), end.observed);
    listeners_stop_only_when_their_streams_end(start, moves);
}

} // verus!
