//! What the fan-in guarantees, whatever the schedule.
//!
//! While the consumer is there, no item is lost and none is duplicated: each
//! listener's items reach the controller once and in the order of their
//! subscription. No state is a dead end: some task can always move, however
//! small the channel. Every run is finite, so all items arrive. When the
//! consumer goes away, each listener stops after at most two moves of its
//! own. A move of one listener leaves the others as they are. The channel
//! is the one place where the events of all listeners are put in order: the
//! controller takes them in the order in which the channel took them.

use crate::fanin::{sent_by, total_items, total_work, FanIn, Move, Parcel, Producer};
use crate::listener::{ListenerPhase, StopReason};
use vstd::prelude::*;

verus! {

/// The items that a listener sent, after one more parcel.
pub proof fn lemma_sent_by_push<T>(parcels: Seq<Parcel<T>>, parcel: Parcel<T>, from: int)
    ensures
        sent_by(parcels.push(parcel), from) == if parcel.from == from {
            sent_by(parcels, from).push(parcel.item)
        } else {
            sent_by(parcels, from)
        },
{
    assert(parcels.push(parcel).drop_last() =~= parcels);
}

/// The work of the producers after one of them changed.
pub proof fn lemma_total_work_update<T>(producers: Seq<Producer<T>>, i: int, producer: Producer<T>)
    requires
        0 <= i < producers.len(),
    ensures
        total_work(producers.update(i, producer)) + producers[i].work() == total_work(producers)
            + producer.work(),
    decreases producers.len(),
{
    let updated = producers.update(i, producer);
    if i == producers.len() - 1 {
        assert(updated.drop_last() =~= producers.drop_last());
    } else {
        lemma_total_work_update(producers.drop_last(), i, producer);
        assert(updated.drop_last() =~= producers.drop_last().update(i, producer));
    }
}

/// A move leaves the state well-formed, and neither adds nor removes a
/// listener nor resizes the channel.
pub proof fn lemma_step_keeps_wf<T>(state: FanIn<T>, mv: Move)
    requires
        state.wf(),
        state.enabled(mv),
    ensures
        state.step(mv).wf(),
        state.step(mv).producers.len() == state.producers.len(),
        state.step(mv).capacity == state.capacity,
        mv !is Close ==> state.step(mv).open == state.open,
{
    let next = state.step(mv);
    match mv {
        Move::Pull(i) => {
            assert(state.producers[i].wf());
            assert forall|j: int| next.has(j) implies (#[trigger] next.producers[j]).wf() by {
                if j != i {
                    assert(state.producers[j].wf());
                }
            }
            assert forall|j: int|
                next.open && next.has(j) && (#[trigger] next.producers[j]).phase is Stopped
                    implies next.producers[j].upcoming.len() == 0 by {
                if j != i {
                    assert(state.producers[j].phase is Stopped);
                }
            }
            assert forall|k: int| 0 <= k < next.queue.len() implies next.has(
                (#[trigger] next.queue[k]).from,
            ) by {
                assert(state.has(state.queue[k].from));
            }
            assert forall|k: int| 0 <= k < next.observed.len() implies next.has(
                (#[trigger] next.observed[k]).from,
            ) by {
                assert(state.has(state.observed[k].from));
            }
        },
        Move::Push(i) => {
            assert(state.producers[i].wf());
            assert forall|j: int| next.has(j) implies (#[trigger] next.producers[j]).wf() by {
                if j != i {
                    assert(state.producers[j].wf());
                }
            }
            assert forall|j: int|
                next.open && next.has(j) && (#[trigger] next.producers[j]).phase is Stopped
                    implies next.producers[j].upcoming.len() == 0 by {
                if j != i {
                    assert(state.producers[j].phase is Stopped);
                }
            }
            assert forall|k: int| 0 <= k < next.queue.len() implies next.has(
                (#[trigger] next.queue[k]).from,
            ) by {
                if k < state.queue.len() {
                    assert(state.has(state.queue[k].from));
                }
            }
            assert forall|k: int| 0 <= k < next.observed.len() implies next.has(
                (#[trigger] next.observed[k]).from,
            ) by {
                assert(state.has(state.observed[k].from));
            }
        },
        Move::Receive => {
            assert forall|k: int| 0 <= k < next.queue.len() implies next.has(
                (#[trigger] next.queue[k]).from,
            ) by {
                assert(state.has(state.queue[k + 1].from));
            }
            assert forall|k: int| 0 <= k < next.observed.len() implies next.has(
                (#[trigger] next.observed[k]).from,
            ) by {
                if k < state.observed.len() {
                    assert(state.has(state.observed[k].from));
                } else {
                    assert(state.has(state.queue[0].from));
                }
            }
        },
        Move::Close => {},
    }
}

/// A move of one listener leaves every other listener as it is, and the
/// moves of the controller leave every listener as it is.
pub proof fn moves_do_not_interfere<T>(state: FanIn<T>, mv: Move, other: int)
    requires
        state.has(other),
        mv != Move::Pull(other),
        mv != Move::Push(other),
        state.enabled(mv),
    ensures
        state.step(mv).producers[other] == state.producers[other],
{
}

/// Every move uses up some of the work that is left.
pub proof fn lemma_step_uses_work<T>(state: FanIn<T>, mv: Move)
    requires
        state.wf(),
        state.enabled(mv),
    ensures
        state.step(mv).work() < state.work(),
{
    match mv {
        Move::Pull(i) => {
            assert(state.producers[i].wf());
            lemma_total_work_update(state.producers, i, state.producers[i].pull());
        },
        Move::Push(i) => {
            assert(state.producers[i].wf());
            lemma_total_work_update(state.producers, i, state.producers[i].settle(state.open));
        },
        Move::Receive => {},
        Move::Close => {},
    }
}

/// While the consumer is there, a move neither loses nor duplicates nor
/// reorders an item: the ledger of every listener stays as it is.
pub proof fn lemma_step_keeps_ledger<T>(state: FanIn<T>, mv: Move, i: int)
    requires
        state.wf(),
        state.open,
        state.enabled(mv),
        mv !is Close,
        state.has(i),
    ensures
        state.step(mv).ledger(i) == state.ledger(i),
{
    let next = state.step(mv);
    match mv {
        Move::Pull(j) => {
            assert(state.producers[j].wf());
            if j == i {
                assert(next.producers[i].outstanding() =~= state.producers[i].outstanding());
            }
        },
        Move::Push(j) => {
            assert(state.producers[j].wf());
            let parcel = Parcel { from: j, item: state.producers[j].in_flight.unwrap() };
            assert(next.observed + next.queue =~= (state.observed + state.queue).push(parcel));
            lemma_sent_by_push(state.observed + state.queue, parcel, i);
            if j == i {
                assert(next.ledger(i) =~= state.ledger(i));
            }
        },
        Move::Receive => {
            assert(next.observed + next.queue =~= state.observed + state.queue);
        },
        Move::Close => {},
    }
}

/// Unless everything has settled, some task can move: with a channel of any
/// capacity, no state is a dead end.
pub proof fn some_move_is_enabled<T>(state: FanIn<T>) -> (mv: Move)
    requires
        state.wf(),
        !state.settled(),
    ensures
        state.enabled(mv),
        mv !is Close,
{
    if state.queue.len() > 0 {
        Move::Receive
    } else {
        let i = choose|i: int| state.has(i) && !((#[trigger] state.producers[i]).phase is Stopped);
        assert(state.producers[i].wf());
        if state.producers[i].phase is Waiting {
            Move::Pull(i)
        } else {
            Move::Push(i)
        }
    }
}

/// The moves that are left to listener `i` once the consumer is gone: it is
/// never held up, and after at most two moves it has stopped.
pub proof fn listener_stops_when_consumer_is_gone<T>(state: FanIn<T>, i: int) -> (mv: Move)
    requires
        state.wf(),
        !state.open,
        state.has(i),
        !(state.producers[i].phase is Stopped),
    ensures
        mv == Move::Pull(i) || mv == Move::Push(i),
        state.enabled(mv),
        state.step(mv).producers[i].phase is Stopped || {
            &&& state.step(mv).enabled(Move::Push(i))
            &&& state.step(mv).step(Move::Push(i)).producers[i].phase == ListenerPhase::Stopped(
                StopReason::ConsumerGone,
            )
        },
{
    assert(state.producers[i].wf());
    if state.producers[i].phase is Waiting {
        Move::Pull(i)
    } else {
        Move::Push(i)
    }
}

/// A run leaves the state well-formed.
pub proof fn lemma_run_keeps_wf<T>(state: FanIn<T>, moves: Seq<Move>)
    requires
        state.wf(),
        state.allows(moves),
    ensures
        state.run(moves).wf(),
        state.run(moves).producers.len() == state.producers.len(),
        state.run(moves).capacity == state.capacity,
    decreases moves.len(),
{
    if moves.len() > 0 {
        lemma_run_keeps_wf(state, moves.drop_last());
        lemma_step_keeps_wf(state.run(moves.drop_last()), moves.last());
    }
}

/// Every run is finite: it has no more moves than the state has work.
pub proof fn run_is_bounded<T>(state: FanIn<T>, moves: Seq<Move>)
    requires
        state.wf(),
        state.allows(moves),
    ensures
        state.run(moves).work() + moves.len() <= state.work(),
    decreases moves.len(),
{
    if moves.len() > 0 {
        run_is_bounded(state, moves.drop_last());
        lemma_run_keeps_wf(state, moves.drop_last());
        lemma_step_uses_work(state.run(moves.drop_last()), moves.last());
    }
}

/// No move of `moves` is [`Move::Close`].
pub open spec fn keeps_consumer(moves: Seq<Move>) -> bool {
    forall|k: int| 0 <= k < moves.len() ==> !(#[trigger] moves[k] is Close)
}

/// While the consumer is there, a run neither loses nor duplicates nor
/// reorders an item.
pub proof fn lemma_run_keeps_ledger<T>(state: FanIn<T>, moves: Seq<Move>, i: int)
    requires
        state.wf(),
        state.open,
        state.allows(moves),
        keeps_consumer(moves),
        state.has(i),
    ensures
        state.run(moves).open,
        state.run(moves).ledger(i) == state.ledger(i),
    decreases moves.len(),
{
    if moves.len() > 0 {
        let before = moves.drop_last();
        assert forall|k: int| 0 <= k < before.len() implies !(#[trigger] before[k] is Close) by {
            assert(!(moves[k] is Close));
        }
        lemma_run_keeps_ledger(state, before, i);
        lemma_run_keeps_wf(state, before);
        assert(!(moves[moves.len() - 1] is Close));
        lemma_step_keeps_wf(state.run(before), moves.last());
        lemma_step_keeps_ledger(state.run(before), moves.last(), i);
    }
}

/// The number of items among `parcels` that the listeners below `count`
/// sent.
pub open spec fn sent_below<T>(parcels: Seq<Parcel<T>>, count: nat) -> nat
    decreases count,
{
    if count == 0 {
        0
    } else {
        sent_below(parcels, (count - 1) as nat) + sent_by(parcels, count - 1).len()
    }
}

/// One more parcel is one more item of the listener that sent it.
pub proof fn lemma_sent_below_push<T>(parcels: Seq<Parcel<T>>, parcel: Parcel<T>, count: nat)
    ensures
        sent_below(parcels.push(parcel), count) == sent_below(parcels, count) + (if 0
            <= parcel.from < count {
            1nat
        } else {
            0nat
        }),
    decreases count,
{
    if count > 0 {
        lemma_sent_below_push(parcels, parcel, (count - 1) as nat);
        lemma_sent_by_push(parcels, parcel, count - 1);
    }
}

/// Where every parcel names one of the listeners below `count` as its
/// sender, the items of these listeners are all the parcels there are.
pub proof fn lemma_every_parcel_has_one_sender<T>(parcels: Seq<Parcel<T>>, count: nat)
    requires
        forall|k: int| 0 <= k < parcels.len() ==> 0 <= (#[trigger] parcels[k]).from < count,
    ensures
        sent_below(parcels, count) == parcels.len(),
    decreases parcels.len(),
{
    if parcels.len() == 0 {
        assert(parcels =~= Seq::<Parcel<T>>::empty());
        lemma_nothing_sent::<T>(count);
    } else {
        let before = parcels.drop_last();
        let newest = parcels.last();
        assert(before.len() == parcels.len() - 1);
        assert forall|k: int| 0 <= k < before.len() implies 0 <= (#[trigger] before[k]).from
            < count by {
            assert(before[k] == parcels[k]);
        }
        lemma_every_parcel_has_one_sender(before, count);
        lemma_sent_below_push(before, newest, count);
        assert(before.push(newest) =~= parcels);
        assert(newest == parcels[parcels.len() - 1]);
    }
}

/// Among no parcels, nobody sent anything.
pub proof fn lemma_nothing_sent<T>(count: nat)
    ensures
        sent_below(Seq::<Parcel<T>>::empty(), count) == 0,
    decreases count,
{
    if count > 0 {
        lemma_nothing_sent::<T>((count - 1) as nat);
    }
}

/// Where each of the first `count` listeners sent exactly its stream, they
/// sent as many items as these streams hold.
pub proof fn lemma_sent_below_is_total<T>(
    parcels: Seq<Parcel<T>>,
    streams: Seq<Seq<T>>,
    count: nat,
)
    requires
        count <= streams.len(),
        forall|i: int| 0 <= i < count ==> #[trigger] sent_by(parcels, i) == streams[i],
    ensures
        sent_below(parcels, count) == total_items(streams.take(count as int)),
    decreases count,
{
    if count > 0 {
        lemma_sent_below_is_total(parcels, streams, (count - 1) as nat);
        assert(streams.take(count as int).drop_last() =~= streams.take(count - 1));
        assert(sent_by(parcels, count - 1) == streams[count - 1]);
    }
}

/// Streams of `each` items hold `each` items for every stream.
pub proof fn lemma_total_of_equal_streams<T>(streams: Seq<Seq<T>>, each: nat)
    requires
        forall|i: int| 0 <= i < streams.len() ==> (#[trigger] streams[i]).len() == each,
    ensures
        total_items(streams) == streams.len() * each,
    decreases streams.len(),
{
    if streams.len() > 0 {
        let before = streams.drop_last();
        assert forall|i: int| 0 <= i < before.len() implies (#[trigger] before[i]).len()
            == each by {
            assert(streams[i].len() == each);
        }
        lemma_total_of_equal_streams(before, each);
        assert(streams[streams.len() - 1].len() == each);
        assert((streams.len() - 1) * each + each == streams.len() * each) by (nonlinear_arith);
    }
}

/// The work of fresh listeners: three moves for each item, and one more
/// for each listener.
pub proof fn lemma_work_of_fresh_listeners<T>(streams: Seq<Seq<T>>)
    ensures
        total_work(Seq::new(streams.len(), |i: int| Producer::fresh(streams[i]))) == 3
            * total_items(streams) + streams.len(),
    decreases streams.len(),
{
    let producers = Seq::new(streams.len(), |i: int| Producer::fresh(streams[i]));
    if streams.len() > 0 {
        let before = streams.drop_last();
        lemma_work_of_fresh_listeners(before);
        assert(producers.drop_last() =~= Seq::new(
            before.len(),
            |i: int| Producer::fresh(before[i]),
        ));
    }
}

/// The state in which a run begins is well-formed, and every listener has
/// its whole stream before it.
pub proof fn lemma_initial_state<T>(streams: Seq<Seq<T>>, capacity: nat)
    requires
        capacity >= 1,
    ensures
        FanIn::initial(streams, capacity).wf(),
        FanIn::initial(streams, capacity).work() == 3 * total_items(streams) + streams.len() + 1,
        forall|i: int|
            0 <= i < streams.len() ==> #[trigger] FanIn::initial(streams, capacity).ledger(i)
                == streams[i],
{
    let state = FanIn::initial(streams, capacity);
    lemma_work_of_fresh_listeners(streams);
    assert forall|i: int| 0 <= i < streams.len() implies #[trigger] state.ledger(i)
        == streams[i] by {
        assert(state.observed + state.queue =~= Seq::<Parcel<T>>::empty());
        assert(state.ledger(i) =~= streams[i]);
    }
}

/// Listeners on any number of streams, a channel of any capacity, any
/// schedule: once every listener has stopped and the channel is empty, the
/// controller has taken every item of every stream, each once, and those of
/// one stream in the order of the stream. It has taken as many items as the
/// streams hold, and the run was no longer than three moves for each item
/// and one for each listener.
pub proof fn every_item_arrives_once<T>(streams: Seq<Seq<T>>, capacity: nat, moves: Seq<Move>)
    requires
        capacity >= 1,
        FanIn::initial(streams, capacity).allows(moves),
        keeps_consumer(moves),
        FanIn::initial(streams, capacity).run(moves).settled(),
    ensures
        forall|i: int|
            0 <= i < streams.len() ==> #[trigger] sent_by(
                FanIn::initial(streams, capacity).run(moves).observed,
                i,
            ) == streams[i],
        FanIn::initial(streams, capacity).run(moves).observed.len() == total_items(streams),
        moves.len() <= 3 * total_items(streams) + streams.len(),
{
    let start = FanIn::initial(streams, capacity);
    let end = start.run(moves);
    lemma_initial_state(streams, capacity);
    lemma_run_keeps_wf(start, moves);
    run_is_bounded(start, moves);
    assert forall|i: int| 0 <= i < streams.len() implies #[trigger] sent_by(end.observed, i)
        == streams[i] by {
        lemma_run_keeps_ledger(start, moves, i);
        assert(start.ledger(i) == streams[i]);
        assert(end.producers[i].wf());
        assert(end.producers[i].phase is Stopped);
        assert(end.observed + end.queue =~= end.observed);
        assert(end.ledger(i) =~= sent_by(end.observed, i));
    }
    if streams.len() > 0 {
        lemma_run_keeps_ledger(start, moves, 0);
    } else {
        lemma_runs_without_listeners(start, moves);
    }
    assert forall|k: int| 0 <= k < end.observed.len() implies 0 <= (#[trigger] end.observed[k]).from
        < streams.len() by {
        assert(end.has(end.observed[k].from));
    }
    lemma_every_parcel_has_one_sender(end.observed, streams.len());
    lemma_sent_below_is_total(end.observed, streams, streams.len());
    assert(streams.take(streams.len() as int) =~= streams);
}

/// Without listeners, the consumer stays as long as it is not closed.
proof fn lemma_runs_without_listeners<T>(state: FanIn<T>, moves: Seq<Move>)
    requires
        state.open,
        state.allows(moves),
        keeps_consumer(moves),
    ensures
        state.run(moves).open,
    decreases moves.len(),
{
    if moves.len() > 0 {
        let before = moves.drop_last();
        assert forall|k: int| 0 <= k < before.len() implies !(#[trigger] before[k] is Close) by {
            assert(!(moves[k] is Close));
        }
        lemma_runs_without_listeners(state, before);
        assert(!(moves[moves.len() - 1] is Close));
    }
}

/// With `listeners` streams of `each` items, the controller ends up with
/// `listeners * each` items, whether the channel holds fewer than that or
/// more.
pub proof fn equal_streams_arrive_in_full<T>(
    streams: Seq<Seq<T>>,
    each: nat,
    capacity: nat,
    moves: Seq<Move>,
)
    requires
        capacity >= 1,
        forall|i: int| 0 <= i < streams.len() ==> (#[trigger] streams[i]).len() == each,
        FanIn::initial(streams, capacity).allows(moves),
        keeps_consumer(moves),
        FanIn::initial(streams, capacity).run(moves).settled(),
    ensures
        FanIn::initial(streams, capacity).run(moves).observed.len() == streams.len() * each,
{
    every_item_arrives_once(streams, capacity, moves);
    lemma_total_of_equal_streams(streams, each);
}

/// A run that begins with `first` is a run from the state after `first`.
pub proof fn lemma_run_from_first_move<T>(state: FanIn<T>, first: Move, rest: Seq<Move>)
    ensures
        state.run(seq![first] + rest) == state.step(first).run(rest),
        state.allows(seq![first] + rest) == (state.enabled(first) && state.step(first).allows(rest)),
    decreases rest.len(),
{
    let moves = seq![first] + rest;
    if rest.len() == 0 {
        assert(moves.drop_last() =~= Seq::<Move>::empty());
        assert(moves.last() == first);
        assert(state.run(moves.drop_last()) == state);
        assert(state.allows(moves.drop_last()));
    } else {
        lemma_run_from_first_move(state, first, rest.drop_last());
        assert(moves.drop_last() =~= seq![first] + rest.drop_last());
        assert(moves.last() == rest.last());
    }
}

/// However far a run has come, it can be brought to its end: from every
/// state that a run reaches with the consumer in place, some schedule leads
/// to the state in which every listener has stopped and the channel is
/// empty. So no schedule can paint the fan-in into a corner.
pub proof fn run_can_be_completed<T>(state: FanIn<T>) -> (rest: Seq<Move>)
    requires
        state.wf(),
        state.open,
    ensures
        state.allows(rest),
        keeps_consumer(rest),
        state.run(rest).settled(),
    decreases state.work(),
{
    if state.settled() {
        Seq::empty()
    } else {
        let first = some_move_is_enabled(state);
        lemma_step_keeps_wf(state, first);
        lemma_step_uses_work(state, first);
        let tail = run_can_be_completed(state.step(first));
        lemma_run_from_first_move(state, first, tail);
        let rest = seq![first] + tail;
        assert forall|k: int| 0 <= k < rest.len() implies !(#[trigger] rest[k] is Close) by {
            if k > 0 {
                assert(rest[k] == tail[k - 1]);
            }
        }
        rest
    }
}

/// The listener has not stopped for want of a consumer.
pub open spec fn undisturbed(phase: ListenerPhase) -> bool {
    phase != ListenerPhase::Stopped(StopReason::ConsumerGone)
}

/// While the consumer is there, no listener stops for want of one: a
/// listener that has stopped has done so because its stream ended.
pub proof fn listeners_stop_only_when_their_streams_end<T>(state: FanIn<T>, moves: Seq<Move>)
    requires
        state.wf(),
        state.open,
        state.allows(moves),
        keeps_consumer(moves),
        forall|i: int| state.has(i) ==> undisturbed((#[trigger] state.producers[i]).phase),
    ensures
        state.run(moves).open,
        forall|i: int|
            state.has(i) ==> undisturbed((#[trigger] state.run(moves).producers[i]).phase),
    decreases moves.len(),
{
    if moves.len() > 0 {
        let before = moves.drop_last();
        assert forall|k: int| 0 <= k < before.len() implies !(#[trigger] before[k] is Close) by {
            assert(!(moves[k] is Close));
        }
        listeners_stop_only_when_their_streams_end(state, before);
        lemma_run_keeps_wf(state, before);
        assert(!(moves[moves.len() - 1] is Close));
        let middle = state.run(before);
        let end = state.run(moves);
        assert forall|i: int| state.has(i) implies undisturbed(
            (#[trigger] end.producers[i]).phase,
        ) by {
            assert(undisturbed(middle.producers[i].phase));
            assert(middle.producers[i].wf());
        }
    }
}

/// The channel is first in, first out, across all listeners: what the
/// controller has taken, followed by what waits in the channel, is what was
/// there before followed by what the channel took since, in the order in
/// which it took it.
pub proof fn channel_is_first_in_first_out<T>(state: FanIn<T>, moves: Seq<Move>)
    requires
        state.allows(moves),
        keeps_consumer(moves),
    ensures
        state.run(moves).observed + state.run(moves).queue == state.observed + state.queue
            + state.taken(moves),
        state.run(moves).open == state.open,
    decreases moves.len(),
{
    if moves.len() == 0 {
        assert(state.observed + state.queue + state.taken(moves) =~= state.observed + state.queue);
    } else {
        let before = moves.drop_last();
        assert forall|k: int| 0 <= k < before.len() implies !(#[trigger] before[k] is Close) by {
            assert(!(moves[k] is Close));
        }
        channel_is_first_in_first_out(state, before);
        assert(!(moves[moves.len() - 1] is Close));
        let middle = state.run(before);
        let end = state.run(moves);
        let base = state.observed + state.queue;
        assert(middle.observed + middle.queue == base + state.taken(before));
        match moves.last() {
            Move::Pull(i) => {
                assert(end.observed + end.queue =~= middle.observed + middle.queue);
            },
            Move::Push(i) => {
                if middle.open {
                    let parcel = Parcel { from: i, item: middle.producers[i].in_flight.unwrap() };
                    assert(end.observed + end.queue =~= (middle.observed + middle.queue).push(
                        parcel,
                    ));
                    assert((base + state.taken(before)).push(parcel) =~= base + state.taken(
                        before,
                    ).push(parcel));
                } else {
                    assert(end.observed + end.queue =~= middle.observed + middle.queue);
                }
            },
            Move::Receive => {
                assert(end.observed + end.queue =~= middle.observed + middle.queue);
            },
            Move::Close => {},
        }
    }
}

/// The order in which the controller sees the events is the order in which
/// the channel took them: from the start of a run on, what the controller
/// has taken is the first part of what the channel took, and what waits in
/// the channel is the rest.
pub proof fn controller_sees_the_order_of_the_channel<T>(
    streams: Seq<Seq<T>>,
    capacity: nat,
    moves: Seq<Move>,
)
    requires
        FanIn::initial(streams, capacity).allows(moves),
        keeps_consumer(moves),
    ensures
        ({
            let start = FanIn::initial(streams, capacity);
            let end = start.run(moves);
            &&& end.observed + end.queue == start.taken(moves)
            &&& end.observed.len() <= start.taken(moves).len()
            &&& end.observed == start.taken(moves).subrange(0, end.observed.len() as int)
            &&& end.queue == start.taken(moves).subrange(
                end.observed.len() as int,
                start.taken(moves).len() as int,
            )
        }),
{
    let start = FanIn::initial(streams, capacity);
    let end = start.run(moves);
    channel_is_first_in_first_out(start, moves);
    assert(start.observed + start.queue + start.taken(moves) =~= start.taken(moves));
    let whole = end.observed + end.queue;
    assert(whole.subrange(0, end.observed.len() as int) =~= end.observed);
    assert(whole.subrange(end.observed.len() as int, whole.len() as int) =~= end.queue);
}

} // verus!
