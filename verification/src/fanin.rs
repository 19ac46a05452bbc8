//! Many listeners, one channel, one controller: the fan-in as a whole.
//!
//! The listeners run on their own and the channel between them and the
//! controller is bounded, so what the controller sees depends on how the
//! tasks are scheduled. [`FanIn`] is the state of the whole; a [`Move`] is one
//! step of one task; a run is any sequence of moves that the state allows.
//! Each producer moves as [`listener_transition`] says. What holds of every
//! run, whatever the schedule and the capacity, is stated and proved in
//! [`crate::delivery`] and [`crate::failure`].

use crate::listener::{listener_transition, ListenerAction, ListenerInput, ListenerPhase};
use vstd::prelude::*;

verus! {

/// A subscription with the listener on it.
pub struct Producer<T> {
    /// What the listener is doing.
    pub phase: ListenerPhase,
    /// The items that the subscription has yet to produce, in order.
    pub upcoming: Seq<T>,
    /// The item that the listener has handed to the channel and that the
    /// channel has not taken yet.
    pub in_flight: Option<T>,
}

impl<T> Producer<T> {
    /// A listener that waits for the first item of `stream`.
    pub open spec fn fresh(stream: Seq<T>) -> Producer<T> {
        Producer { phase: ListenerPhase::Waiting, upcoming: stream, in_flight: None }
    }

    /// The listener holds an item exactly while it delivers one.
    pub open spec fn wf(self) -> bool {
        (self.phase is Delivering) == (self.in_flight is Some)
    }

    /// What the subscription reports next.
    pub open spec fn next_input(self) -> ListenerInput<T> {
        if self.upcoming.len() > 0 {
            ListenerInput::Item(self.upcoming[0])
        } else {
            ListenerInput::StreamEnded
        }
    }

    /// The producer after the listener has taken what the subscription
    /// reports next.
    pub open spec fn pull(self) -> Producer<T> {
        let (phase, action) = listener_transition(self.phase, self.next_input());
        Producer {
            phase,
            upcoming: if self.upcoming.len() > 0 {
                self.upcoming.drop_first()
            } else {
                self.upcoming
            },
            in_flight: match action {
                ListenerAction::Deliver(item) => Some(item),
                _ => None,
            },
        }
    }

    /// The producer after the channel has answered the hand-over: it took
    /// the item, or refused it because its consumer is gone.
    pub open spec fn settle(self, taken: bool) -> Producer<T> {
        let input = if taken {
            ListenerInput::<T>::Delivered
        } else {
            ListenerInput::<T>::ConsumerGone
        };
        Producer {
            phase: listener_transition(self.phase, input).0,
            upcoming: self.upcoming,
            in_flight: None,
        }
    }

    /// The items that have not reached the channel yet, in order.
    pub open spec fn outstanding(self) -> Seq<T> {
        match self.in_flight {
            Some(item) => seq![item] + self.upcoming,
            None => self.upcoming,
        }
    }

    /// A bound on the moves that the producer and its items can still take
    /// part in.
    pub open spec fn work(self) -> nat {
        3 * self.upcoming.len() + (if self.in_flight is Some {
            2nat
        } else {
            0nat
        }) + (if self.phase is Stopped {
            0nat
        } else {
            1nat
        })
    }
}

/// An item in the channel, with the listener that sent it.
pub struct Parcel<T> {
    /// The index of the listener.
    pub from: int,
    pub item: T,
}

/// The items among `parcels` that listener `from` sent, in order.
pub open spec fn sent_by<T>(parcels: Seq<Parcel<T>>, from: int) -> Seq<T>
    decreases parcels.len(),
{
    if parcels.len() == 0 {
        Seq::empty()
    } else if parcels.last().from == from {
        sent_by(parcels.drop_last(), from).push(parcels.last().item)
    } else {
        sent_by(parcels.drop_last(), from)
    }
}

/// The work of all `producers` together.
pub open spec fn total_work<T>(producers: Seq<Producer<T>>) -> nat
    decreases producers.len(),
{
    if producers.len() == 0 {
        0
    } else {
        total_work(producers.drop_last()) + producers.last().work()
    }
}

/// The number of items in all `streams` together.
pub open spec fn total_items<T>(streams: Seq<Seq<T>>) -> nat
    decreases streams.len(),
{
    if streams.len() == 0 {
        0
    } else {
        total_items(streams.drop_last()) + streams.last().len()
    }
}

/// One step of one task.
pub enum Move {
    /// The listener with this index takes what its subscription reports.
    Pull(int),
    /// The channel answers the hand-over of the listener with this index.
    Push(int),
    /// The controller takes the oldest item out of the channel.
    Receive,
    /// The consumer goes away; what the channel holds goes with it.
    Close,
}

/// The listeners, the channel and what the controller has seen.
pub struct FanIn<T> {
    pub producers: Seq<Producer<T>>,
    /// How many items the channel holds at most.
    pub capacity: nat,
    /// The items in the channel, oldest first.
    pub queue: Seq<Parcel<T>>,
    /// The consumer is there.
    pub open: bool,
    /// The items that the controller has taken, in the order in which it
    /// took them.
    pub observed: Seq<Parcel<T>>,
}

impl<T> FanIn<T> {
    /// Listeners on `streams`, an empty channel of `capacity`, and a
    /// controller that has seen nothing.
    pub open spec fn initial(streams: Seq<Seq<T>>, capacity: nat) -> FanIn<T> {
        FanIn {
            producers: Seq::new(streams.len(), |i: int| Producer::fresh(streams[i])),
            capacity,
            queue: Seq::empty(),
            open: true,
            observed: Seq::empty(),
        }
    }

    /// `i` is the index of a listener.
    pub open spec fn has(self, i: int) -> bool {
        0 <= i < self.producers.len()
    }

    /// What holds of every state that a run reaches: the channel is within
    /// its capacity, and empty when the consumer is gone; every item in it
    /// or taken from it names its sender; and while the consumer is there, a
    /// listener has stopped only because its subscription ended.
    pub open spec fn wf(self) -> bool {
        &&& self.capacity >= 1
        &&& self.queue.len() <= self.capacity
        &&& !self.open ==> self.queue.len() == 0
        &&& forall|i: int| self.has(i) ==> (#[trigger] self.producers[i]).wf()
        &&& forall|i: int|
            self.open && self.has(i) && (#[trigger] self.producers[i]).phase is Stopped
                ==> self.producers[i].upcoming.len() == 0
        &&& forall|k: int| 0 <= k < self.queue.len() ==> self.has((#[trigger] self.queue[k]).from)
        &&& forall|k: int|
            0 <= k < self.observed.len() ==> self.has((#[trigger] self.observed[k]).from)
    }

    /// The state allows `mv`. A listener pulls while it waits. A hand-over
    /// is answered when the channel has room, or when the consumer is gone:
    /// while the channel is full, the listener is held up. The controller
    /// receives while the channel holds something.
    pub open spec fn enabled(self, mv: Move) -> bool {
        match mv {
            Move::Pull(i) => self.has(i) && self.producers[i].phase is Waiting,
            Move::Push(i) => self.has(i) && self.producers[i].phase is Delivering && (!self.open
                || self.queue.len() < self.capacity),
            Move::Receive => self.open && self.queue.len() > 0,
            Move::Close => self.open,
        }
    }

    /// The state after `mv`.
    pub open spec fn step(self, mv: Move) -> FanIn<T> {
        match mv {
            Move::Pull(i) => FanIn {
                producers: self.producers.update(i, self.producers[i].pull()),
                ..self
            },
            Move::Push(i) => if self.open {
                FanIn {
                    producers: self.producers.update(i, self.producers[i].settle(true)),
                    queue: self.queue.push(
                        Parcel { from: i, item: self.producers[i].in_flight.unwrap() },
                    ),
                    ..self
                }
            } else {
                FanIn {
                    producers: self.producers.update(i, self.producers[i].settle(false)),
                    ..self
                }
            },
            Move::Receive => FanIn {
                queue: self.queue.drop_first(),
                observed: self.observed.push(self.queue[0]),
                ..self
            },
            Move::Close => FanIn { open: false, queue: Seq::empty(), ..self },
        }
    }

    /// Every move of `moves` is allowed in the state in which it is made.
    pub open spec fn allows(self, moves: Seq<Move>) -> bool
        decreases moves.len(),
    {
        moves.len() == 0 || (self.allows(moves.drop_last()) && self.run(
            moves.drop_last(),
        ).enabled(moves.last()))
    }

    /// The state after `moves`.
    pub open spec fn run(self, moves: Seq<Move>) -> FanIn<T>
        decreases moves.len(),
    {
        if moves.len() == 0 {
            self
        } else {
            self.run(moves.drop_last()).step(moves.last())
        }
    }

    /// The items that the channel took in the course of `moves`, in the order
    /// in which it took them. A hand-over puts an item into the channel while
    /// the consumer is there; no other move does.
    pub open spec fn taken(self, moves: Seq<Move>) -> Seq<Parcel<T>>
        decreases moves.len(),
    {
        if moves.len() == 0 {
            Seq::empty()
        } else {
            let before = self.run(moves.drop_last());
            let earlier = self.taken(moves.drop_last());
            match moves.last() {
                Move::Push(i) => if before.open {
                    earlier.push(Parcel { from: i, item: before.producers[i].in_flight.unwrap() })
                } else {
                    earlier
                },
                _ => earlier,
            }
        }
    }

    /// Every listener has stopped and the channel is empty: no move but
    /// [`Move::Close`] is left.
    pub open spec fn settled(self) -> bool {
        &&& self.queue.len() == 0
        &&& forall|i: int| self.has(i) ==> (#[trigger] self.producers[i]).phase is Stopped
    }

    /// The items of listener `i` in the order in which its subscription
    /// produced them: those that the controller has taken, those in the
    /// channel, and those that have not reached the channel yet.
    pub open spec fn ledger(self, i: int) -> Seq<T> {
        sent_by(self.observed + self.queue, i) + self.producers[i].outstanding()
    }

    /// A bound on the number of moves that the state still allows.
    pub open spec fn work(self) -> nat {
        total_work(self.producers) + self.queue.len() + (if self.open {
            1nat
        } else {
            0nat
        })
    }
}

} // verus!
