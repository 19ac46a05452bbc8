//! A listener: the task that carries the items of one subscription to the
//! controller, one at a time.
//!
//! The listener decides nothing about the items. It waits for the next one,
//! hands it to the channel, and waits until the channel has taken it: a full
//! channel holds the listener up, and no item is dropped for it. It stops
//! when the channel's consumer is gone, or when its subscription ends.

use crate::event::EventKind;
use vstd::prelude::*;

verus! {

/// Why a listener stopped.
#[derive(Clone, Copy, Debug, PartialEq, Eq, Structural)]
pub enum StopReason {
    /// The subscription will produce no more items.
    StreamEnded,
    /// Nobody consumes the channel any more.
    ConsumerGone,
}

/// What a listener is doing.
#[derive(Clone, Copy, Debug, PartialEq, Eq, Structural)]
pub enum ListenerPhase {
    /// It waits for the next item of its subscription.
    Waiting,
    /// It waits for the channel to take the item it handed over.
    Delivering,
    /// It has stopped, for this reason.
    Stopped(StopReason),
}

/// What the runtime reports to a listener.
#[derive(Debug)]
pub enum ListenerInput<T> {
    /// The subscription produced this item.
    Item(T),
    /// The subscription has ended.
    StreamEnded,
    /// The channel took the item.
    Delivered,
    /// The channel refused the item: its consumer is gone.
    ConsumerGone,
}

/// What a listener asks of the runtime.
#[derive(Debug)]
pub enum ListenerAction<T> {
    /// Wait for the next item of the subscription and report it.
    AwaitItem,
    /// Hand this item to the channel, wait until there is room for it, and
    /// report whether the channel took it.
    Deliver(T),
    /// End the task.
    Stop(StopReason),
}

/// The phase and the request that follow `input` in `phase`.
///
/// An item is handed on as it is. While the listener waits for an item, a
/// report about a delivery is stale and changes nothing. A listener that has
/// stopped stays stopped, and drops what it is given.
pub open spec fn listener_transition<T>(phase: ListenerPhase, input: ListenerInput<T>) -> (
    ListenerPhase,
    ListenerAction<T>,
) {
    match phase {
        ListenerPhase::Stopped(reason) => (phase, ListenerAction::Stop(reason)),
        _ => match input {
            ListenerInput::Item(item) => (ListenerPhase::Delivering, ListenerAction::Deliver(item)),
            ListenerInput::StreamEnded => (
                ListenerPhase::Stopped(StopReason::StreamEnded),
                ListenerAction::Stop(StopReason::StreamEnded),
            ),
            ListenerInput::Delivered => (ListenerPhase::Waiting, ListenerAction::AwaitItem),
            ListenerInput::ConsumerGone => if phase is Delivering {
                (
                    ListenerPhase::Stopped(StopReason::ConsumerGone),
                    ListenerAction::Stop(StopReason::ConsumerGone),
                )
            } else {
                (ListenerPhase::Waiting, ListenerAction::AwaitItem)
            },
        },
    }
}

/// The listener of one subscription.
#[derive(Debug)]
pub struct Listener {
    kind: EventKind,
    phase: ListenerPhase,
}

/// What a [`Listener`] is, for the contracts.
pub struct ListenerView {
    /// The kind of event that the subscription gives rise to.
    pub kind: EventKind,
    pub phase: ListenerPhase,
}

impl View for Listener {
    type V = ListenerView;

    closed spec fn view(&self) -> ListenerView {
        ListenerView { kind: self.kind, phase: self.phase }
    }
}

impl Listener {
    /// A listener for the subscription of `kind`, waiting for its first
    /// item.
    pub fn new(kind: EventKind) -> (listener: Listener)
        ensures
            listener@ == (ListenerView { kind, phase: ListenerPhase::Waiting }),
    {
        Listener { kind, phase: ListenerPhase::Waiting }
    }

    /// The kind of event that the subscription gives rise to.
    pub fn kind(&self) -> (kind: EventKind)
        ensures
            kind == self@.kind,
    {
        self.kind
    }

    /// What the listener is doing.
    pub fn phase(&self) -> (phase: ListenerPhase)
        ensures
            phase == self@.phase,
    {
        self.phase
    }

    /// Takes the runtime's report and says what is next.
    pub fn step<T>(&mut self, input: ListenerInput<T>) -> (action: ListenerAction<T>)
        ensures
            final(self)@.kind == old(self)@.kind,
            (final(self)@.phase, action) == listener_transition(old(self)@.phase, input),
    {
        match self.phase {
            ListenerPhase::Stopped(reason) => ListenerAction::Stop(reason),
            ListenerPhase::Waiting | ListenerPhase::Delivering => match input {
                ListenerInput::Item(item) => {
                    self.phase = ListenerPhase::Delivering;
                    ListenerAction::Deliver(item)
                },
                ListenerInput::StreamEnded => {
                    self.phase = ListenerPhase::Stopped(StopReason::StreamEnded);
                    ListenerAction::Stop(StopReason::StreamEnded)
                },
                ListenerInput::Delivered => {
                    self.phase = ListenerPhase::Waiting;
                    ListenerAction::AwaitItem
                },
                ListenerInput::ConsumerGone => match self.phase {
                    ListenerPhase::Delivering => {
                        self.phase = ListenerPhase::Stopped(StopReason::ConsumerGone);
                        ListenerAction::Stop(StopReason::ConsumerGone)
                    },
                    _ => {
                        self.phase = ListenerPhase::Waiting;
                        ListenerAction::AwaitItem
                    },
                },
            },
        }
    }
}

} // verus!
