//! The controller: the one consumer of the channel.
//!
//! Every event of every listener passes through the controller, in the order
//! in which the channel delivers it. The controller tells the events apart
//! by their kind. One kind is singled out: the error of the background sync
//! loop means that syncing has stopped, which the surrounding process has to
//! act on; the controller notes it, and goes on consuming.

use crate::event::{Event, EventKind, Payloads};
use vstd::prelude::*;

verus! {

/// What the surrounding process is to do with an event that the controller
/// has consumed.
#[derive(Debug)]
pub enum Directive<P: Payloads> {
    /// Nothing but to take note of the event.
    Note(Event<P>),
    /// The background sync loop has ended with this error: syncing is to be
    /// restarted, or the process shut down.
    SyncStopped(P::SyncError),
}

/// What the controller has seen so far.
#[derive(Clone, Copy, Debug, PartialEq, Eq, Structural)]
pub struct ControllerView {
    /// The background sync loop is known to have stopped.
    pub sync_stopped: bool,
    /// The channel is closed and drained.
    pub drained: bool,
}

impl ControllerView {
    /// A controller that has seen nothing yet.
    pub open spec fn initial() -> ControllerView {
        ControllerView { sync_stopped: false, drained: false }
    }

    /// The controller after it has consumed an event of `kind`.
    pub open spec fn after_event(self, kind: EventKind) -> ControllerView {
        ControllerView {
            sync_stopped: self.sync_stopped || kind == EventKind::FatalSyncError,
            drained: self.drained,
        }
    }

    /// The controller after it has consumed events of these kinds, in order.
    pub open spec fn after_events(self, kinds: Seq<EventKind>) -> ControllerView
        decreases kinds.len(),
    {
        if kinds.len() == 0 {
            self
        } else {
            self.after_events(kinds.drop_last()).after_event(kinds.last())
        }
    }

    /// The controller after the channel has reported its end.
    pub open spec fn after_close(self) -> ControllerView {
        ControllerView { sync_stopped: self.sync_stopped, drained: true }
    }
}

/// What is to be done with `event`.
pub open spec fn directive_for<P: Payloads>(event: Event<P>) -> Directive<P> {
    match event {
        Event::FatalSyncError(error) => Directive::SyncStopped(error),
        _ => Directive::Note(event),
    }
}

/// The controller.
#[derive(Debug)]
pub struct Controller {
    sync_stopped: bool,
    drained: bool,
}

impl View for Controller {
    type V = ControllerView;

    closed spec fn view(&self) -> ControllerView {
        ControllerView { sync_stopped: self.sync_stopped, drained: self.drained }
    }
}

impl Controller {
    /// A controller that has seen nothing yet.
    pub fn new() -> (controller: Controller)
        ensures
            controller@ == ControllerView::initial(),
    {
        Controller { sync_stopped: false, drained: false }
    }

    /// Consumes the next event of the channel.
    pub fn on_event<P: Payloads>(&mut self, event: Event<P>) -> (directive: Directive<P>)
        ensures
            final(self)@ == old(self)@.after_event(event.spec_kind()),
            directive == directive_for(event),
    {
        match event {
            Event::FatalSyncError(error) => {
                self.sync_stopped = true;
                Directive::SyncStopped(error)
            },
            other => Directive::Note(other),
        }
    }

    /// Takes note that the channel is closed and drained: there is nothing
    /// more to consume.
    pub fn on_closed(&mut self)
        ensures
            final(self)@ == old(self)@.after_close(),
    {
        self.drained = true;
    }

    /// Whether the background sync loop is known to have stopped.
    pub fn sync_stopped(&self) -> (stopped: bool)
        ensures
            stopped == self@.sync_stopped,
    {
        self.sync_stopped
    }

    /// Whether the channel is closed and drained.
    pub fn drained(&self) -> (drained: bool)
        ensures
            drained == self@.drained,
    {
        self.drained
    }
}

} // verus!
