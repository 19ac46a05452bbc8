//! The events that the listeners hand to the controller.
//!
//! What an event carries is left to the protocol layer: the controller
//! routes events by their kind and never looks inside. [`Payloads`] names the
//! six payload types, and every item of this crate that handles events takes
//! them as they are.

use vstd::prelude::*;

verus! {

/// The types of what the subscriptions produce, one for each of them.
pub trait Payloads {
    /// The trust status of the own device.
    type VerificationState: core::fmt::Debug;

    /// A request of another device to be verified.
    type VerificationRequest: core::fmt::Debug;

    /// A message that arrived in a room.
    type RoomMessage: core::fmt::Debug;

    /// The lifecycle state of the sync service.
    type SyncServiceState: core::fmt::Debug;

    /// One change to the list of rooms.
    type RoomDiff: core::fmt::Debug;

    /// The error with which the background sync loop ended.
    type SyncError: core::fmt::Debug;
}

/// What happened, with what it carries.
#[derive(Debug)]
pub enum Event<P: Payloads> {
    VerificationStateChanged(P::VerificationState),
    VerificationRequested(P::VerificationRequest),
    RoomMessageReceived(P::RoomMessage),
    SyncServiceStateChanged(P::SyncServiceState),
    RoomListDiff(Vec<P::RoomDiff>),
    FatalSyncError(P::SyncError),
}

/// What happened, without what it carries. There is one subscription, and so
/// one listener, for each kind.
#[derive(Clone, Copy, Debug, PartialEq, Eq, Hash, Structural)]
pub enum EventKind {
    VerificationStateChanged,
    VerificationRequested,
    RoomMessageReceived,
    SyncServiceStateChanged,
    RoomListDiff,
    FatalSyncError,
}

impl<P: Payloads> Event<P> {
    /// The kind of the event.
    pub open spec fn spec_kind(&self) -> EventKind {
        match self {
            Event::VerificationStateChanged(_) => EventKind::VerificationStateChanged,
            Event::VerificationRequested(_) => EventKind::VerificationRequested,
            Event::RoomMessageReceived(_) => EventKind::RoomMessageReceived,
            Event::SyncServiceStateChanged(_) => EventKind::SyncServiceStateChanged,
            Event::RoomListDiff(_) => EventKind::RoomListDiff,
            Event::FatalSyncError(_) => EventKind::FatalSyncError,
        }
    }

    /// What the listener on the verification state makes of an item of its
    /// subscription.
    pub fn verification_state_changed(state: P::VerificationState) -> (event: Event<P>)
        ensures
            event == Event::<P>::VerificationStateChanged(state),
            event.spec_kind() == EventKind::VerificationStateChanged,
    {
        Event::VerificationStateChanged(state)
    }

    /// What the listener on verification requests makes of an item of its
    /// subscription.
    pub fn verification_requested(request: P::VerificationRequest) -> (event: Event<P>)
        ensures
            event == Event::<P>::VerificationRequested(request),
            event.spec_kind() == EventKind::VerificationRequested,
    {
        Event::VerificationRequested(request)
    }

    /// What the listener on room messages makes of an item of its
    /// subscription.
    pub fn room_message_received(message: P::RoomMessage) -> (event: Event<P>)
        ensures
            event == Event::<P>::RoomMessageReceived(message),
            event.spec_kind() == EventKind::RoomMessageReceived,
    {
        Event::RoomMessageReceived(message)
    }

    /// What the listener on the state of the sync service makes of an item
    /// of its subscription.
    pub fn sync_service_state_changed(state: P::SyncServiceState) -> (event: Event<P>)
        ensures
            event == Event::<P>::SyncServiceStateChanged(state),
            event.spec_kind() == EventKind::SyncServiceStateChanged,
    {
        Event::SyncServiceStateChanged(state)
    }

    /// What the listener on the room list makes of an item of its
    /// subscription, which is a batch of changes.
    pub fn room_list_diff(diffs: Vec<P::RoomDiff>) -> (event: Event<P>)
        ensures
            event == Event::<P>::RoomListDiff(diffs),
            event.spec_kind() == EventKind::RoomListDiff,
    {
        Event::RoomListDiff(diffs)
    }

    /// What the task of the background sync loop makes of the error with
    /// which the loop ended.
    pub fn fatal_sync_error(error: P::SyncError) -> (event: Event<P>)
        ensures
            event == Event::<P>::FatalSyncError(error),
            event.spec_kind() == EventKind::FatalSyncError,
    {
        Event::FatalSyncError(error)
    }

    /// The kind of the event.
    #[verifier::when_used_as_spec(spec_kind)]
    pub fn kind(&self) -> (kind: EventKind)
        ensures
            kind == self.spec_kind(),
    {
        match self {
            Event::VerificationStateChanged(_) => EventKind::VerificationStateChanged,
            Event::VerificationRequested(_) => EventKind::VerificationRequested,
            Event::RoomMessageReceived(_) => EventKind::RoomMessageReceived,
            Event::SyncServiceStateChanged(_) => EventKind::SyncServiceStateChanged,
            Event::RoomListDiff(_) => EventKind::RoomListDiff,
            Event::FatalSyncError(_) => EventKind::FatalSyncError,
        }
    }
}

/// What the end of the background sync loop puts into the channel: the one
/// event that carries its error, where it ended with one, and nothing where
/// it ended without.
pub open spec fn sync_loop_events<P: Payloads>(outcome: Result<(), P::SyncError>) -> Seq<Event<P>> {
    match outcome {
        Ok(()) => Seq::empty(),
        Err(error) => seq![Event::FatalSyncError(error)],
    }
}

/// The event to send when the background sync loop has ended with `outcome`.
pub fn sync_loop_event<P: Payloads>(outcome: Result<(), P::SyncError>) -> (event: Option<Event<P>>)
    ensures
        match event {
            Some(event) => sync_loop_events::<P>(outcome) == seq![event],
            None => sync_loop_events::<P>(outcome) == Seq::<Event<P>>::empty(),
        },
{
    match outcome {
        Ok(()) => None,
        Err(error) => Some(Event::fatal_sync_error(error)),
    }
}

} // verus!
