//! The channel between the listeners and the controller.
//!
//! The channel is the bounded queue of `tokio`: many senders, one receiver,
//! first in, first out. A sender waits while the queue is full, so a burst of
//! events holds the listeners up and loses nothing.

use crate::event::{Event, Payloads};
use tokio::sync::mpsc::{Receiver, Sender};
use vstd::prelude::*;

verus! {

/// How many events the channel holds before the listeners have to wait:
/// enough to take up the burst of a sync.
pub const CHANNEL_CAPACITY: usize = 1024;

#[verifier::external_type_specification]
#[verifier::external_body]
#[verifier::reject_recursive_types(T)]
pub struct ExSender<T>(Sender<T>);

#[verifier::external_type_specification]
#[verifier::external_body]
#[verifier::reject_recursive_types(T)]
pub struct ExReceiver<T>(Receiver<T>);

/// The two ends of the channel for the events, and its size.
#[verifier::reject_recursive_types(P)]
pub struct EventChannel<P: Payloads> {
    /// The end that the listeners send into; each listener takes a clone.
    pub sender: Sender<Event<P>>,
    /// The end that the controller receives from.
    pub receiver: Receiver<Event<P>>,
    /// How many events the channel buffers at most, as the sender reports it.
    pub capacity: usize,
}

/// Makes a bounded channel with `tokio::sync::mpsc::channel` and asks its
/// sender for the limit with `Sender::max_capacity`.
///
/// Trusted: the limit that the sender reports is the buffer size that the
/// channel was made with. `channel` panics where that size is zero or above
/// the semaphore's limit, `usize::MAX >> 3`; the contract leaves those out.
#[verifier::external_body]
fn bounded_channel<T>(buffer: usize) -> (opened: (Sender<T>, Receiver<T>, usize))
    requires
        0 < buffer <= usize::MAX / 8,
    ensures
        opened.2 == buffer,
{
    let (sender, receiver) = tokio::sync::mpsc::channel(buffer);
    let limit = sender.max_capacity();
    (sender, receiver, limit)
}

/// Opens the channel for the events, with room for [`CHANNEL_CAPACITY`] of
/// them.
pub fn event_channel<P: Payloads>() -> (channel: EventChannel<P>)
    ensures
        channel.capacity == CHANNEL_CAPACITY,
{
    let (sender, receiver, capacity) = bounded_channel(CHANNEL_CAPACITY);
    EventChannel { sender, receiver, capacity }
}

} // verus!
