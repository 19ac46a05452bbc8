//! Bringing synchronisation up.
//!
//! Synchronisation starts once the client is authenticated. Its steps are
//! performed in a fixed order: the listeners on the sync service are in place
//! before the service starts, one full sync has completed before control
//! returns, and only then does the endless sync loop begin, in a task of its
//! own.

use crate::sequence::{Sequencer, SequencerView};
use vstd::prelude::*;

verus! {

/// One unit of work in bringing synchronisation up.
#[derive(Clone, Copy, Debug, PartialEq, Eq, Structural)]
pub enum SyncStep {
    /// Build the sync service on the authenticated client.
    BuildService,
    /// Subscribe to the state of the service and start the listener on it.
    WatchServiceState,
    /// Subscribe to the room list and start the listener on its diffs.
    WatchRoomList,
    /// Start the sync service.
    StartService,
    /// Perform one full sync, and wait for it.
    InitialSync,
    /// Start the endless sync loop in a task of its own. Should the loop end
    /// with an error, the task puts that error into the channel as an event.
    SpawnBackgroundSync,
}

/// How many entries of the room list the listener on it asks for at a time.
pub const ROOM_LIST_PAGE_SIZE: usize = 5;

/// The steps in the order in which they are performed.
pub open spec fn sync_plan() -> Seq<SyncStep> {
    seq![
        SyncStep::BuildService,
        SyncStep::WatchServiceState,
        SyncStep::WatchRoomList,
        SyncStep::StartService,
        SyncStep::InitialSync,
        SyncStep::SpawnBackgroundSync,
    ]
}

/// A sequencer for bringing synchronisation up, with nothing done yet.
pub fn sync_setup() -> (setup: Sequencer<SyncStep>)
    ensures
        setup@ == SequencerView::opening(sync_plan()),
{
    let mut plan: Vec<SyncStep> = Vec::new();
    plan.push(SyncStep::BuildService);
    plan.push(SyncStep::WatchServiceState);
    plan.push(SyncStep::WatchRoomList);
    plan.push(SyncStep::StartService);
    plan.push(SyncStep::InitialSync);
    plan.push(SyncStep::SpawnBackgroundSync);
    assert(plan@ =~= sync_plan());
    Sequencer::new(plan)
}

} // verus!
