//! Starting the client.
//!
//! The parts are wired in a fixed order. The channel exists before anything
//! can send into it; the session is established before any subscription is
//! made; the listeners are in place before synchronisation is brought up;
//! and the controller is started last, when everything that feeds the
//! channel is at work. What arrives before that waits in the channel.

use crate::sequence::{Sequencer, SequencerView};
use vstd::prelude::*;

verus! {

/// One unit of work in starting the client.
#[derive(Clone, Copy, Debug, PartialEq, Eq, Structural)]
pub enum BootStep {
    /// Read the settings.
    LoadConfig,
    /// Open the channel between the listeners and the controller.
    OpenChannel,
    /// Build the client for the configured server and local store.
    BuildClient,
    /// Establish the session: restore it, or log in.
    Authenticate,
    /// Register the handlers for room messages and verification requests.
    RegisterEventHandlers,
    /// Start the listener on the verification state.
    SpawnVerificationListener,
    /// Bring synchronisation up.
    SetupSync,
    /// Start the controller.
    SpawnController,
}

/// The steps in the order in which they are performed.
pub open spec fn boot_plan() -> Seq<BootStep> {
    seq![
        BootStep::LoadConfig,
        BootStep::OpenChannel,
        BootStep::BuildClient,
        BootStep::Authenticate,
        BootStep::RegisterEventHandlers,
        BootStep::SpawnVerificationListener,
        BootStep::SetupSync,
        BootStep::SpawnController,
    ]
}

/// A sequencer for starting the client, with nothing done yet.
pub fn bootstrap() -> (boot: Sequencer<BootStep>)
    ensures
        boot@ == SequencerView::opening(boot_plan()),
{
    let mut plan: Vec<BootStep> = Vec::new();
    plan.push(BootStep::LoadConfig);
    plan.push(BootStep::OpenChannel);
    plan.push(BootStep::BuildClient);
    plan.push(BootStep::Authenticate);
    plan.push(BootStep::RegisterEventHandlers);
    plan.push(BootStep::SpawnVerificationListener);
    plan.push(BootStep::SetupSync);
    plan.push(BootStep::SpawnController);
    assert(plan@ =~= boot_plan());
    Sequencer::new(plan)
}

} // verus!
