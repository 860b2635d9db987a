//! Interface bring-up gate: dependent services may proceed only once the
//! IP interface reports both link-up and address-configuration-up. The
//! gate itself is purely observational; the runtime performs the actual
//! polling sleeps that the decision function asks for.

use vstd::prelude::*;

verus! {

/// Milliseconds to sleep between polls of the link state.
pub const LINK_POLL_INTERVAL_MS: u64 = 500;

/// Milliseconds to sleep between polls of the address configuration.
pub const CONFIG_POLL_INTERVAL_MS: u64 = 100;

/// A snapshot of what the IP stack reports about the interface.
#[derive(Clone, Copy, PartialEq, Eq, Structural, Debug)]
pub struct InterfaceReadiness {
    pub link_up: bool,
    pub config_up: bool,
}

/// What the orchestrator must do next while waiting for the interface.
#[derive(Clone, Copy, PartialEq, Eq, Structural, Debug)]
pub enum GateAction {
    /// Sleep `LINK_POLL_INTERVAL_MS` and observe the link state again.
    PollLink,
    /// Sleep `CONFIG_POLL_INTERVAL_MS` and observe the address
    /// configuration again.
    PollConfig,
    /// Both conditions hold: launch the dependent services.
    Proceed,
}

impl InterfaceReadiness {
    /// Both conditions hold.
    pub open spec fn spec_ready(self) -> bool {
        self.link_up && self.config_up
    }

    pub fn ready(&self) -> (r: bool)
        ensures
            r == self.spec_ready(),
    {
        self.link_up && self.config_up
    }

    /// The whole bring-up decision: poll the link first, then the
    /// address configuration, and proceed only when both are up. No
    /// timeout is applied: a device with no link waits indefinitely by
    /// design.
    pub fn next_step(&self) -> (a: GateAction)
        ensures
            a == GateAction::Proceed <==> self.spec_ready(),
            !self.link_up ==> a == GateAction::PollLink,
            self.link_up && !self.config_up ==> a == GateAction::PollConfig,
    {
        if !self.link_up {
            GateAction::PollLink
        } else if !self.config_up {
            GateAction::PollConfig
        } else {
            GateAction::Proceed
        }
    }
}

} // verus!
