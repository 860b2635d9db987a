//! Link controller: owns the access point's lifecycle. It re-applies the
//! radio configuration and requests a start whenever the radio is not
//! started, and after the radio signals "access-point stopped" it waits a
//! fixed cooldown before re-evaluating, so that faults never turn into a
//! restart storm. Configuration and start failures are retried forever:
//! this component never ends the process.
//!
//! The controller is a pure decision machine: each `step` consumes one
//! event from the runtime and answers with the single action the runtime
//! must perform next. Every action either observes the radio or suspends
//! on an event or timer, so the loop never spins.

use vstd::prelude::*;

verus! {

/// Milliseconds to wait after an "access-point stopped" signal before
/// re-evaluating, to avoid restart storms.
pub const COOLDOWN_MS: u64 = 5000;

/// Longest network name the radio accepts, in bytes.
pub const MAX_SSID_LEN: usize = 32;

/// Longest credential the radio accepts, in bytes.
pub const MAX_CREDENTIAL_LEN: usize = 64;

/// How clients must authenticate to the access point.
#[derive(Clone, Copy, PartialEq, Eq, Structural, Debug)]
pub enum AuthMode {
    /// No authentication: an open network.
    Open,
    /// A pre-shared key, carried in `RadioConfig::credential`.
    Psk,
}

/// The immutable radio configuration, re-applied verbatim on every
/// restart after a fault.
#[derive(Clone, Debug)]
pub struct RadioConfig {
    pub ssid: Vec<u8>,
    pub hidden: bool,
    pub max_clients: u16,
    pub auth: AuthMode,
    pub credential: Option<Vec<u8>>,
}

/// The mathematical value of a `RadioConfig`.
pub struct ConfigModel {
    pub ssid: Seq<u8>,
    pub hidden: bool,
    pub max_clients: u16,
    pub auth: AuthMode,
    pub credential: Option<Seq<u8>>,
}

impl RadioConfig {
    pub open spec fn model(self) -> ConfigModel {
        ConfigModel {
            ssid: self.ssid@,
            hidden: self.hidden,
            max_clients: self.max_clients,
            auth: self.auth,
            credential: match self.credential {
                Option::Some(c) => Option::Some(c@),
                Option::None => Option::None,
            },
        }
    }

    /// Bounds the radio imposes, and the tie between the authentication
    /// mode and the presence of a credential.
    pub open spec fn wf(self) -> bool {
        &&& self.ssid@.len() <= MAX_SSID_LEN
        &&& self.max_clients >= 1
        &&& (self.auth is Psk <==> self.credential is Some)
        &&& match self.credential {
                Option::Some(c) => c@.len() <= MAX_CREDENTIAL_LEN,
                Option::None => true,
            }
    }
}

/// The radio collaborator as the controller models it: which
/// configuration it currently holds, and whether it is started.
pub struct RadioModel {
    pub applied: Option<ConfigModel>,
    pub started: bool,
}

/// Applying a configuration replaces whatever the radio held before.
pub open spec fn apply_config(r: RadioModel, c: ConfigModel) -> RadioModel {
    RadioModel { applied: Option::Some(c), started: r.started }
}

/// Re-application is idempotent: applying the same configuration twice
/// leaves the radio exactly as applying it once does.
pub proof fn lemma_reapply_idempotent(r: RadioModel, c: ConfigModel)
    ensures
        apply_config(apply_config(r, c), c) == apply_config(r, c),
{
}

/// The link's externally visible state.
#[derive(Clone, Copy, PartialEq, Eq, Structural, Debug)]
pub enum LinkState {
    /// No start attempt is in flight and the radio is not started.
    Down,
    /// A start attempt (configure + start) is in flight.
    Starting,
    /// The radio reports the access point started.
    Up,
    /// The last configure or start attempt failed; the loop will retry.
    Faulted,
}

/// Where the controller stands in its loop.
#[derive(Clone, Copy, PartialEq, Eq, Structural, Debug)]
pub enum LinkPhase {
    /// Top of the loop: about to observe whether the radio is started.
    Evaluate,
    /// The radio is started: suspended until it signals a stop.
    AwaitingStop,
    /// A stop was signalled: waiting out the cooldown.
    CoolingDown,
    /// About to apply the configuration.
    Configuring,
    /// Configuration was attempted: about to request a start.
    Starting,
}

/// One event delivered by the runtime, answering the pending action.
#[derive(Clone, Copy, PartialEq, Eq, Structural, Debug)]
pub enum LinkEvent {
    /// Result of observing the radio: is the access point started?
    Observed { started: bool },
    /// The radio signalled "access-point stopped".
    StopSignalled,
    /// The cooldown timer elapsed.
    CooldownElapsed,
    /// The configuration call returned; failures are non-fatal.
    ConfigResult { ok: bool },
    /// The start call returned; failures are non-fatal.
    StartResult { ok: bool },
}

/// The single thing the runtime must do next. Every action but
/// `ObserveRadio` suspends on an event or a timer.
#[derive(Clone, Copy, PartialEq, Eq, Structural, Debug)]
pub enum LinkAction {
    /// Ask the radio whether the access point is started.
    ObserveRadio,
    /// Suspend until the radio signals "access-point stopped".
    WaitForStop,
    /// Sleep `COOLDOWN_MS`.
    StartCooldown,
    /// Apply `LinkController::config` to the radio.
    ApplyConfig,
    /// Request that the radio start the access point.
    RequestStart,
}

/// The action a phase is waiting on; re-issued when an event arrives
/// that does not answer it.
pub open spec fn phase_action(p: LinkPhase) -> LinkAction {
    match p {
        LinkPhase::Evaluate => LinkAction::ObserveRadio,
        LinkPhase::AwaitingStop => LinkAction::WaitForStop,
        LinkPhase::CoolingDown => LinkAction::StartCooldown,
        LinkPhase::Configuring => LinkAction::ApplyConfig,
        LinkPhase::Starting => LinkAction::RequestStart,
    }
}

/// The full transition table: next phase, next link state, next action.
/// An event that does not answer the pending action leaves the
/// controller where it is and re-issues that action.
pub open spec fn spec_step(p: LinkPhase, s: LinkState, e: LinkEvent) -> (LinkPhase, LinkState, LinkAction) {
    match (p, e) {
        (LinkPhase::Evaluate, LinkEvent::Observed { started }) => {
            if started {
                (LinkPhase::AwaitingStop, LinkState::Up, LinkAction::WaitForStop)
            } else {
                (LinkPhase::Configuring, LinkState::Starting, LinkAction::ApplyConfig)
            }
        },
        (LinkPhase::AwaitingStop, LinkEvent::StopSignalled) => {
            (LinkPhase::CoolingDown, LinkState::Down, LinkAction::StartCooldown)
        },
        (LinkPhase::CoolingDown, LinkEvent::CooldownElapsed) => {
            (LinkPhase::Evaluate, LinkState::Down, LinkAction::ObserveRadio)
        },
        (LinkPhase::Configuring, LinkEvent::ConfigResult { ok }) => {
            if ok {
                (LinkPhase::Starting, LinkState::Starting, LinkAction::RequestStart)
            } else {
                (LinkPhase::Starting, LinkState::Faulted, LinkAction::RequestStart)
            }
        },
        (LinkPhase::Starting, LinkEvent::StartResult { ok }) => {
            if ok {
                (LinkPhase::Evaluate, LinkState::Up, LinkAction::ObserveRadio)
            } else {
                (LinkPhase::Evaluate, LinkState::Faulted, LinkAction::ObserveRadio)
            }
        },
        _ => (p, s, phase_action(p)),
    }
}

/// The link controller: the only mutator of the link state.
pub struct LinkController {
    pub phase: LinkPhase,
    pub state: LinkState,
    pub config: RadioConfig,
}

impl LinkController {
    pub fn new(config: RadioConfig) -> (c: LinkController)
        requires
            config.wf(),
        ensures
            c.phase == LinkPhase::Evaluate,
            c.state == LinkState::Down,
            c.config == config,
    {
        LinkController { phase: LinkPhase::Evaluate, state: LinkState::Down, config }
    }

    /// Consume one event; answer with the next action. The configuration
    /// is never changed: every re-application after a fault uses the
    /// value the controller was built with, verbatim.
    pub fn step(&mut self, event: &LinkEvent) -> (a: LinkAction)
        ensures
            (final(self).phase, final(self).state, a) == spec_step(
                old(self).phase,
                old(self).state,
                *event,
            ),
            final(self).config == old(self).config,
    {
        match (self.phase, *event) {
            (LinkPhase::Evaluate, LinkEvent::Observed { started }) => {
                if started {
                    self.phase = LinkPhase::AwaitingStop;
                    self.state = LinkState::Up;
                    LinkAction::WaitForStop
                } else {
                    self.phase = LinkPhase::Configuring;
                    self.state = LinkState::Starting;
                    LinkAction::ApplyConfig
                }
            },
            (LinkPhase::AwaitingStop, LinkEvent::StopSignalled) => {
                self.phase = LinkPhase::CoolingDown;
                self.state = LinkState::Down;
                LinkAction::StartCooldown
            },
            (LinkPhase::CoolingDown, LinkEvent::CooldownElapsed) => {
                self.phase = LinkPhase::Evaluate;
                self.state = LinkState::Down;
                LinkAction::ObserveRadio
            },
            (LinkPhase::Configuring, LinkEvent::ConfigResult { ok }) => {
                self.phase = LinkPhase::Starting;
                self.state = if ok { LinkState::Starting } else { LinkState::Faulted };
                LinkAction::RequestStart
            },
            (LinkPhase::Starting, LinkEvent::StartResult { ok }) => {
                self.phase = LinkPhase::Evaluate;
                self.state = if ok { LinkState::Up } else { LinkState::Faulted };
                LinkAction::ObserveRadio
            },
            _ => {
                match self.phase {
                    LinkPhase::Evaluate => LinkAction::ObserveRadio,
                    LinkPhase::AwaitingStop => LinkAction::WaitForStop,
                    LinkPhase::CoolingDown => LinkAction::StartCooldown,
                    LinkPhase::Configuring => LinkAction::ApplyConfig,
                    LinkPhase::Starting => LinkAction::RequestStart,
                }
            },
        }
    }
}

/// After any "access-point stopped" signal, one cooldown suffices:
/// whatever the controller then observes, and whether or not the
/// configure call succeeds, a cooperative radio — one whose start call
/// succeeds — has the link started again within five steps, after
/// exactly one cooldown and with the original configuration re-applied
/// unchanged (`step` never alters it).
pub proof fn lemma_restart_within_one_cooldown(
    p0: LinkPhase,
    s0: LinkState,
    observed_started: bool,
    config_ok: bool,
)
    requires
        p0 is AwaitingStop,
    ensures
        ({
            let (p1, s1, a1) = spec_step(p0, s0, LinkEvent::StopSignalled);
            let (p2, s2, a2) = spec_step(p1, s1, LinkEvent::CooldownElapsed);
            let (p3, s3, a3) = spec_step(p2, s2, LinkEvent::Observed { started: observed_started });
            let (p4, s4, a4) = spec_step(p3, s3, LinkEvent::ConfigResult { ok: config_ok });
            let (p5, s5, a5) = spec_step(p4, s4, LinkEvent::StartResult { ok: true });
            &&& a1 == LinkAction::StartCooldown
            &&& a2 == LinkAction::ObserveRadio
            &&& (observed_started ==> s3 == LinkState::Up)
            &&& (!observed_started ==> {
                &&& a3 == LinkAction::ApplyConfig
                &&& a4 == LinkAction::RequestStart
                &&& s5 == LinkState::Up
                &&& p5 == LinkPhase::Evaluate
            })
        }),
{
}

} // verus!
