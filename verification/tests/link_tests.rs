use netsup::link::{
    AuthMode, LinkAction, LinkController, LinkEvent, LinkPhase, LinkState, RadioConfig,
    COOLDOWN_MS,
};

fn test_config() -> RadioConfig {
    RadioConfig {
        ssid: b"HA:LED".to_vec(),
        hidden: true,
        max_clients: 2,
        auth: AuthMode::Open,
        credential: None,
    }
}

#[test]
fn fresh_controller_observes_radio() {
    let c = LinkController::new(test_config());
    assert_eq!(c.phase, LinkPhase::Evaluate);
    assert_eq!(c.state, LinkState::Down);
}

#[test]
fn started_radio_waits_for_stop() {
    let mut c = LinkController::new(test_config());
    let a = c.step(&LinkEvent::Observed { started: true });
    assert_eq!(a, LinkAction::WaitForStop);
    assert_eq!(c.state, LinkState::Up);
}

#[test]
fn stopped_radio_configures_then_starts() {
    let mut c = LinkController::new(test_config());
    assert_eq!(c.step(&LinkEvent::Observed { started: false }), LinkAction::ApplyConfig);
    assert_eq!(c.state, LinkState::Starting);
    assert_eq!(c.step(&LinkEvent::ConfigResult { ok: true }), LinkAction::RequestStart);
    assert_eq!(c.step(&LinkEvent::StartResult { ok: true }), LinkAction::ObserveRadio);
    assert_eq!(c.state, LinkState::Up);
}

#[test]
fn config_failure_is_nonfatal_and_start_is_still_tried() {
    let mut c = LinkController::new(test_config());
    c.step(&LinkEvent::Observed { started: false });
    assert_eq!(c.step(&LinkEvent::ConfigResult { ok: false }), LinkAction::RequestStart);
    assert_eq!(c.state, LinkState::Faulted);
}

#[test]
fn start_failure_is_retried_not_fatal() {
    let mut c = LinkController::new(test_config());
    c.step(&LinkEvent::Observed { started: false });
    c.step(&LinkEvent::ConfigResult { ok: true });
    assert_eq!(c.step(&LinkEvent::StartResult { ok: false }), LinkAction::ObserveRadio);
    assert_eq!(c.state, LinkState::Faulted);
    // The loop simply evaluates again.
    assert_eq!(c.step(&LinkEvent::Observed { started: false }), LinkAction::ApplyConfig);
}

#[test]
fn restart_after_stop_within_one_cooldown_with_same_config() {
    // The radio reports "access-point stopped": the controller waits the
    // cooldown once, then restarts with the very same configuration.
    let mut c = LinkController::new(test_config());
    c.step(&LinkEvent::Observed { started: true });
    assert_eq!(c.phase, LinkPhase::AwaitingStop);

    assert_eq!(c.step(&LinkEvent::StopSignalled), LinkAction::StartCooldown);
    assert_eq!(c.state, LinkState::Down);
    assert_eq!(c.step(&LinkEvent::CooldownElapsed), LinkAction::ObserveRadio);
    assert_eq!(c.step(&LinkEvent::Observed { started: false }), LinkAction::ApplyConfig);
    assert_eq!(c.step(&LinkEvent::ConfigResult { ok: true }), LinkAction::RequestStart);
    assert_eq!(c.step(&LinkEvent::StartResult { ok: true }), LinkAction::ObserveRadio);
    assert_eq!(c.state, LinkState::Up);

    // Re-applied verbatim: same SSID, hidden flag and client limit.
    assert_eq!(c.config.ssid, b"HA:LED".to_vec());
    assert!(c.config.hidden);
    assert_eq!(c.config.max_clients, 2);
}

#[test]
fn unanswered_event_reissues_pending_action() {
    let mut c = LinkController::new(test_config());
    c.step(&LinkEvent::Observed { started: true });
    // A stray timer tick while waiting for the stop signal changes nothing.
    assert_eq!(c.step(&LinkEvent::CooldownElapsed), LinkAction::WaitForStop);
    assert_eq!(c.phase, LinkPhase::AwaitingStop);
}

#[test]
fn cooldown_is_seconds_scale() {
    assert_eq!(COOLDOWN_MS, 5000);
}
