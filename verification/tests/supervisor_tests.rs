use netsup::boot::{BootAction, BootEvent, BootStage, Orchestrator};
use netsup::gate::{GateAction, InterfaceReadiness, CONFIG_POLL_INTERVAL_MS, LINK_POLL_INTERVAL_MS};
use netsup::hardware::{CellOp, HardwareCell};

#[test]
fn gate_polls_link_first_then_config_then_proceeds() {
    let r = InterfaceReadiness { link_up: false, config_up: false };
    assert_eq!(r.next_step(), GateAction::PollLink);
    let r = InterfaceReadiness { link_up: false, config_up: true };
    assert_eq!(r.next_step(), GateAction::PollLink);
    let r = InterfaceReadiness { link_up: true, config_up: false };
    assert_eq!(r.next_step(), GateAction::PollConfig);
    let r = InterfaceReadiness { link_up: true, config_up: true };
    assert_eq!(r.next_step(), GateAction::Proceed);
    assert!(r.ready());
    // Short fixed intervals, hundreds of milliseconds.
    assert_eq!(LINK_POLL_INTERVAL_MS, 500);
    assert_eq!(CONFIG_POLL_INTERVAL_MS, 100);
}

#[test]
fn bringup_runs_once_then_idles_forever() {
    let mut o = Orchestrator::new();
    assert_eq!(o.step(&BootEvent::RadioInitOk), BootAction::RunGate);
    assert_eq!(o.step(&BootEvent::InterfaceReady), BootAction::LaunchTasks);
    assert_eq!(o.step(&BootEvent::TasksLaunched), BootAction::Sleep);
    for _ in 0..5 {
        assert_eq!(o.step(&BootEvent::IdleTick), BootAction::Sleep);
        assert_eq!(o.stage, BootStage::Idle);
    }
}

#[test]
fn radio_init_failure_is_fatal() {
    let mut o = Orchestrator::new();
    assert_eq!(o.step(&BootEvent::RadioInitFailed), BootAction::Halt);
    assert_eq!(o.stage, BootStage::Failed);
    // Nothing recovers from a fatal initialization failure.
    assert_eq!(o.step(&BootEvent::IdleTick), BootAction::Halt);
}

#[test]
fn cell_operations_apply_and_report_the_resulting_state() {
    let mut cell = HardwareCell::new(false);
    assert!(cell.perform(CellOp::TurnOn));
    assert!(!cell.perform(CellOp::TurnOff));
    assert!(cell.perform(CellOp::Toggle));
    assert!(cell.perform(CellOp::ReadOnly));
    assert!(cell.on);
}

#[test]
fn serialized_runs_end_in_the_last_writers_state() {
    // However the handlers interleaved before serialization, the state
    // after the run is what the last writer asked for.
    let runs: [(&[CellOp], bool); 3] = [
        (&[CellOp::TurnOn, CellOp::Toggle, CellOp::TurnOff], false),
        (&[CellOp::Toggle, CellOp::Toggle, CellOp::TurnOn], true),
        (&[CellOp::TurnOn, CellOp::ReadOnly, CellOp::TurnOff, CellOp::ReadOnly], false),
    ];
    for (ops, expected) in runs {
        let mut cell = HardwareCell::new(true);
        let mut last = cell.on;
        for op in ops {
            last = cell.perform(*op);
        }
        assert_eq!(cell.on, expected);
        assert_eq!(last, expected);
    }
}

#[test]
fn stack_seed_packs_high_and_low_words() {
    assert_eq!(netsup::boot::stack_seed(1, 2), 0x1_0000_0002);
    assert_eq!(netsup::boot::stack_seed(0, 7), 7);
    assert_eq!(netsup::boot::stack_seed(u32::MAX, u32::MAX), u64::MAX);
}
