//! Orchestrator: bring-up happens exactly once at process start — radio
//! subsystem initialization, then the interface gate — after which the
//! link controller, lease server and connection server are launched as
//! independently progressing tasks sharing one interface handle, and
//! the orchestrator itself degrades to a periodic idle sleep that never
//! returns. Only initialization can be fatal: with no radio or
//! allocator there is no service to offer, so the process aborts; after
//! launch, no error ever crosses a task boundary back to it.

use vstd::prelude::*;

verus! {

/// Milliseconds the orchestrator sleeps per idle iteration once the
/// tasks run.
pub const IDLE_SLEEP_MS: u64 = 1000;

/// Fold the two words of hardware entropy into the 64-bit seed the
/// network stack is created with: the first word in the high half, the
/// second in the low half.
pub fn stack_seed(hi: u32, lo: u32) -> (r: u64)
    ensures
        r == (hi as u64) * 0x1_0000_0000 + (lo as u64),
{
    let r = ((hi as u64) << 32) | (lo as u64);
    proof {
        assert(((hi as u64) << 32u64) | (lo as u64) == (hi as u64) * 0x1_0000_0000 + (
        lo as u64)) by (bit_vector);
    }
    r
}

/// Where the orchestrator stands.
#[derive(Clone, Copy, PartialEq, Eq, Structural, Debug)]
pub enum BootStage {
    /// Initializing the radio subsystem and allocator.
    InitRadio,
    /// Running the interface bring-up gate.
    WaitInterface,
    /// Launching the three service tasks.
    Launch,
    /// Everything runs; the orchestrator only sleeps.
    Idle,
    /// Initialization failed: the process aborts.
    Failed,
}

/// What the runtime reports back to the orchestrator.
#[derive(Clone, Copy, PartialEq, Eq, Structural, Debug)]
pub enum BootEvent {
    RadioInitOk,
    RadioInitFailed,
    /// Link-up and address-configuration-up both came true.
    InterfaceReady,
    TasksLaunched,
    IdleTick,
}

/// The next thing the runtime must do.
#[derive(Clone, Copy, PartialEq, Eq, Structural, Debug)]
pub enum BootAction {
    /// Initialize the radio subsystem; fallible, and fatal on failure.
    InitializeRadio,
    /// Poll the interface gate until it proceeds.
    RunGate,
    /// Spawn the link controller, lease server and connection server.
    LaunchTasks,
    /// Sleep `IDLE_SLEEP_MS` and tick again.
    Sleep,
    /// Abort the process: nothing can be served.
    Halt,
}

/// The action each stage is waiting on.
pub open spec fn stage_action(s: BootStage) -> BootAction {
    match s {
        BootStage::InitRadio => BootAction::InitializeRadio,
        BootStage::WaitInterface => BootAction::RunGate,
        BootStage::Launch => BootAction::LaunchTasks,
        BootStage::Idle => BootAction::Sleep,
        BootStage::Failed => BootAction::Halt,
    }
}

/// The bring-up sequence, each step taken exactly once, and the idle
/// loop it ends in. An event that does not answer the pending action
/// re-issues it.
pub open spec fn spec_boot_step(s: BootStage, e: BootEvent) -> (BootStage, BootAction) {
    match (s, e) {
        (BootStage::InitRadio, BootEvent::RadioInitOk) => (
            BootStage::WaitInterface,
            BootAction::RunGate,
        ),
        (BootStage::InitRadio, BootEvent::RadioInitFailed) => (BootStage::Failed, BootAction::Halt),
        (BootStage::WaitInterface, BootEvent::InterfaceReady) => (
            BootStage::Launch,
            BootAction::LaunchTasks,
        ),
        (BootStage::Launch, BootEvent::TasksLaunched) => (BootStage::Idle, BootAction::Sleep),
        (BootStage::Idle, BootEvent::IdleTick) => (BootStage::Idle, BootAction::Sleep),
        _ => (s, stage_action(s)),
    }
}

/// The orchestrator's state.
pub struct Orchestrator {
    pub stage: BootStage,
}

impl Orchestrator {
    pub fn new() -> (o: Orchestrator)
        ensures
            o.stage == BootStage::InitRadio,
    {
        Orchestrator { stage: BootStage::InitRadio }
    }

    /// Consume one event; answer with the next action.
    pub fn step(&mut self, event: &BootEvent) -> (a: BootAction)
        ensures
            (final(self).stage, a) == spec_boot_step(old(self).stage, *event),
    {
        let (s, a) = match (self.stage, *event) {
            (BootStage::InitRadio, BootEvent::RadioInitOk) => (
                BootStage::WaitInterface,
                BootAction::RunGate,
            ),
            (BootStage::InitRadio, BootEvent::RadioInitFailed) => (
                BootStage::Failed,
                BootAction::Halt,
            ),
            (BootStage::WaitInterface, BootEvent::InterfaceReady) => (
                BootStage::Launch,
                BootAction::LaunchTasks,
            ),
            (BootStage::Launch, BootEvent::TasksLaunched) => (BootStage::Idle, BootAction::Sleep),
            (BootStage::Idle, BootEvent::IdleTick) => (BootStage::Idle, BootAction::Sleep),
            (s, _) => (
                s,
                match s {
                    BootStage::InitRadio => BootAction::InitializeRadio,
                    BootStage::WaitInterface => BootAction::RunGate,
                    BootStage::Launch => BootAction::LaunchTasks,
                    BootStage::Idle => BootAction::Sleep,
                    BootStage::Failed => BootAction::Halt,
                },
            ),
        };
        self.stage = s;
        a
    }
}

/// The process has no normal termination: once idle, every event keeps
/// the orchestrator idle and sleeping, and a failed initialization only
/// ever halts.
pub proof fn lemma_no_normal_termination(e: BootEvent)
    ensures
        spec_boot_step(BootStage::Idle, e) == (BootStage::Idle, BootAction::Sleep),
        spec_boot_step(BootStage::Failed, e) == (BootStage::Failed, BootAction::Halt),
{
}

} // verus!
