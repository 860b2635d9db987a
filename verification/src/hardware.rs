//! Shared hardware state: one mutable device flag (an output toggle)
//! read and written by several request handlers. The runtime guards the
//! cell with a single mutual-exclusion lock whose scope is exactly one
//! `perform` call: acquire, read-modify-write, read the resulting state
//! back, release — all before any network write begins. Because every
//! mutation goes through `perform` under that lock, a run of concurrent
//! handlers is some serial order of operations, which `run_ops` models.

use vstd::prelude::*;

verus! {

/// The device flag. A value of this type is owned by the one lock that
/// all handlers share; it is never touched outside a `perform` call.
pub struct HardwareCell {
    pub on: bool,
}

/// One handler's operation on the cell.
#[derive(Clone, Copy, PartialEq, Eq, Structural, Debug)]
pub enum CellOp {
    TurnOn,
    TurnOff,
    Toggle,
    ReadOnly,
}

/// What one operation does to the flag.
pub open spec fn apply_op(state: bool, op: CellOp) -> bool {
    match op {
        CellOp::TurnOn => true,
        CellOp::TurnOff => false,
        CellOp::Toggle => !state,
        CellOp::ReadOnly => state,
    }
}

/// The state an operation demands regardless of what it found, if any:
/// such an operation is a writer with that intent.
pub open spec fn op_intent(op: CellOp) -> Option<bool> {
    match op {
        CellOp::TurnOn => Option::Some(true),
        CellOp::TurnOff => Option::Some(false),
        CellOp::Toggle => Option::None,
        CellOp::ReadOnly => Option::None,
    }
}

/// The flag after a serial run of operations, applied in order.
pub open spec fn run_ops(init: bool, ops: Seq<CellOp>) -> bool
    decreases ops.len(),
{
    if ops.len() == 0 {
        init
    } else {
        apply_op(run_ops(init, ops.drop_last()), ops.last())
    }
}

impl HardwareCell {
    pub fn new(on: bool) -> (c: HardwareCell)
        ensures
            c.on == on,
    {
        HardwareCell { on }
    }

    /// One critical section: apply the operation and report the state
    /// that resulted. The caller must hold the lock for exactly this
    /// call and must not hold it across any network operation.
    pub fn perform(&mut self, op: CellOp) -> (observed: bool)
        ensures
            final(self).on == apply_op(old(self).on, op),
            observed == final(self).on,
    {
        match op {
            CellOp::TurnOn => self.on = true,
            CellOp::TurnOff => self.on = false,
            CellOp::Toggle => self.on = !self.on,
            CellOp::ReadOnly => (),
        }
        self.on
    }
}

/// Mutations are serialized: however concurrent toggle requests
/// interleave, the run is some order of whole operations, and the state
/// after it is the last writer's intent — the reported final state can
/// never mismatch what the last writer asked for.
pub proof fn lemma_last_writer_wins(init: bool, ops: Seq<CellOp>, want: bool)
    requires
        ops.len() > 0,
        op_intent(ops.last()) == Option::Some(want),
    ensures
        run_ops(init, ops) == want,
{
}

/// Each handler observes exactly the state its own operation produced:
/// the observation after the `k`-th operation of a serial run is the
/// run of the first `k + 1` operations.
pub proof fn lemma_observation_is_own_result(init: bool, ops: Seq<CellOp>, k: int)
    requires
        0 <= k < ops.len(),
    ensures
        run_ops(init, ops.take(k + 1)) == apply_op(run_ops(init, ops.take(k)), ops[k]),
{
    assert(ops.take(k + 1).drop_last() =~= ops.take(k));
    assert(ops.take(k + 1).last() == ops[k]);
}

} // verus!
