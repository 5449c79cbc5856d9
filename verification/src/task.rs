//! Deferred tasks: the closed set of follow-up actions a device write may
//! report, and the scheduled form pairing an action with its target cycle.

use vstd::prelude::*;

verus! {

/// A follow-up action reported by a device write, to be run by the bus once
/// its target cycle is reached. The set is closed: a new deferred action
/// requires a new variant and a new arm in the drain dispatch.
#[derive(Clone, Copy, Debug, PartialEq, Eq, Structural)]
pub enum BusTask {
    /// Completion payload consumed by the NAND controller's handler.
    Nand(u32),
    /// Completion payload consumed by the AES engine's handler.
    Aes(u32),
    /// Completion payload consumed by the SHA engine's handler.
    Sha(u32),
    /// Memory-interface event, forwarded with its kind and data payload.
    Mi { kind: u32, data: u32 },
    /// Assign the ROM-disabled flag directly, with no handler in between.
    SetRomDisabled(bool),
    /// Assign the mirror-enabled flag directly, with no handler in between.
    SetMirrorEnabled(bool),
}

/// A deferred task together with the absolute cycle at which it becomes
/// eligible to run.
#[derive(Clone, Copy, Debug, PartialEq, Eq, Structural)]
pub struct Task {
    pub kind: BusTask,
    pub target_cycle: u64,
}

/// Per-kind extra scheduling delay. Currently zero for every kind; the
/// per-kind structure is kept so future device timing can differ without
/// changing the scheduling algorithm.
pub open spec fn spec_task_delay(t: BusTask) -> u64 {
    match t {
        BusTask::Nand(_) => 0,
        BusTask::Aes(_) => 0,
        BusTask::Sha(_) => 0,
        BusTask::Mi { .. } => 0,
        BusTask::SetRomDisabled(_) => 0,
        BusTask::SetMirrorEnabled(_) => 0,
    }
}

/// Executable form of `spec_task_delay`.
pub fn task_delay(t: &BusTask) -> (c: u64)
    ensures
        c == spec_task_delay(*t),
{
    match t {
        BusTask::Nand(_) => 0,
        BusTask::Aes(_) => 0,
        BusTask::Sha(_) => 0,
        BusTask::Mi { .. } => 0,
        BusTask::SetRomDisabled(_) => 0,
        BusTask::SetMirrorEnabled(_) => 0,
    }
}

} // verus!
