//! Mathematical model of the bus: an abstract state per device, the effect
//! of executing one deferred task, and a functional description of the
//! drain algorithm (front-to-back scan, in-place removal of eligible
//! entries, cascades appended at the tail and visited in the same pass).

use vstd::prelude::*;
use crate::device::{DeviceModel, HollywoodModel};
use crate::prim::{BusPacket, IoDevice};
use crate::task::{spec_task_delay, BusTask, Task};

verus! {

/// Everything the bus owns apart from the task queue: the device models,
/// the cycle counter and the two configuration flags.
#[verifier::ext_equal]
pub struct CoreModel {
    pub nand: DeviceModel,
    pub aes: DeviceModel,
    pub sha: DeviceModel,
    pub ehci: DeviceModel,
    pub ohci0: DeviceModel,
    pub ohci1: DeviceModel,
    pub sd0: DeviceModel,
    pub sd1: DeviceModel,
    pub hlwd: HollywoodModel,
    pub cycle: u64,
    pub rom_disabled: bool,
    pub mirror_enabled: bool,
}

/// Mathematical view of the whole bus.
#[verifier::ext_equal]
pub struct BusModel {
    pub core: CoreModel,
    pub tasks: Seq<Task>,
}

impl CoreModel {
    /// The device model owned for a given device identifier. The mapping is
    /// fixed: each identifier names exactly one model instance.
    pub open spec fn dev(self, d: IoDevice) -> DeviceModel {
        match d {
            IoDevice::Nand => self.nand,
            IoDevice::Aes => self.aes,
            IoDevice::Sha => self.sha,
            IoDevice::Ehci => self.ehci,
            IoDevice::Ohci0 => self.ohci0,
            IoDevice::Ohci1 => self.ohci1,
            IoDevice::Sdhc0 => self.sd0,
            IoDevice::Sdhc1 => self.sd1,
            IoDevice::Hlwd => self.hlwd.mmio,
            IoDevice::Ahb => self.hlwd.ahb,
            IoDevice::Di => self.hlwd.di,
            IoDevice::Exi => self.hlwd.exi,
            IoDevice::Mi => self.hlwd.mi,
            IoDevice::Ddr => self.hlwd.ddr,
        }
    }
}

/// `c` with the model owned for `d` replaced by `m`, everything else kept.
pub open spec fn core_with_dev(c: CoreModel, d: IoDevice, m: DeviceModel) -> CoreModel {
    match d {
        IoDevice::Nand => CoreModel { nand: m, ..c },
        IoDevice::Aes => CoreModel { aes: m, ..c },
        IoDevice::Sha => CoreModel { sha: m, ..c },
        IoDevice::Ehci => CoreModel { ehci: m, ..c },
        IoDevice::Ohci0 => CoreModel { ohci0: m, ..c },
        IoDevice::Ohci1 => CoreModel { ohci1: m, ..c },
        IoDevice::Sdhc0 => CoreModel { sd0: m, ..c },
        IoDevice::Sdhc1 => CoreModel { sd1: m, ..c },
        IoDevice::Hlwd => CoreModel { hlwd: HollywoodModel { mmio: m, ..c.hlwd }, ..c },
        IoDevice::Ahb => CoreModel { hlwd: HollywoodModel { ahb: m, ..c.hlwd }, ..c },
        IoDevice::Di => CoreModel { hlwd: HollywoodModel { di: m, ..c.hlwd }, ..c },
        IoDevice::Exi => CoreModel { hlwd: HollywoodModel { exi: m, ..c.hlwd }, ..c },
        IoDevice::Mi => CoreModel { hlwd: HollywoodModel { mi: m, ..c.hlwd }, ..c },
        IoDevice::Ddr => CoreModel { hlwd: HollywoodModel { ddr: m, ..c.hlwd }, ..c },
    }
}

/// Replacing one device's model changes exactly that device: every other
/// device, the tick state, the cycle counter and both flags are kept.
pub proof fn lemma_core_with_dev(c: CoreModel, d: IoDevice, m: DeviceModel)
    ensures
        core_with_dev(c, d, m).dev(d) == m,
        forall|d2: IoDevice| d2 != d ==> core_with_dev(c, d, m).dev(d2) == c.dev(d2),
        core_with_dev(c, d, m).cycle == c.cycle,
        core_with_dev(c, d, m).rom_disabled == c.rom_disabled,
        core_with_dev(c, d, m).mirror_enabled == c.mirror_enabled,
        core_with_dev(c, d, m).hlwd.ticks == c.hlwd.ticks,
        core_with_dev(c, d, m).hlwd.tick_task == c.hlwd.tick_task,
{
}

/// `d` after handling a read at `off`: the offset is recorded, nothing
/// else moves.
pub open spec fn device_after_read(d: DeviceModel, off: usize) -> DeviceModel {
    DeviceModel { reads: d.reads.push(off), ..d }
}

/// `d` after handling a write of `val` at `off`: the access is recorded
/// and the one-shot reported task is spent.
pub open spec fn device_after_write(d: DeviceModel, off: usize, val: BusPacket) -> DeviceModel {
    DeviceModel { writes: d.writes.push((off, val)), write_task: None, ..d }
}

/// `tasks` with `t`, if present, scheduled at the end of the queue for
/// `cycle` plus the per-kind delay.
pub open spec fn sched(tasks: Seq<Task>, cycle: u64, t: Option<BusTask>) -> Seq<Task> {
    match t {
        Some(k) => tasks.push(
            Task { kind: k, target_cycle: (cycle + spec_task_delay(k)) as u64 },
        ),
        None => tasks,
    }
}

/// How many of the completion handlers still hold a programmed follow-up
/// task. Only the four devices that receive completions can cascade, so
/// this bounds how much new work one drain call can create.
pub open spec fn scripts(c: CoreModel) -> nat {
    (if c.nand.completion_task is Some { 1nat } else { 0nat })
        + (if c.aes.completion_task is Some { 1nat } else { 0nat })
        + (if c.sha.completion_task is Some { 1nat } else { 0nat })
        + (if c.hlwd.mi.completion_task is Some { 1nat } else { 0nat })
}

/// The device model whose completion handler consumes task kind `k`, if the
/// kind is forwarded to a handler at all (the two flag kinds are not).
pub open spec fn handler_script(c: CoreModel, k: BusTask) -> Option<BusTask> {
    match k {
        BusTask::Nand(_) => c.nand.completion_task,
        BusTask::Aes(_) => c.aes.completion_task,
        BusTask::Sha(_) => c.sha.completion_task,
        BusTask::Mi { .. } => c.hlwd.mi.completion_task,
        BusTask::SetRomDisabled(_) => None,
        BusTask::SetMirrorEnabled(_) => None,
    }
}

/// The scheduled task, if any, that executing kind `k` in state `c` appends
/// to the queue.
pub open spec fn cascade_of(c: CoreModel, k: BusTask) -> Option<Task> {
    match handler_script(c, k) {
        Some(k2) => Some(
            Task { kind: k2, target_cycle: (c.cycle + spec_task_delay(k2)) as u64 },
        ),
        None => None,
    }
}

/// `d` after its completion handler consumed `k`: the task is recorded and
/// the one-shot follow-up script is spent.
pub open spec fn completed_device(d: DeviceModel, k: BusTask) -> DeviceModel {
    DeviceModel { completed: d.completed.push(k), completion_task: None, ..d }
}

/// Effect of executing one task kind on everything but the queue: the three
/// completion payloads and the memory-interface event go to their device's
/// handler; the two flag kinds assign their flag directly, with no handler.
pub open spec fn exec_effect(c: CoreModel, k: BusTask) -> CoreModel {
    match k {
        BusTask::Nand(_) => CoreModel { nand: completed_device(c.nand, k), ..c },
        BusTask::Aes(_) => CoreModel { aes: completed_device(c.aes, k), ..c },
        BusTask::Sha(_) => CoreModel { sha: completed_device(c.sha, k), ..c },
        BusTask::Mi { .. } => CoreModel {
            hlwd: HollywoodModel { mi: completed_device(c.hlwd.mi, k), ..c.hlwd },
            ..c
        },
        BusTask::SetRomDisabled(x) => CoreModel { rom_disabled: x, ..c },
        BusTask::SetMirrorEnabled(x) => CoreModel { mirror_enabled: x, ..c },
    }
}

/// Executing a task never moves the clock, and consumes exactly the script
/// it cascades from.
pub proof fn lemma_exec_effect_frame(c: CoreModel, k: BusTask)
    ensures
        exec_effect(c, k).cycle == c.cycle,
        cascade_of(c, k) is Some ==> scripts(exec_effect(c, k)) < scripts(c),
        cascade_of(c, k) is None ==> scripts(exec_effect(c, k)) == scripts(c),
{
}

/// Executing a task leaves every device's decoded width unchanged.
#[verifier::rlimit(30)]
pub proof fn lemma_exec_effect_widths(c: CoreModel, k: BusTask)
    ensures
        forall|d: IoDevice| #[trigger] exec_effect(c, k).dev(d).width == c.dev(d).width,
{
    assert forall|d: IoDevice| #[trigger] exec_effect(c, k).dev(d).width == c.dev(d).width by {
        match d {
            IoDevice::Nand => {},
            IoDevice::Aes => {},
            IoDevice::Sha => {},
            IoDevice::Ehci => {},
            IoDevice::Ohci0 => {},
            IoDevice::Ohci1 => {},
            IoDevice::Sdhc0 => {},
            IoDevice::Sdhc1 => {},
            IoDevice::Hlwd => {},
            IoDevice::Ahb => {},
            IoDevice::Di => {},
            IoDevice::Exi => {},
            IoDevice::Mi => {},
            IoDevice::Ddr => {},
        }
    }
}

/// Effect of executing one task kind on the whole bus state: the core
/// effect, plus the cascade, if any, appended at the tail of the queue.
pub open spec fn task_done(m: BusModel, k: BusTask) -> BusModel {
    BusModel {
        core: exec_effect(m.core, k),
        tasks: match cascade_of(m.core, k) {
            Some(t) => m.tasks.push(t),
            None => m.tasks,
        },
    }
}

/// The drain scan, front to back. `kept` holds the entries already passed
/// over (not yet eligible); `pending` the entries the cursor has not
/// reached. An eligible head is executed — its cascade, if any, joins the
/// tail of `pending` and is visited in this same call — and an ineligible
/// head is passed over without being removed.
pub open spec fn drain_go(c: CoreModel, kept: Seq<Task>, pending: Seq<Task>) -> BusModel
    decreases pending.len() + scripts(c),
{
    if pending.len() == 0 {
        BusModel { core: c, tasks: kept }
    } else {
        let h = pending[0];
        if h.target_cycle <= c.cycle {
            proof {
                lemma_exec_effect_frame(c, h.kind);
            }
            match cascade_of(c, h.kind) {
                Some(t) => drain_go(
                    exec_effect(c, h.kind),
                    kept,
                    pending.drop_first().push(t),
                ),
                None => drain_go(exec_effect(c, h.kind), kept, pending.drop_first()),
            }
        } else {
            drain_go(c, kept.push(h), pending.drop_first())
        }
    }
}

/// Draining the whole queue of `m` in one call.
pub open spec fn drain_spec(m: BusModel) -> BusModel {
    drain_go(m.core, Seq::empty(), m.tasks)
}

/// The entries of `p` that are not yet eligible at `cycle`, in their
/// original order.
pub open spec fn still_pending(p: Seq<Task>, cycle: u64) -> Seq<Task>
    decreases p.len(),
{
    if p.len() == 0 {
        Seq::empty()
    } else if p[0].target_cycle > cycle {
        seq![p[0]] + still_pending(p.drop_first(), cycle)
    } else {
        still_pending(p.drop_first(), cycle)
    }
}

/// Effect of the bridge's per-step time-driven update on the core.
pub open spec fn tick_core(c: CoreModel, cpu_cycle: usize) -> CoreModel {
    CoreModel {
        hlwd: HollywoodModel {
            ticks: c.hlwd.ticks.push(cpu_cycle),
            tick_task: None,
            ..c.hlwd
        },
        ..c
    }
}

/// Effect of the bridge's per-step update on the whole bus: the update runs
/// once and may enqueue one task.
pub open spec fn tick_effect(m: BusModel, cpu_cycle: usize) -> BusModel {
    BusModel {
        core: tick_core(m.core, cpu_cycle),
        tasks: sched(m.tasks, m.core.cycle, m.core.hlwd.tick_task),
    }
}

/// The cycle counter moved forward by one.
pub open spec fn bump_cycle(c: CoreModel) -> CoreModel {
    CoreModel { cycle: (c.cycle + 1) as u64, ..c }
}

/// One whole `step`: the time-driven update, then the drain, then the cycle
/// increment — in exactly that order, so a zero-delay task enqueued by the
/// update is executed within the same step.
pub open spec fn step_spec(m: BusModel, cpu_cycle: usize) -> BusModel {
    let m1 = drain_spec(tick_effect(m, cpu_cycle));
    BusModel { core: bump_cycle(m1.core), tasks: m1.tasks }
}

/// Appending an entry to the scan's input appends it to the survivors
/// exactly when it is not yet eligible.
pub proof fn lemma_still_pending_push(p: Seq<Task>, cycle: u64, t: Task)
    ensures
        still_pending(p.push(t), cycle) == if t.target_cycle > cycle {
            still_pending(p, cycle).push(t)
        } else {
            still_pending(p, cycle)
        },
    decreases p.len(),
{
    if p.len() == 0 {
        assert(p.push(t)[0] == t);
        assert(p.push(t).drop_first() =~= Seq::<Task>::empty());
        assert(still_pending(Seq::<Task>::empty(), cycle) == Seq::<Task>::empty());
        if t.target_cycle > cycle {
            assert(still_pending(p.push(t), cycle) == seq![t] + Seq::<Task>::empty());
            assert(seq![t] + Seq::<Task>::empty() =~= still_pending(p, cycle).push(t));
        }
    } else {
        assert(p.push(t).drop_first() =~= p.drop_first().push(t));
        lemma_still_pending_push(p.drop_first(), cycle, t);
        assert(p.push(t)[0] == p[0]);
        if p[0].target_cycle > cycle {
            if t.target_cycle > cycle {
                assert(seq![p[0]] + still_pending(p.drop_first(), cycle).push(t)
                    =~= (seq![p[0]] + still_pending(p.drop_first(), cycle)).push(t));
            }
        }
    }
}

/// Every entry the scan keeps is not yet eligible.
pub proof fn lemma_still_pending_all(p: Seq<Task>, cycle: u64)
    ensures
        forall|i: int|
            0 <= i < still_pending(p, cycle).len()
                ==> #[trigger] still_pending(p, cycle)[i].target_cycle > cycle,
    decreases p.len(),
{
    if p.len() > 0 {
        lemma_still_pending_all(p.drop_first(), cycle);
    }
}

/// What the drain leaves in the queue: the entries already passed over,
/// then exactly the input entries that are not yet eligible, in their
/// original order. Cascades are scheduled with the current cycle plus a
/// zero delay, so they are always executed in the same call and never
/// survive.
pub proof fn lemma_drain_go_tasks(c: CoreModel, kept: Seq<Task>, pending: Seq<Task>)
    ensures
        drain_go(c, kept, pending).tasks == kept + still_pending(pending, c.cycle),
        drain_go(c, kept, pending).core.cycle == c.cycle,
        forall|d: IoDevice|
            #[trigger] drain_go(c, kept, pending).core.dev(d).width == c.dev(d).width,
    decreases pending.len() + scripts(c),
{
    if pending.len() == 0 {
        assert(kept + still_pending(pending, c.cycle) =~= kept);
    } else {
        let h = pending[0];
        if h.target_cycle <= c.cycle {
            lemma_exec_effect_frame(c, h.kind);
            lemma_exec_effect_widths(c, h.kind);
            let c2 = exec_effect(c, h.kind);
            match cascade_of(c, h.kind) {
                Some(t) => {
                    lemma_drain_go_tasks(c2, kept, pending.drop_first().push(t));
                    lemma_still_pending_push(pending.drop_first(), c2.cycle, t);
                    assert(t.target_cycle == c.cycle);
                }
                None => {
                    lemma_drain_go_tasks(c2, kept, pending.drop_first());
                }
            }
        } else {
            lemma_drain_go_tasks(c, kept.push(h), pending.drop_first());
            assert(kept.push(h) + still_pending(pending.drop_first(), c.cycle)
                =~= kept + (seq![h] + still_pending(pending.drop_first(), c.cycle)));
        }
    }
}

} // verus!
