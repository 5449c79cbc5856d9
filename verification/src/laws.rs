//! The scheduling guarantees of the bus, stated and proved over the model:
//! what one `step` does to a scheduled task, to a cascade, to entries not
//! yet eligible, to the cycle counter, and to the two configuration flags.

use vstd::prelude::*;
use crate::model::{
    bump_cycle, cascade_of, drain_go, exec_effect, handler_script, lemma_drain_go_tasks,
    step_spec, still_pending, tick_core, tick_effect, BusModel, CoreModel,
};
use crate::task::{BusTask, Task};

verus! {

/// A task scheduled with delay zero is run by the next `step` exactly once
/// — its kind's handler effect is applied once — and the queue is empty
/// afterwards.
pub proof fn lemma_step_runs_single_task(m: BusModel, cpu_cycle: usize, t: Task)
    requires
        m.tasks == seq![t],
        t.target_cycle <= m.core.cycle,
        handler_script(m.core, t.kind) is None,
        m.core.hlwd.tick_task is None,
    ensures
        step_spec(m, cpu_cycle) == (BusModel {
            core: bump_cycle(exec_effect(tick_core(m.core, cpu_cycle), t.kind)),
            tasks: Seq::empty(),
        }),
{
    let c1 = tick_core(m.core, cpu_cycle);
    assert(tick_effect(m, cpu_cycle) == (BusModel { core: c1, tasks: m.tasks }));
    assert(handler_script(c1, t.kind) == handler_script(m.core, t.kind));
    assert(seq![t][0] == t);
    assert(seq![t].drop_first() =~= Seq::<Task>::empty());
    assert(drain_go(c1, Seq::empty(), seq![t]) == drain_go(
        exec_effect(c1, t.kind),
        Seq::empty(),
        seq![t].drop_first(),
    ));
}

/// A task whose handler reports a second delay-zero task during the same
/// `step` causes both to execute before that `step` returns, in the order
/// they were enqueued, and the queue is empty afterwards.
pub proof fn lemma_step_cascade(m: BusModel, cpu_cycle: usize, t: Task, k2: BusTask)
    requires
        m.tasks == seq![t],
        t.target_cycle <= m.core.cycle,
        handler_script(m.core, t.kind) == Some(k2),
        handler_script(exec_effect(m.core, t.kind), k2) is None,
        m.core.hlwd.tick_task is None,
    ensures
        step_spec(m, cpu_cycle) == (BusModel {
            core: bump_cycle(
                exec_effect(exec_effect(tick_core(m.core, cpu_cycle), t.kind), k2),
            ),
            tasks: Seq::empty(),
        }),
{
    let c1 = tick_core(m.core, cpu_cycle);
    let c2 = exec_effect(c1, t.kind);
    assert(tick_effect(m, cpu_cycle) == (BusModel { core: c1, tasks: m.tasks }));
    assert(handler_script(c1, t.kind) == handler_script(m.core, t.kind));
    assert(handler_script(c2, k2) == handler_script(exec_effect(m.core, t.kind), k2));
    let ct = cascade_of(c1, t.kind).unwrap();
    assert(ct.kind == k2);
    assert(ct.target_cycle == c1.cycle);
    assert(seq![t][0] == t);
    assert(seq![t].drop_first().push(ct) =~= seq![ct]);
    assert(drain_go(c1, Seq::empty(), seq![t]) == drain_go(
        c2,
        Seq::empty(),
        seq![t].drop_first().push(ct),
    ));
    assert(seq![ct][0] == ct);
    assert(seq![ct].drop_first() =~= Seq::<Task>::empty());
    assert(drain_go(c2, Seq::empty(), seq![ct]) == drain_go(
        exec_effect(c2, k2),
        Seq::empty(),
        seq![ct].drop_first(),
    ));
}

/// With two tasks at different target cycles of which only the earlier is
/// eligible, one `step` runs the earlier and leaves the later untouched,
/// alone in the queue at its original relative position.
pub proof fn lemma_step_keeps_later_task(m: BusModel, cpu_cycle: usize, t1: Task, t2: Task)
    requires
        m.tasks == seq![t1, t2],
        t1.target_cycle <= m.core.cycle,
        t2.target_cycle > m.core.cycle,
        m.core.hlwd.tick_task is None,
    ensures
        step_spec(m, cpu_cycle).tasks == seq![t2],
{
    let m1 = tick_effect(m, cpu_cycle);
    assert(m1.tasks == m.tasks);
    assert(m1.core.cycle == m.core.cycle);
    lemma_drain_go_tasks(m1.core, Seq::empty(), m1.tasks);
    assert(seq![t1, t2][0] == t1);
    assert(seq![t1, t2].drop_first() =~= seq![t2]);
    assert(seq![t2][0] == t2);
    assert(seq![t2].drop_first() =~= Seq::<Task>::empty());
    assert(still_pending(Seq::<Task>::empty(), m.core.cycle) == Seq::<Task>::empty());
    assert(still_pending(seq![t2], m.core.cycle) == seq![seq![t2][0]] + Seq::<Task>::empty());
    assert(seq![seq![t2][0]] + Seq::<Task>::empty() =~= seq![t2]);
    assert(still_pending(m.tasks, m.core.cycle) =~= seq![t2]);
    assert(Seq::<Task>::empty() + still_pending(m.tasks, m1.core.cycle) =~= seq![t2]);
}

/// The cycle counter moves forward by exactly one per `step`, however many
/// tasks were drained in that call.
pub proof fn lemma_step_cycle(m: BusModel, cpu_cycle: usize)
    requires
        m.core.cycle < u64::MAX,
    ensures
        step_spec(m, cpu_cycle).core.cycle == m.core.cycle + 1,
{
    let m1 = tick_effect(m, cpu_cycle);
    lemma_drain_go_tasks(m1.core, Seq::empty(), m1.tasks);
}

/// The two flag tasks assign their flag directly: no handler is involved,
/// no cascade arises, and nothing else in the core changes.
pub proof fn lemma_flag_task_effect(c: CoreModel, x: bool)
    ensures
        exec_effect(c, BusTask::SetRomDisabled(x)) == (CoreModel { rom_disabled: x, ..c }),
        exec_effect(c, BusTask::SetMirrorEnabled(x)) == (CoreModel { mirror_enabled: x, ..c }),
        cascade_of(c, BusTask::SetRomDisabled(x)) is None,
        cascade_of(c, BusTask::SetMirrorEnabled(x)) is None,
{
}

} // verus!
