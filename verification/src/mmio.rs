//! Bus dispatch and the step scheduler: routing of typed memory accesses to
//! the owned device models over the fixed (width, device) table, and the
//! per-step drain of eligible deferred tasks.

use vstd::prelude::*;
use crate::bus::{lemma_widths_fixed_with_dev, Bus};
use crate::device::read_reply;
use crate::model::{
    bump_cycle, cascade_of, core_with_dev, device_after_read, device_after_write, drain_go,
    drain_spec, exec_effect, lemma_core_with_dev, lemma_drain_go_tasks, lemma_exec_effect_frame,
    lemma_still_pending_all, sched, scripts, step_spec, still_pending, task_done, BusModel,
};
use crate::prim::{
    access_supported, access_supported_ex, lemma_supported_width_unique, packet_width,
    packet_width_ex, BusError, BusPacket, BusWidth, IoDevice,
};
use crate::task::{BusTask, Task};

verus! {

impl Bus {
    /// Dispatch a physical read access to some memory-mapped I/O device.
    ///
    /// Defined only for the enumerated (width, device) shapes; every other
    /// shape is a fatal configuration error, rejected by the checked entry
    /// point `try_mmio_read`. Exactly the addressed device handles the
    /// access, at the given offset; no task is scheduled and neither the
    /// clock nor the flags move.
    pub fn do_mmio_read(&mut self, dev: IoDevice, off: usize, width: BusWidth) -> (r: BusPacket)
        requires
            old(self).wf(),
            access_supported(width, dev),
        ensures
            final(self)@.core == core_with_dev(
                old(self)@.core,
                dev,
                device_after_read(old(self)@.core.dev(dev), off),
            ),
            final(self)@.tasks == old(self)@.tasks,
            r == read_reply(old(self)@.core.dev(dev)),
            packet_width(r) == width,
            final(self).wf(),
    {
        let ghost pre = self@;
        let r = match (width, dev) {
            (BusWidth::W, IoDevice::Nand) => self.nand.read(off),
            (BusWidth::W, IoDevice::Aes) => self.aes.read(off),
            (BusWidth::W, IoDevice::Sha) => self.sha.read(off),
            (BusWidth::W, IoDevice::Ehci) => self.ehci.read(off),
            (BusWidth::W, IoDevice::Ohci0) => self.ohci0.read(off),
            (BusWidth::W, IoDevice::Ohci1) => self.ohci1.read(off),
            (BusWidth::W, IoDevice::Sdhc0) => self.sd0.read(off),
            (BusWidth::W, IoDevice::Sdhc1) => self.sd1.read(off),
            (BusWidth::W, IoDevice::Hlwd) => self.hlwd.read(off),
            (BusWidth::W, IoDevice::Ahb) => self.hlwd.ahb.read(off),
            (BusWidth::W, IoDevice::Di) => self.hlwd.di.read(off),
            (BusWidth::W, IoDevice::Exi) => self.hlwd.exi.read(off),
            (BusWidth::H, IoDevice::Mi) => self.hlwd.mi.read(off),
            (BusWidth::H, IoDevice::Ddr) => self.hlwd.ddr.read(off),
            _ => unreached(),
        };
        proof {
            let dm = device_after_read(pre.core.dev(dev), off);
            assert(self@.core =~= core_with_dev(pre.core, dev, dm));
            lemma_core_with_dev(pre.core, dev, dm);
            lemma_supported_width_unique(width, pre.core.dev(dev).width, dev);
            lemma_widths_fixed_with_dev(pre.core, dev, dm);
        }
        r
    }

    /// Dispatch a physical write access to some memory-mapped I/O device.
    ///
    /// The (value tag, device) pair must be one of the enumerated shapes;
    /// the checked entry point `try_mmio_write` rejects every other shape.
    /// Exactly the addressed device handles the write; if it reports a
    /// deferred task, that task is appended to the queue with a target of
    /// the current cycle plus the per-kind delay.
    #[verifier::rlimit(50)]
    pub fn do_mmio_write(&mut self, dev: IoDevice, off: usize, msg: BusPacket)
        requires
            old(self).wf(),
            access_supported(packet_width(msg), dev),
        ensures
            final(self)@.core == core_with_dev(
                old(self)@.core,
                dev,
                device_after_write(old(self)@.core.dev(dev), off, msg),
            ),
            final(self)@.tasks == sched(
                old(self)@.tasks,
                old(self)@.core.cycle,
                old(self)@.core.dev(dev).write_task,
            ),
            final(self).wf(),
    {
        let ghost pre = self@;
        let task = match (msg, dev) {
            (BusPacket::Word(_), IoDevice::Nand) => self.nand.write(off, msg),
            (BusPacket::Word(_), IoDevice::Aes) => self.aes.write(off, msg),
            (BusPacket::Word(_), IoDevice::Sha) => self.sha.write(off, msg),
            (BusPacket::Word(_), IoDevice::Ehci) => self.ehci.write(off, msg),
            (BusPacket::Word(_), IoDevice::Ohci0) => self.ohci0.write(off, msg),
            (BusPacket::Word(_), IoDevice::Ohci1) => self.ohci1.write(off, msg),
            (BusPacket::Word(_), IoDevice::Sdhc0) => self.sd0.write(off, msg),
            (BusPacket::Word(_), IoDevice::Sdhc1) => self.sd1.write(off, msg),
            (BusPacket::Word(_), IoDevice::Hlwd) => self.hlwd.write(off, msg),
            (BusPacket::Word(_), IoDevice::Ahb) => self.hlwd.ahb.write(off, msg),
            (BusPacket::Word(_), IoDevice::Exi) => self.hlwd.exi.write(off, msg),
            (BusPacket::Word(_), IoDevice::Di) => self.hlwd.di.write(off, msg),
            (BusPacket::Half(_), IoDevice::Mi) => self.hlwd.mi.write(off, msg),
            (BusPacket::Half(_), IoDevice::Ddr) => self.hlwd.ddr.write(off, msg),
            _ => unreached(),
        };
        proof {
            let dm = device_after_write(pre.core.dev(dev), off, msg);
            assert(self@.core =~= core_with_dev(pre.core, dev, dm));
            assert(self@.tasks == pre.tasks);
            assert(task == pre.core.dev(dev).write_task);
        }
        self.schedule_opt(task);
        proof {
            let dm = device_after_write(pre.core.dev(dev), off, msg);
            lemma_core_with_dev(pre.core, dev, dm);
            lemma_widths_fixed_with_dev(pre.core, dev, dm);
        }
    }

    /// Checked read dispatch: a defined shape behaves as `do_mmio_read`;
    /// every undefined shape is reported as a fatal configuration error
    /// naming the offending width, device and offset, with no device
    /// touched and no state changed.
    pub fn try_mmio_read(&mut self, dev: IoDevice, off: usize, width: BusWidth) -> (r: Result<
        BusPacket,
        BusError,
    >)
        requires
            old(self).wf(),
        ensures
            access_supported(width, dev) ==> {
                &&& r == Ok::<BusPacket, BusError>(read_reply(old(self)@.core.dev(dev)))
                &&& final(self)@.core == core_with_dev(
                    old(self)@.core,
                    dev,
                    device_after_read(old(self)@.core.dev(dev), off),
                )
                &&& final(self)@.tasks == old(self)@.tasks
            },
            !access_supported(width, dev) ==> {
                &&& r == Err::<BusPacket, BusError>((BusError { width, dev, off }))
                &&& final(self)@ == old(self)@
            },
            final(self).wf(),
    {
        if access_supported_ex(width, dev) {
            let p = self.do_mmio_read(dev, off, width);
            Ok(p)
        } else {
            Err(BusError { width, dev, off })
        }
    }

    /// Checked write dispatch: a defined shape behaves as `do_mmio_write`;
    /// every undefined shape is reported as a fatal configuration error
    /// naming the offending width, device and offset, with no device
    /// touched and no state changed.
    pub fn try_mmio_write(&mut self, dev: IoDevice, off: usize, msg: BusPacket) -> (r: Result<
        (),
        BusError,
    >)
        requires
            old(self).wf(),
        ensures
            access_supported(packet_width(msg), dev) ==> {
                &&& r is Ok
                &&& final(self)@.core == core_with_dev(
                    old(self)@.core,
                    dev,
                    device_after_write(old(self)@.core.dev(dev), off, msg),
                )
                &&& final(self)@.tasks == sched(
                    old(self)@.tasks,
                    old(self)@.core.cycle,
                    old(self)@.core.dev(dev).write_task,
                )
            },
            !access_supported(packet_width(msg), dev) ==> {
                &&& r == Err::<(), BusError>((BusError { width: packet_width(msg), dev, off }))
                &&& final(self)@ == old(self)@
            },
            final(self).wf(),
    {
        let width = packet_width_ex(&msg);
        if access_supported_ex(width, dev) {
            self.do_mmio_write(dev, off, msg);
            Ok(())
        } else {
            Err(BusError { width, dev, off })
        }
    }

    /// Emulate a slice of work on the system bus: run the bridge chip's
    /// time-driven update, drain the eligible deferred tasks, then advance
    /// the cycle counter by exactly one — in that order, so a zero-delay
    /// task enqueued by the update runs within this same step.
    pub fn step(&mut self, cpu_cycle: usize)
        requires
            old(self).wf(),
            old(self).cycle < u64::MAX,
        ensures
            final(self)@ == step_spec(old(self)@, cpu_cycle),
            final(self)@.core.cycle == old(self)@.core.cycle + 1,
            final(self)@.tasks == still_pending(
                sched(old(self)@.tasks, old(self)@.core.cycle, old(self)@.core.hlwd.tick_task),
                old(self)@.core.cycle,
            ),
            forall|i: int|
                0 <= i < final(self)@.tasks.len()
                    ==> #[trigger] final(self)@.tasks[i].target_cycle > old(self)@.core.cycle,
            final(self).wf(),
    {
        let ghost pre = self@;
        self.handle_step_hlwd(cpu_cycle);
        let ghost m1 = self@;
        if self.tasks.len() != 0 {
            self.drain_tasks();
        } else {
            proof {
                assert(m1.tasks =~= Seq::<Task>::empty());
                assert(drain_spec(m1) == (BusModel { core: m1.core, tasks: m1.tasks }));
                assert(self@ =~= drain_spec(m1));
            }
        }
        proof {
            lemma_drain_go_tasks(m1.core, Seq::empty(), m1.tasks);
            assert(self@.core.cycle == pre.core.cycle);
            assert(self@.tasks =~= still_pending(m1.tasks, pre.core.cycle));
            lemma_still_pending_all(m1.tasks, pre.core.cycle);
        }
        let ghost m2 = self@;
        self.cycle = self.cycle + 1;
        proof {
            assert(self@ =~= (BusModel { core: bump_cycle(m2.core), tasks: m2.tasks }));
            assert(self@ =~= step_spec(pre, cpu_cycle));
            assert forall|d2: IoDevice| access_supported(
                #[trigger] self@.core.dev(d2).width,
                d2,
            ) by {
                assert(m1.core.dev(d2).width == pre.core.dev(d2).width);
                assert(self@.core.dev(d2).width == m2.core.dev(d2).width);
            }
        }
    }

    /// Dispatch all of the pending tasks on the bus: scan the queue from
    /// the front; execute and remove every entry whose target cycle has
    /// been reached — a cascade it enqueues joins the tail and is visited
    /// in this same call — and pass over, without reordering, every entry
    /// not yet eligible.
    pub fn drain_tasks(&mut self)
        ensures
            final(self)@ == drain_spec(old(self)@),
    {
        let ghost goal = drain_spec(self@);
        let mut idx: usize = 0;
        proof {
            assert(self@.tasks.take(0) =~= Seq::<Task>::empty());
            assert(self@.tasks.skip(0) =~= self@.tasks);
        }
        while idx != self.tasks.len()
            invariant
                idx <= self.tasks.len(),
                drain_go(self@.core, self@.tasks.take(idx as int), self@.tasks.skip(idx as int))
                    == goal,
            decreases self.tasks.len() - idx + scripts(self@.core),
        {
            let ghost s0 = self@;
            let ghost a = s0.tasks.take(idx as int);
            let ghost p = s0.tasks.skip(idx as int);
            let t = self.tasks[idx];
            proof {
                assert(p[0] == t);
            }
            if t.target_cycle <= self.cycle {
                let task = self.tasks.remove(idx);
                match task.kind {
                    BusTask::Nand(x) => self.handle_task_nand(x),
                    BusTask::Aes(x) => self.handle_task_aes(x),
                    BusTask::Sha(x) => self.handle_task_sha(x),
                    BusTask::Mi { kind, data } => self.handle_task_mi(kind, data),
                    BusTask::SetRomDisabled(x) => self.rom_disabled = x,
                    BusTask::SetMirrorEnabled(x) => self.mirror_enabled = x,
                }
                proof {
                    let mid = BusModel { core: s0.core, tasks: s0.tasks.remove(idx as int) };
                    assert(self@ =~= task_done(mid, t.kind));
                    lemma_exec_effect_frame(s0.core, t.kind);
                    assert(self@.core == exec_effect(s0.core, t.kind));
                    match cascade_of(s0.core, t.kind) {
                        Some(ct) => {
                            assert(self@.tasks == mid.tasks.push(ct));
                            assert(self@.tasks.take(idx as int) =~= a);
                            assert(self@.tasks.skip(idx as int) =~= p.drop_first().push(ct));
                            assert(drain_go(s0.core, a, p) == drain_go(
                                exec_effect(s0.core, t.kind),
                                a,
                                p.drop_first().push(ct),
                            ));
                        },
                        None => {
                            assert(self@.tasks == mid.tasks);
                            assert(self@.tasks.take(idx as int) =~= a);
                            assert(self@.tasks.skip(idx as int) =~= p.drop_first());
                            assert(drain_go(s0.core, a, p) == drain_go(
                                exec_effect(s0.core, t.kind),
                                a,
                                p.drop_first(),
                            ));
                        },
                    }
                }
            } else {
                idx = idx + 1;
                proof {
                    assert(self@.tasks.take(idx as int) =~= a.push(t));
                    assert(self@.tasks.skip(idx as int) =~= p.drop_first());
                    assert(drain_go(s0.core, a, p) == drain_go(s0.core, a.push(t), p.drop_first()));
                }
            }
        }
        proof {
            assert(self@.tasks.take(idx as int) =~= self@.tasks);
            assert(self@.tasks.skip(idx as int) =~= Seq::<Task>::empty());
            assert(goal == (BusModel { core: self@.core, tasks: self@.tasks }));
            assert(self@ =~= (BusModel { core: self@.core, tasks: self@.tasks }));
        }
    }
}

} // verus!
