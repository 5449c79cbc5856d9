//! The bus root: exclusive owner of every peripheral device model, the
//! deferred-task queue, the cycle counter and the two configuration flags.

use vstd::prelude::*;
use crate::device::{fresh_device, fresh_hollywood, Device, DeviceModel, Hollywood};
use crate::model::{sched, task_done, tick_effect, BusModel, CoreModel};
use crate::prim::{access_supported, BusWidth, IoDevice};
use crate::task::{task_delay, BusTask, Task};

verus! {

/// All devices hold the width the dispatch table pairs them with. This is
/// fixed at construction and preserved by every bus operation.
pub open spec fn widths_fixed(c: CoreModel) -> bool {
    forall|d: IoDevice| access_supported(#[trigger] c.dev(d).width, d)
}

/// Replacing one device's model with one of the same width keeps every
/// device at its table width.
pub proof fn lemma_widths_fixed_with_dev(c: CoreModel, d: IoDevice, m: DeviceModel)
    requires
        widths_fixed(c),
        m.width == c.dev(d).width,
    ensures
        widths_fixed(crate::model::core_with_dev(c, d, m)),
{
    crate::model::lemma_core_with_dev(c, d, m);
    assert forall|d2: IoDevice| access_supported(
        #[trigger] crate::model::core_with_dev(c, d, m).dev(d2).width,
        d2,
    ) by {
        if d2 == d {
            assert(crate::model::core_with_dev(c, d, m).dev(d2).width == c.dev(d).width);
        } else {
            assert(crate::model::core_with_dev(c, d, m).dev(d2).width == c.dev(d2).width);
        }
    }
}

/// The whole bus in its reset state: fresh devices, an empty queue, cycle
/// zero, both flags clear.
pub open spec fn fresh_bus() -> BusModel {
    BusModel {
        core: CoreModel {
            nand: fresh_device(BusWidth::W),
            aes: fresh_device(BusWidth::W),
            sha: fresh_device(BusWidth::W),
            ehci: fresh_device(BusWidth::W),
            ohci0: fresh_device(BusWidth::W),
            ohci1: fresh_device(BusWidth::W),
            sd0: fresh_device(BusWidth::W),
            sd1: fresh_device(BusWidth::W),
            hlwd: fresh_hollywood(),
            cycle: 0,
            rom_disabled: false,
            mirror_enabled: false,
        },
        tasks: Seq::empty(),
    }
}

/// The system bus. Owns one device model per identifier, the task queue,
/// the monotonically increasing cycle counter, and the two flags that only
/// deferred flag tasks may assign.
pub struct Bus {
    pub nand: Device,
    pub aes: Device,
    pub sha: Device,
    pub ehci: Device,
    pub ohci0: Device,
    pub ohci1: Device,
    pub sd0: Device,
    pub sd1: Device,
    pub hlwd: Hollywood,
    pub tasks: Vec<Task>,
    pub cycle: u64,
    pub rom_disabled: bool,
    pub mirror_enabled: bool,
}

impl View for Bus {
    type V = BusModel;

    open spec fn view(&self) -> BusModel {
        BusModel {
            core: CoreModel {
                nand: self.nand@,
                aes: self.aes@,
                sha: self.sha@,
                ehci: self.ehci@,
                ohci0: self.ohci0@,
                ohci1: self.ohci1@,
                sd0: self.sd0@,
                sd1: self.sd1@,
                hlwd: self.hlwd@,
                cycle: self.cycle,
                rom_disabled: self.rom_disabled,
                mirror_enabled: self.mirror_enabled,
            },
            tasks: self.tasks@,
        }
    }
}

impl Bus {
    /// Well-formedness: every owned device decodes the width the dispatch
    /// table assigns to it.
    pub open spec fn wf(self) -> bool {
        widths_fixed(self@.core)
    }

    /// A bus with every device in its reset state.
    pub fn new() -> (b: Bus)
        ensures
            b@ == fresh_bus(),
            b.wf(),
    {
        let b = Bus {
            nand: Device::new(BusWidth::W),
            aes: Device::new(BusWidth::W),
            sha: Device::new(BusWidth::W),
            ehci: Device::new(BusWidth::W),
            ohci0: Device::new(BusWidth::W),
            ohci1: Device::new(BusWidth::W),
            sd0: Device::new(BusWidth::W),
            sd1: Device::new(BusWidth::W),
            hlwd: Hollywood::new(),
            tasks: Vec::new(),
            cycle: 0,
            rom_disabled: false,
            mirror_enabled: false,
        };
        proof {
            assert(b@ =~= fresh_bus());
            assert forall|d: IoDevice| access_supported(#[trigger] b@.core.dev(d).width, d) by {
                match d {
                    IoDevice::Nand => {},
                    IoDevice::Aes => {},
                    IoDevice::Sha => {},
                    IoDevice::Ehci => {},
                    IoDevice::Ohci0 => {},
                    IoDevice::Ohci1 => {},
                    IoDevice::Sdhc0 => {},
                    IoDevice::Sdhc1 => {},
                    IoDevice::Hlwd => {},
                    IoDevice::Ahb => {},
                    IoDevice::Di => {},
                    IoDevice::Exi => {},
                    IoDevice::Mi => {},
                    IoDevice::Ddr => {},
                }
            }
        }
        b
    }

    /// Run the bridge chip's time-driven update once; a task it reports is
    /// scheduled at the current cycle plus the per-kind delay.
    pub fn handle_step_hlwd(&mut self, cpu_cycle: usize)
        ensures
            final(self)@ == tick_effect(old(self)@, cpu_cycle),
    {
        let t = self.hlwd.tick(cpu_cycle);
        match t {
            Some(k) => {
                let c = task_delay(&k);
                self.tasks.push(Task { kind: k, target_cycle: self.cycle + c });
            },
            None => {},
        }
        proof {
            assert(self@ =~= tick_effect(old(self)@, cpu_cycle));
        }
    }

    /// Forward a NAND completion payload to the NAND model's handler; a
    /// follow-up task it reports is scheduled at the tail of the queue.
    pub fn handle_task_nand(&mut self, x: u32)
        ensures
            final(self)@ == task_done(old(self)@, BusTask::Nand(x)),
    {
        let next = self.nand.complete(BusTask::Nand(x));
        self.schedule_opt(next);
        proof {
            assert(self@ =~= task_done(old(self)@, BusTask::Nand(x)));
        }
    }

    /// Forward an AES completion payload to the AES model's handler.
    pub fn handle_task_aes(&mut self, x: u32)
        ensures
            final(self)@ == task_done(old(self)@, BusTask::Aes(x)),
    {
        let next = self.aes.complete(BusTask::Aes(x));
        self.schedule_opt(next);
        proof {
            assert(self@ =~= task_done(old(self)@, BusTask::Aes(x)));
        }
    }

    /// Forward a SHA completion payload to the SHA model's handler.
    pub fn handle_task_sha(&mut self, x: u32)
        ensures
            final(self)@ == task_done(old(self)@, BusTask::Sha(x)),
    {
        let next = self.sha.complete(BusTask::Sha(x));
        self.schedule_opt(next);
        proof {
            assert(self@ =~= task_done(old(self)@, BusTask::Sha(x)));
        }
    }

    /// Forward a memory-interface event, with its kind and data, to the
    /// memory-interface model's handler.
    pub fn handle_task_mi(&mut self, kind: u32, data: u32)
        ensures
            final(self)@ == task_done(old(self)@, (BusTask::Mi { kind, data })),
    {
        let next = self.hlwd.mi.complete(BusTask::Mi { kind, data });
        self.schedule_opt(next);
        proof {
            assert(self@ =~= task_done(old(self)@, (BusTask::Mi { kind, data })));
        }
    }

    /// Schedule a reported task, if any, at the end of the queue, at the
    /// current cycle plus the per-kind delay.
    pub(crate) fn schedule_opt(&mut self, t: Option<BusTask>)
        ensures
            final(self)@.core == old(self)@.core,
            final(self)@.tasks == sched(old(self)@.tasks, old(self)@.core.cycle, t),
    {
        match t {
            Some(k) => {
                let c = task_delay(&k);
                self.tasks.push(Task { kind: k, target_cycle: self.cycle + c });
            },
            None => {},
        }
    }
}

} // verus!
