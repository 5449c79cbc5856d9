//! Peripheral device models. Device internals are outside the bus core's
//! scope: a model here implements exactly the capability contract the bus
//! needs (handle a read, handle a write, consume a completion), records the
//! accesses delivered to it, and replies from programmable fields.

use vstd::prelude::*;
use crate::prim::{BusPacket, BusWidth};
use crate::task::BusTask;

verus! {

/// Interface used by the bus to perform some access on an I/O device.
pub trait MmioDevice {
    /// Handle a read, returning some result.
    fn read(&mut self, off: usize) -> BusPacket;

    /// Handle a write, optionally returning a task for the bus.
    fn write(&mut self, off: usize, val: BusPacket) -> Option<BusTask>;
}

/// Mathematical view of a [`Device`].
pub struct DeviceModel {
    /// Width of the packets this model returns for reads.
    pub width: BusWidth,
    /// Value (truncated to `width`) returned for any read.
    pub read_value: u32,
    /// Offsets of the reads handled, in order.
    pub reads: Seq<usize>,
    /// Writes handled, in order, each with its tagged value.
    pub writes: Seq<(usize, BusPacket)>,
    /// Deferred tasks consumed by this device's completion handler, in order.
    pub completed: Seq<BusTask>,
    /// Task the model reports on its next write, if any.
    pub write_task: Option<BusTask>,
    /// Task the model reports when its next completion is handled, if any.
    pub completion_task: Option<BusTask>,
}

/// The packet a device in state `m` returns for a read.
pub open spec fn read_reply(m: DeviceModel) -> BusPacket {
    match m.width {
        BusWidth::B => BusPacket::Byte(m.read_value as u8),
        BusWidth::H => BusPacket::Half(m.read_value as u16),
        BusWidth::W => BusPacket::Word(m.read_value),
    }
}

/// A device in its reset state, decoding accesses of width `w`.
pub open spec fn fresh_device(w: BusWidth) -> DeviceModel {
    DeviceModel {
        width: w,
        read_value: 0,
        reads: Seq::empty(),
        writes: Seq::empty(),
        completed: Seq::empty(),
        write_task: None,
        completion_task: None,
    }
}

/// One peripheral model owned by the bus.
pub struct Device {
    pub width: BusWidth,
    pub read_value: u32,
    pub reads: Vec<usize>,
    pub writes: Vec<(usize, BusPacket)>,
    pub completed: Vec<BusTask>,
    pub write_task: Option<BusTask>,
    pub completion_task: Option<BusTask>,
}

impl View for Device {
    type V = DeviceModel;

    open spec fn view(&self) -> DeviceModel {
        DeviceModel {
            width: self.width,
            read_value: self.read_value,
            reads: self.reads@,
            writes: self.writes@,
            completed: self.completed@,
            write_task: self.write_task,
            completion_task: self.completion_task,
        }
    }
}

impl Device {
    /// A device in its reset state, decoding accesses of width `w`.
    pub fn new(w: BusWidth) -> (d: Device)
        ensures
            d@ == fresh_device(w),
    {
        let d = Device {
            width: w,
            read_value: 0,
            reads: Vec::new(),
            writes: Vec::new(),
            completed: Vec::new(),
            write_task: None,
            completion_task: None,
        };
        proof {
            assert(d@ =~= fresh_device(w));
        }
        d
    }

    /// Handle a read at `off`: the offset is recorded and the programmed
    /// value is returned at this device's width.
    pub fn read(&mut self, off: usize) -> (r: BusPacket)
        ensures
            final(self)@ == (DeviceModel { reads: old(self)@.reads.push(off), ..old(self)@ }),
            r == read_reply(old(self)@),
    {
        self.reads.push(off);
        match self.width {
            BusWidth::B => BusPacket::Byte(self.read_value as u8),
            BusWidth::H => BusPacket::Half(self.read_value as u16),
            BusWidth::W => BusPacket::Word(self.read_value),
        }
    }

    /// Handle a write of `val` at `off`: the access is recorded and the
    /// task programmed for the next write, if any, is reported once.
    pub fn write(&mut self, off: usize, val: BusPacket) -> (t: Option<BusTask>)
        ensures
            final(self)@ == (DeviceModel {
                writes: old(self)@.writes.push((off, val)),
                write_task: None,
                ..old(self)@
            }),
            t == old(self)@.write_task,
    {
        self.writes.push((off, val));
        self.write_task.take()
    }

    /// Consume a completion payload: the task is recorded as handled and the
    /// follow-up task programmed for the next completion, if any, is
    /// reported once.
    pub fn complete(&mut self, t: BusTask) -> (next: Option<BusTask>)
        ensures
            final(self)@ == (DeviceModel {
                completed: old(self)@.completed.push(t),
                completion_task: None,
                ..old(self)@
            }),
            next == old(self)@.completion_task,
    {
        self.completed.push(t);
        self.completion_task.take()
    }
}

impl MmioDevice for Device {
    fn read(&mut self, off: usize) -> BusPacket {
        Device::read(self, off)
    }

    fn write(&mut self, off: usize, val: BusPacket) -> Option<BusTask> {
        Device::write(self, off, val)
    }
}

/// Mathematical view of the [`Hollywood`] bridge aggregate.
pub struct HollywoodModel {
    /// The bridge's own register region.
    pub mmio: DeviceModel,
    /// Internal AHB gasket.
    pub ahb: DeviceModel,
    /// Optical-drive gasket.
    pub di: DeviceModel,
    /// External-interface gasket.
    pub exi: DeviceModel,
    /// Memory-interface sub-block.
    pub mi: DeviceModel,
    /// DRAM-control sub-block.
    pub ddr: DeviceModel,
    /// Clock hints passed to the per-step update, in order.
    pub ticks: Seq<usize>,
    /// Task the per-step update reports on its next run, if any.
    pub tick_task: Option<BusTask>,
}

/// The bridge aggregate in its reset state.
pub open spec fn fresh_hollywood() -> HollywoodModel {
    HollywoodModel {
        mmio: fresh_device(BusWidth::W),
        ahb: fresh_device(BusWidth::W),
        di: fresh_device(BusWidth::W),
        exi: fresh_device(BusWidth::W),
        mi: fresh_device(BusWidth::H),
        ddr: fresh_device(BusWidth::H),
        ticks: Seq::empty(),
        tick_task: None,
    }
}

/// The bridge-chip aggregate: its own register region plus the sub-devices
/// it fronts, and the per-step time-driven update state.
pub struct Hollywood {
    pub mmio: Device,
    pub ahb: Device,
    pub di: Device,
    pub exi: Device,
    pub mi: Device,
    pub ddr: Device,
    pub ticks: Vec<usize>,
    pub tick_task: Option<BusTask>,
}

impl View for Hollywood {
    type V = HollywoodModel;

    open spec fn view(&self) -> HollywoodModel {
        HollywoodModel {
            mmio: self.mmio@,
            ahb: self.ahb@,
            di: self.di@,
            exi: self.exi@,
            mi: self.mi@,
            ddr: self.ddr@,
            ticks: self.ticks@,
            tick_task: self.tick_task,
        }
    }
}

impl Hollywood {
    /// The bridge aggregate in its reset state.
    pub fn new() -> (h: Hollywood)
        ensures
            h@ == fresh_hollywood(),
    {
        let h = Hollywood {
            mmio: Device::new(BusWidth::W),
            ahb: Device::new(BusWidth::W),
            di: Device::new(BusWidth::W),
            exi: Device::new(BusWidth::W),
            mi: Device::new(BusWidth::H),
            ddr: Device::new(BusWidth::H),
            ticks: Vec::new(),
            tick_task: None,
        };
        proof {
            assert(h@ =~= fresh_hollywood());
        }
        h
    }

    /// Handle a read on the bridge's own register region.
    pub fn read(&mut self, off: usize) -> (r: BusPacket)
        ensures
            final(self)@ == (HollywoodModel {
                mmio: DeviceModel { reads: old(self)@.mmio.reads.push(off), ..old(self)@.mmio },
                ..old(self)@
            }),
            r == read_reply(old(self)@.mmio),
    {
        self.mmio.read(off)
    }

    /// Handle a write on the bridge's own register region.
    pub fn write(&mut self, off: usize, val: BusPacket) -> (t: Option<BusTask>)
        ensures
            final(self)@ == (HollywoodModel {
                mmio: DeviceModel {
                    writes: old(self)@.mmio.writes.push((off, val)),
                    write_task: None,
                    ..old(self)@.mmio
                },
                ..old(self)@
            }),
            t == old(self)@.mmio.write_task,
    {
        self.mmio.write(off, val)
    }

    /// Run the bridge's time-driven update once: the clock hint is recorded
    /// and the task programmed for the next update, if any, is reported once.
    pub fn tick(&mut self, cpu_cycle: usize) -> (t: Option<BusTask>)
        ensures
            final(self)@ == (HollywoodModel {
                ticks: old(self)@.ticks.push(cpu_cycle),
                tick_task: None,
                ..old(self)@
            }),
            t == old(self)@.tick_task,
    {
        self.ticks.push(cpu_cycle);
        self.tick_task.take()
    }
}

} // verus!
