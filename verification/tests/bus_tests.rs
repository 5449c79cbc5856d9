use socbus::bus::Bus;
use socbus::prim::{BusError, BusPacket, BusWidth, IoDevice};
use socbus::task::{BusTask, Task};

fn all_devices() -> Vec<IoDevice> {
    vec![
        IoDevice::Nand,
        IoDevice::Aes,
        IoDevice::Sha,
        IoDevice::Ehci,
        IoDevice::Ohci0,
        IoDevice::Ohci1,
        IoDevice::Sdhc0,
        IoDevice::Sdhc1,
        IoDevice::Hlwd,
        IoDevice::Ahb,
        IoDevice::Di,
        IoDevice::Exi,
        IoDevice::Mi,
        IoDevice::Ddr,
    ]
}

fn device_width(dev: IoDevice) -> BusWidth {
    match dev {
        IoDevice::Mi | IoDevice::Ddr => BusWidth::H,
        _ => BusWidth::W,
    }
}

fn reads_of<'a>(b: &'a Bus, dev: IoDevice) -> &'a Vec<usize> {
    match dev {
        IoDevice::Nand => &b.nand.reads,
        IoDevice::Aes => &b.aes.reads,
        IoDevice::Sha => &b.sha.reads,
        IoDevice::Ehci => &b.ehci.reads,
        IoDevice::Ohci0 => &b.ohci0.reads,
        IoDevice::Ohci1 => &b.ohci1.reads,
        IoDevice::Sdhc0 => &b.sd0.reads,
        IoDevice::Sdhc1 => &b.sd1.reads,
        IoDevice::Hlwd => &b.hlwd.mmio.reads,
        IoDevice::Ahb => &b.hlwd.ahb.reads,
        IoDevice::Di => &b.hlwd.di.reads,
        IoDevice::Exi => &b.hlwd.exi.reads,
        IoDevice::Mi => &b.hlwd.mi.reads,
        IoDevice::Ddr => &b.hlwd.ddr.reads,
    }
}

fn writes_of<'a>(b: &'a Bus, dev: IoDevice) -> &'a Vec<(usize, BusPacket)> {
    match dev {
        IoDevice::Nand => &b.nand.writes,
        IoDevice::Aes => &b.aes.writes,
        IoDevice::Sha => &b.sha.writes,
        IoDevice::Ehci => &b.ehci.writes,
        IoDevice::Ohci0 => &b.ohci0.writes,
        IoDevice::Ohci1 => &b.ohci1.writes,
        IoDevice::Sdhc0 => &b.sd0.writes,
        IoDevice::Sdhc1 => &b.sd1.writes,
        IoDevice::Hlwd => &b.hlwd.mmio.writes,
        IoDevice::Ahb => &b.hlwd.ahb.writes,
        IoDevice::Di => &b.hlwd.di.writes,
        IoDevice::Exi => &b.hlwd.exi.writes,
        IoDevice::Mi => &b.hlwd.mi.writes,
        IoDevice::Ddr => &b.hlwd.ddr.writes,
    }
}

fn packet_for(width: BusWidth, val: u32) -> BusPacket {
    match width {
        BusWidth::B => BusPacket::Byte(val as u8),
        BusWidth::H => BusPacket::Half(val as u16),
        BusWidth::W => BusPacket::Word(val),
    }
}

#[test]
fn read_dispatch_reaches_each_device_once() {
    for dev in all_devices() {
        let mut b = Bus::new();
        let w = device_width(dev);
        let r = b.do_mmio_read(dev, 0x24, w);
        // The addressed device saw exactly one read, at the right offset.
        assert_eq!(reads_of(&b, dev).len(), 1);
        assert_eq!(reads_of(&b, dev)[0], 0x24);
        // The reply carries the tag of the requested width (fresh value 0).
        assert_eq!(r, packet_for(w, 0));
        // No other device was touched, nothing was scheduled.
        for other in all_devices() {
            if other != dev {
                assert_eq!(reads_of(&b, other).len(), 0);
            }
            assert_eq!(writes_of(&b, other).len(), 0);
        }
        assert_eq!(b.tasks.len(), 0);
        assert_eq!(b.cycle, 0);
    }
}

#[test]
fn write_dispatch_reaches_each_device_once() {
    for dev in all_devices() {
        let mut b = Bus::new();
        let w = device_width(dev);
        let msg = packet_for(w, 0x1234_5678);
        b.do_mmio_write(dev, 0x10, msg);
        assert_eq!(writes_of(&b, dev).len(), 1);
        assert_eq!(writes_of(&b, dev)[0], (0x10, msg));
        for other in all_devices() {
            if other != dev {
                assert_eq!(writes_of(&b, other).len(), 0);
            }
            assert_eq!(reads_of(&b, other).len(), 0);
        }
        // The device reported no task, so nothing was scheduled.
        assert_eq!(b.tasks.len(), 0);
    }
}

#[test]
fn undefined_read_shapes_are_fatal_and_mutate_nothing() {
    for dev in all_devices() {
        for w in [BusWidth::B, BusWidth::H, BusWidth::W] {
            if w == device_width(dev) {
                continue;
            }
            let mut b = Bus::new();
            let r = b.try_mmio_read(dev, 0x8, w);
            assert_eq!(r, Err(BusError { width: w, dev, off: 0x8 }));
            for d in all_devices() {
                assert_eq!(reads_of(&b, d).len(), 0);
                assert_eq!(writes_of(&b, d).len(), 0);
            }
            assert_eq!(b.tasks.len(), 0);
        }
    }
}

#[test]
fn undefined_write_shapes_are_fatal_and_mutate_nothing() {
    for dev in all_devices() {
        for w in [BusWidth::B, BusWidth::H, BusWidth::W] {
            if w == device_width(dev) {
                continue;
            }
            let mut b = Bus::new();
            let msg = packet_for(w, 7);
            let r = b.try_mmio_write(dev, 0x40, msg);
            assert_eq!(r, Err(BusError { width: w, dev, off: 0x40 }));
            for d in all_devices() {
                assert_eq!(writes_of(&b, d).len(), 0);
            }
            assert_eq!(b.tasks.len(), 0);
        }
    }
}

#[test]
fn checked_dispatch_matches_unchecked_on_defined_shapes() {
    let mut b = Bus::new();
    let r = b.try_mmio_read(IoDevice::Mi, 0x2, BusWidth::H);
    assert_eq!(r, Ok(BusPacket::Half(0)));
    assert_eq!(b.hlwd.mi.reads, vec![0x2]);
    assert!(b.try_mmio_write(IoDevice::Ddr, 0x6, BusPacket::Half(9)).is_ok());
    assert_eq!(b.hlwd.ddr.writes, vec![(0x6, BusPacket::Half(9))]);
}

#[test]
fn delay_zero_task_runs_once_and_empties_queue() {
    let mut b = Bus::new();
    b.tasks.push(Task { kind: BusTask::Nand(7), target_cycle: b.cycle });
    b.step(0);
    assert_eq!(b.nand.completed, vec![BusTask::Nand(7)]);
    assert_eq!(b.tasks.len(), 0);
    assert_eq!(b.cycle, 1);
}

#[test]
fn cascading_task_runs_in_same_step_in_order() {
    let mut b = Bus::new();
    // The NAND completion handler will report a second delay-zero task
    // on the same device, so the order of execution is visible in its log.
    b.nand.completion_task = Some(BusTask::Nand(9));
    b.tasks.push(Task { kind: BusTask::Nand(1), target_cycle: b.cycle });
    b.step(0);
    assert_eq!(b.nand.completed, vec![BusTask::Nand(1), BusTask::Nand(9)]);
    assert_eq!(b.tasks.len(), 0);
    assert_eq!(b.cycle, 1);
}

#[test]
fn cascade_across_devices_runs_both_before_step_returns() {
    let mut b = Bus::new();
    b.sha.completion_task = Some(BusTask::Aes(5));
    b.tasks.push(Task { kind: BusTask::Sha(4), target_cycle: b.cycle });
    b.step(0);
    assert_eq!(b.sha.completed, vec![BusTask::Sha(4)]);
    assert_eq!(b.aes.completed, vec![BusTask::Aes(5)]);
    assert_eq!(b.tasks.len(), 0);
}

#[test]
fn ineligible_task_is_left_in_place() {
    let mut b = Bus::new();
    let later = Task { kind: BusTask::Aes(2), target_cycle: 5 };
    b.tasks.push(Task { kind: BusTask::Nand(1), target_cycle: b.cycle });
    b.tasks.push(later);
    b.step(0);
    // The earlier task ran; the later one is untouched, still first in
    // line, and its device saw nothing.
    assert_eq!(b.nand.completed, vec![BusTask::Nand(1)]);
    assert_eq!(b.tasks, vec![later]);
    assert_eq!(b.aes.completed.len(), 0);
}

#[test]
fn ineligible_tasks_keep_their_relative_order() {
    let mut b = Bus::new();
    let t1 = Task { kind: BusTask::Aes(1), target_cycle: 7 };
    let t2 = Task { kind: BusTask::Sha(2), target_cycle: 3 };
    let t3 = Task { kind: BusTask::Nand(3), target_cycle: 0 };
    b.tasks.push(t1);
    b.tasks.push(t2);
    b.tasks.push(t3);
    b.step(0);
    // Only the delay-zero task fired; the two later ones keep their order
    // even though the later-targeted one stands first.
    assert_eq!(b.tasks, vec![t1, t2]);
    assert_eq!(b.nand.completed, vec![BusTask::Nand(3)]);
}

#[test]
fn cycle_advances_by_exactly_one_per_step() {
    let mut b = Bus::new();
    b.step(0);
    assert_eq!(b.cycle, 1);
    // A step that drains several tasks still advances by one.
    b.tasks.push(Task { kind: BusTask::Nand(1), target_cycle: b.cycle });
    b.tasks.push(Task { kind: BusTask::Aes(2), target_cycle: b.cycle });
    b.tasks.push(Task { kind: BusTask::SetRomDisabled(true), target_cycle: b.cycle });
    b.step(1);
    assert_eq!(b.cycle, 2);
    assert_eq!(b.tasks.len(), 0);
}

#[test]
fn flag_tasks_assign_their_flag_and_nothing_else() {
    let mut b = Bus::new();
    b.tasks.push(Task { kind: BusTask::SetRomDisabled(true), target_cycle: b.cycle });
    b.step(0);
    assert!(b.rom_disabled);
    assert!(!b.mirror_enabled);
    for d in all_devices() {
        assert_eq!(reads_of(&b, d).len(), 0);
        assert_eq!(writes_of(&b, d).len(), 0);
    }
    assert_eq!(b.nand.completed.len(), 0);
    assert_eq!(b.tasks.len(), 0);

    b.tasks.push(Task { kind: BusTask::SetMirrorEnabled(true), target_cycle: b.cycle });
    b.step(1);
    assert!(b.mirror_enabled);
    assert!(b.rom_disabled);

    b.tasks.push(Task { kind: BusTask::SetRomDisabled(false), target_cycle: b.cycle });
    b.step(2);
    assert!(!b.rom_disabled);
    assert!(b.mirror_enabled);
}

#[test]
fn mi_event_reaches_memory_interface_handler() {
    let mut b = Bus::new();
    b.tasks.push(Task { kind: BusTask::Mi { kind: 3, data: 0xAB }, target_cycle: b.cycle });
    b.step(0);
    assert_eq!(b.hlwd.mi.completed, vec![BusTask::Mi { kind: 3, data: 0xAB }]);
    assert_eq!(b.tasks.len(), 0);
}

#[test]
fn nand_write_completion_scenario() {
    let mut b = Bus::new();
    // The NAND model reports a completion task for this write.
    b.nand.write_task = Some(BusTask::Nand(0xDEAD_BEEF));
    b.do_mmio_write(IoDevice::Nand, 0x00, BusPacket::Word(0xDEAD_BEEF));
    assert_eq!(b.nand.writes, vec![(0x00, BusPacket::Word(0xDEAD_BEEF))]);
    assert_eq!(b.tasks.len(), 1);
    assert_eq!(b.tasks[0].target_cycle, b.cycle);
    assert_eq!(b.tasks[0].kind, BusTask::Nand(0xDEAD_BEEF));
    b.step(0);
    assert_eq!(b.nand.completed, vec![BusTask::Nand(0xDEAD_BEEF)]);
    assert_eq!(b.tasks.len(), 0);
}

#[test]
fn bridge_tick_runs_before_drain_in_same_step() {
    let mut b = Bus::new();
    // A task the time-driven update enqueues with delay zero is executed
    // within this same step's drain.
    b.hlwd.tick_task = Some(BusTask::Sha(6));
    b.step(42);
    assert_eq!(b.hlwd.ticks, vec![42]);
    assert_eq!(b.sha.completed, vec![BusTask::Sha(6)]);
    assert_eq!(b.tasks.len(), 0);
    assert_eq!(b.cycle, 1);
}

#[test]
fn tasks_wait_until_their_target_cycle() {
    let mut b = Bus::new();
    b.tasks.push(Task { kind: BusTask::Aes(8), target_cycle: 2 });
    b.step(0);
    assert_eq!(b.tasks.len(), 1);
    assert_eq!(b.aes.completed.len(), 0);
    b.step(1);
    assert_eq!(b.tasks.len(), 1);
    b.step(2);
    assert_eq!(b.aes.completed, vec![BusTask::Aes(8)]);
    assert_eq!(b.tasks.len(), 0);
    assert_eq!(b.cycle, 3);
}

#[test]
fn programmed_read_value_is_returned_at_device_width() {
    let mut b = Bus::new();
    b.aes.read_value = 0xCAFE_F00D;
    let r = b.do_mmio_read(IoDevice::Aes, 0x4, BusWidth::W);
    assert_eq!(r, BusPacket::Word(0xCAFE_F00D));
    b.hlwd.mi.read_value = 0x0001_2345;
    let r2 = b.do_mmio_read(IoDevice::Mi, 0x6, BusWidth::H);
    // The memory interface is half-word accessed: the reply is tagged Half.
    assert_eq!(r2, BusPacket::Half(0x2345));
}
