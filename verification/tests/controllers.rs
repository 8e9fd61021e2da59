use libpsx_rs::cp0::{status_pop_exception, status_push_exception, Cause, IrqLine};
use libpsx_rs::dmac;
use libpsx_rs::executor::{TaskStatus, ThreadStatus};
use libpsx_rs::fifo::Fifo;
use libpsx_rs::intc;
use libpsx_rs::memory::B8Memory;
use libpsx_rs::r3000::{fetch_instruction, finish_instruction, handle_interrupts, BranchDelaySlot, Cp0State, Hazard};
use libpsx_rs::r3000;
use libpsx_rs::timers;
use libpsx_rs::memory::{resolve_address, MappedDevice};
use libpsx_rs::gpu::{crtc_tick, CrtcState};

#[test]
fn intc_value_composes_lines() {
    let mut stat = intc::Stat::new();
    assert_eq!(stat.value(), 0);
    stat.assert_line(intc::Line::Vblank);
    stat.assert_line(intc::Line::Cdrom);
    stat.assert_line(intc::Line::Pio);
    assert_eq!(stat.value(), 0x1 | 0x4 | 0x400);
    // A zero bit in the acknowledge mask clears; a one bit preserves.
    stat.write_u32(0x4);
    assert_eq!(stat.value(), 0x4);
    assert_eq!(stat.read_u16(0), 0x4);
}

#[test]
fn intc_masked_status_drives_cp0_pin() {
    let mut state = intc::State::new();
    let mut cause = Cause::new();

    state.stat.assert_line(intc::Line::Tmr0);
    // Masked off: the pin is deasserted.
    state.mask.write_u32(0);
    intc::handle_interrupt_check(&state, &mut cause);
    assert!(!cause.intc_pending);
    // Unmasked: the pin rises.
    state.mask.write_u32(0x10);
    intc::handle_interrupt_check(&state, &mut cause);
    assert!(cause.intc_pending);
    cause.update_ip_field();
    assert_eq!(cause.register.read_u32() & (1 << 10), 1 << 10);
    cause.clear_ip_field();
    assert!(!cause.intc_pending);
    assert_eq!(cause.register.read_u32() & 0xFF00, 0);
}

#[test]
fn cause_line_assert_deassert() {
    let mut cause = Cause::new();
    cause.assert_line(IrqLine::Intc);
    assert!(cause.intc_pending);
    cause.deassert_line(IrqLine::Intc);
    assert!(!cause.intc_pending);
}

#[test]
fn status_stack_push_pop() {
    // current pair 0b11 (interrupts on, user mode), previous 0b10, old 0b01.
    let status = 0x0040_0000 | 0b01_10_11;
    let pushed = status_push_exception(status);
    // Current pair cleared, pairs shifted up, high bits untouched.
    assert_eq!(pushed & 0x3, 0);
    assert_eq!((pushed >> 2) & 0x3, 0b11);
    assert_eq!((pushed >> 4) & 0x3, 0b10);
    assert_eq!(pushed & !0x3F, 0x0040_0000);
    let popped = status_pop_exception(pushed);
    assert_eq!(popped & 0xF, status & 0xF);
}

#[test]
fn timer_overflow_raises_line_and_wraps() {
    let mut state = timers::State::new();
    let mut cs = timers::ControllerState::new();
    let mut stat = intc::Stat::new();

    // Interrupt on overflow, repeat, pulse mode.
    state.timers[0].mode.write_u32(0x0048);
    timers::tick(&mut state, &mut cs, &mut stat, 0, 0x1_0000);

    assert_eq!(stat.value() & 0x10, 0x10, "timer 0 line must be asserted");
    assert_eq!(state.timers[0].count.read_u32(), 0, "the counter wraps to zero");
    // Overflow-reached bit latched in the mode word.
    assert_eq!(state.timers[0].mode.read_u32() & (1 << 12), 1 << 12);
}

#[test]
fn timer_target_event_and_toggle_mode() {
    let mut state = timers::State::new();
    let mut cs = timers::ControllerState::new();
    let mut stat = intc::Stat::new();

    // Interrupt on target, toggle mode.
    state.timers[1].mode.write_u32(0x10 | 0x80);
    state.timers[1].target.write_u32(0x100);
    timers::tick(&mut state, &mut cs, &mut stat, 1, 0x100);
    // First toggle flips the status bit high: no line yet.
    assert_eq!(stat.value() & 0x20, 0);
    assert_eq!(state.timers[1].mode.read_u32() & (1 << 10), 1 << 10);
}

#[test]
fn dma_chcr_decode_and_start() {
    let mut chcr = libpsx_rs::edge::B32EdgeRegister::new();
    let mut ts = dmac::TransferState::new();
    // Direction to-channel, forwards, linked-list mode, started.
    chcr.write_u32(0x0100_0401).unwrap();
    dmac::handle_chcr(&mut chcr, &mut ts, 2, 0x8010_0000, 0);
    assert!(ts.started);
    assert!(matches!(ts.direction, dmac::TransferDirection::ToChannel));
    assert!(matches!(ts.step_direction, dmac::StepDirection::Forwards));
    match ts.sync_mode {
        dmac::SyncMode::LinkedList(ll) => {
            assert_eq!(ll.current_header_address, 0x8010_0000);
        },
        _ => panic!("expected a linked-list mode"),
    }
}

#[test]
fn dma_dicr_round_trips_enables_and_acknowledges() {
    let mut dicr = libpsx_rs::edge::B32EdgeRegister::new();
    let mut cs = dmac::ControllerState::new();
    // Master enable plus channel 6 enable.
    dicr.write_u32(0x0080_0000 | 0x0040_0000).unwrap();
    dmac::handle_dicr(&mut dicr, &mut cs);
    assert!(cs.master_interrupt_enabled);
    assert!(cs.transfer_states[6].interrupt_enabled);
    assert!(!cs.transfer_states[0].interrupt_enabled);
    assert_eq!(dicr.read_direct(), 0x0080_0000 | 0x0040_0000);
    // A completion flag shows up in the recomputed word.
    let mut t6 = cs.transfer_states[6];
    t6.interrupted = true;
    cs.transfer_states[6] = t6;
    assert_eq!(dmac::calculate_dicr_value(&cs), 0x0080_0000 | 0x0040_0000 | 0x4000_0000);
}

#[test]
fn dma_irq_check_rising_edge_asserts_line() {
    let mut dicr = libpsx_rs::edge::B32EdgeRegister::new();
    let mut stat = intc::Stat::new();
    // Enable + flag for channel 0, master enable, master flag clear.
    dicr.update(0x0080_0000 | 0x0001_0000 | 0x0100_0000);
    dmac::handle_irq_check(&mut dicr, &mut stat);
    assert_eq!(dicr.read_direct() & 0x8000_0000, 0x8000_0000);
    assert_eq!(stat.value() & 0x8, 0x8);
    // Already set: no further change.
    let mut stat2 = intc::Stat::new();
    dmac::handle_irq_check(&mut dicr, &mut stat2);
    assert_eq!(stat2.value(), 0);
}

#[test]
fn dma_otc_clear_writes_descending_table() {
    let mut state = dmac::State::new();
    let mut cs = dmac::ControllerState::new();
    let mut ram = B8Memory::new(0x20_0000);
    let mut gpu_fifo: Fifo<u32> = Fifo::new(64, 0);
    let mut cdrom_fifo: Fifo<u8> = Fifo::new(64, 0);
    let mut spu_fifo: Fifo<u16> = Fifo::new(64, 0);
    let mut stat = intc::Stat::new();
    let mut bus_locked = false;

    // Enable the ordering-table channel, program base and count, start.
    state.dpcr.write_u32(0x0800_0000);
    state.channels[6].madr.write_u32(0x0010_0000);
    state.channels[6].bcr.write_u32(32);
    state.channels[6].chcr.write_u32(0x0100_0000).unwrap();

    dmac::run_time(
        &mut state,
        &mut cs,
        &mut ram,
        &mut gpu_fifo,
        &mut cdrom_fifo,
        &mut spu_fifo,
        &mut stat,
        &mut bus_locked,
        4096,
    );

    // The final entry holds the terminator.
    assert_eq!(ram.read_u32(0x0010_007C), 0x00FF_FFFF);
    // Every other entry links one word up.
    assert_eq!(ram.read_u32(0x0010_0078), 0x0010_007C);
    assert_eq!(ram.read_u32(0x0010_0074), 0x0010_0078);
    assert_eq!(ram.read_u32(0x0010_0000), 0x0010_0004);
    // The channel stopped by itself.
    assert!(!cs.transfer_states[6].started);
    assert!(cs.transfer_states[6].interrupted);
}

#[test]
fn dma_linked_list_transfers_all_words_and_halts() {
    let mut ram = B8Memory::new(0x1000);
    // Two headers: two words at 0x100, then one word at 0x200, then stop.
    ram.write_u32(0x100, (2 << 24) | 0x200);
    ram.write_u32(0x104, 0xAAAA_0001);
    ram.write_u32(0x108, 0xAAAA_0002);
    ram.write_u32(0x200, (1 << 24) | 0x00FF_FFFF);
    ram.write_u32(0x204, 0xBBBB_0003);

    let mut fifo: Fifo<u32> = Fifo::new(16, 0);
    let mut ts = dmac::TransferState::new();
    ts.started = true;
    ts.sync_mode = dmac::SyncMode::LinkedList(dmac::LinkedListState {
        current_header_address: 0x100,
        next_header_address: 0,
        target_count: 0,
        current_count: 0,
    });

    dmac::linked_list_transfer(&ram, &mut fifo, &mut ts);
    assert!(ts.started);
    dmac::linked_list_transfer(&ram, &mut fifo, &mut ts);
    assert!(!ts.started, "the terminator halts the channel");
    assert!(ts.interrupted);

    // Exactly the sum of the header counts was transferred, in order.
    assert_eq!(fifo.read_available(), 3);
    assert_eq!(fifo.read_one().unwrap(), 0xAAAA_0001);
    assert_eq!(fifo.read_one().unwrap(), 0xAAAA_0002);
    assert_eq!(fifo.read_one().unwrap(), 0xBBBB_0003);
}

#[test]
fn dma_bus_lock_follows_channel_activity() {
    let mut cs = dmac::ControllerState::new();
    let mut locked = false;
    dmac::handle_bus_lock(&cs, &mut locked);
    assert!(!locked);
    let mut t0 = cs.transfer_states[0];
    t0.started = true;
    cs.transfer_states[0] = t0;
    dmac::handle_bus_lock(&cs, &mut locked);
    assert!(locked);
    dmac::handle_bus_unlock(&cs, &mut locked);
    assert!(locked, "a running channel keeps the lock");
    let mut t0 = cs.transfer_states[0];
    t0.started = false;
    cs.transfer_states[0] = t0;
    dmac::handle_bus_unlock(&cs, &mut locked);
    assert!(!locked);
}

#[test]
fn cpu_hazard_rolls_back_pc_and_branch_delay() {
    let mut r3000 = r3000::State::new();
    r3000.pc.write_u32(0x8000_0100);
    let pre_pc = r3000.pc.read_u32();
    let pre_branch = r3000.branch_delay;

    // The step advances the program counter, then the handler reports a
    // bus-locked read hazard.
    r3000.pc.write_u32(0x8000_0104);
    r3000.branch_delay.set(0x8000_0200);
    let result = Err(Hazard::BusLockedMemoryRead(0x1F80_1070));
    finish_instruction(&mut r3000, pre_pc, pre_branch, &result);

    assert_eq!(r3000.pc.read_u32(), pre_pc);
    assert_eq!(r3000.branch_delay, pre_branch);
}

#[test]
fn cpu_interrupt_enters_exception_vector() {
    let mut r3000 = r3000::State::new();
    let mut cp0 = Cp0State::new();
    r3000.pc.write_u32(0x8001_0000);
    // Interrupts enabled, line 2 unmasked and pending.
    cp0.status.write_u32(0x0000_0401);
    cp0.cause.register.write_u32(0x0000_0400);
    handle_interrupts(&mut r3000, &mut cp0);
    assert_eq!(r3000.pc.read_u32(), 0x8000_0080);
    assert_eq!(cp0.epc.read_u32(), 0x8001_0000);
    // The status stack pushed: interrupts now off.
    assert_eq!(cp0.status.read_u32() & 1, 0);
}

#[test]
fn cpu_interrupt_masked_off_does_nothing() {
    let mut r3000 = r3000::State::new();
    let mut cp0 = Cp0State::new();
    r3000.pc.write_u32(0x8001_0000);
    cp0.status.write_u32(0x0000_0000);
    cp0.cause.register.write_u32(0x0000_0400);
    handle_interrupts(&mut r3000, &mut cp0);
    assert_eq!(r3000.pc.read_u32(), 0x8001_0000);
}

#[test]
fn branch_delay_slot_fires_after_one_advance() {
    let mut slot = BranchDelaySlot::new();
    slot.set(0x8000_0200);
    assert!(slot.branching());
    assert_eq!(slot.advance(), None);
    assert_eq!(slot.advance(), Some(0x8000_0200));
    assert!(!slot.branching());
    assert_eq!(slot.advance(), None);
}

#[test]
fn round_claims_each_controller_exactly_once() {
    let mut status = ThreadStatus::new();
    status.begin_round();
    // Two simulated workers race over the rotation; each task is claimed
    // once no matter who gets it.
    let mut claims = [0usize; 9];
    for worker in 0..2 {
        for offset in 0..9 {
            let i = (worker * 4 + offset) % 9;
            if status.try_claim(i) {
                claims[i] += 1;
                status.finish_task(i, None);
            }
        }
    }
    assert!(status.all_finished());
    for (i, &c) in claims.iter().enumerate() {
        assert_eq!(c, 1, "controller {} must run exactly once", i);
    }
}

#[test]
fn round_double_claim_is_rejected() {
    let mut status = ThreadStatus::new();
    status.begin_round();
    assert!(status.try_claim(3));
    assert!(!status.try_claim(3), "a claimed task cannot be claimed again");
    status.finish_task(3, Some(String::from("intc: late")));
    assert!(!status.try_claim(3), "a finished task cannot be claimed again");
    assert_eq!(status.errors.len(), 1);
    assert!(!status.all_finished());
    assert!(matches!(status.task_status[3], TaskStatus::Finished));
}

#[test]
fn timer_repeat_mode_fires_on_every_overflow() {
    let mut state = timers::State::new();
    let mut cs = timers::ControllerState::new();
    let mut stat = intc::Stat::new();

    // Repeat bit set: both overflows assert the line.
    state.timers[0].mode.write_u32(0x0048);
    timers::tick(&mut state, &mut cs, &mut stat, 0, 0x1_0000);
    assert_eq!(stat.value() & 0x10, 0x10);
    stat.write_u32(0);
    timers::tick(&mut state, &mut cs, &mut stat, 0, 0x1_0000);
    assert_eq!(stat.value() & 0x10, 0x10, "repeat mode fires again");
}

#[test]
fn timer_one_shot_fires_only_once() {
    let mut state = timers::State::new();
    let mut cs = timers::ControllerState::new();
    let mut stat = intc::Stat::new();

    // Repeat bit clear: the second overflow is suppressed.
    state.timers[0].mode.write_u32(0x0008);
    timers::tick(&mut state, &mut cs, &mut stat, 0, 0x1_0000);
    assert_eq!(stat.value() & 0x10, 0x10);
    stat.write_u32(0);
    timers::tick(&mut state, &mut cs, &mut stat, 0, 0x1_0000);
    assert_eq!(stat.value() & 0x10, 0, "one-shot mode stays quiet until the mode is rewritten");
}

#[test]
fn dma_bus_lock_covers_the_ordering_table_channel() {
    let mut cs = dmac::ControllerState::new();
    let mut locked = false;
    let mut t6 = cs.transfer_states[6];
    t6.started = true;
    cs.transfer_states[6] = t6;
    dmac::handle_bus_lock(&cs, &mut locked);
    assert!(locked, "an ordering-table clear holds the bus too");
    dmac::handle_bus_unlock(&cs, &mut locked);
    assert!(locked);
    let mut t6 = cs.transfer_states[6];
    t6.started = false;
    cs.transfer_states[6] = t6;
    dmac::handle_bus_unlock(&cs, &mut locked);
    assert!(!locked);
}

#[test]
fn fetch_reads_through_segment_aliases() {
    let mut ram = B8Memory::new(0x20_0000);
    let mut bios = B8Memory::new(0x8_0000);
    ram.write_u32(0x1234, 0x2400_8000);
    bios.write_u32(0x10, 0x3C01_1F80);

    let mut cpu = r3000::State::new();
    cpu.pc.write_u32(0x8000_1234);
    assert_eq!(fetch_instruction(&mut cpu, &ram, &bios), Some(0x2400_8000));
    assert_eq!(cpu.pc.read_u32(), 0x8000_1238, "the counter advances past the word");

    cpu.pc.write_u32(0xBFC0_0010);
    assert_eq!(fetch_instruction(&mut cpu, &ram, &bios), Some(0x3C01_1F80));

    // A fired branch delay lands first.
    cpu.branch_delay.set(0xA000_1234);
    assert_eq!(cpu.branch_delay.advance(), None);
    assert_eq!(fetch_instruction(&mut cpu, &ram, &bios), Some(0x2400_8000));
    assert_eq!(cpu.pc.read_u32(), 0xA000_1238);

    // Outside both windows: nothing fetched, the counter stays.
    cpu.pc.write_u32(0x1F80_1070);
    assert_eq!(fetch_instruction(&mut cpu, &ram, &bios), None);
    assert_eq!(cpu.pc.read_u32(), 0x1F80_1070);
}

#[test]
fn address_map_routes_devices() {
    assert_eq!(resolve_address(0x0000_1234), Some(MappedDevice::MainRam));
    assert_eq!(resolve_address(0x001F_FFFF), Some(MappedDevice::MainRam));
    assert_eq!(resolve_address(0x1F00_0000), Some(MappedDevice::Expansion1));
    assert_eq!(resolve_address(0x1F80_0200), Some(MappedDevice::Scratchpad));
    assert_eq!(resolve_address(0x1F80_1044), Some(MappedDevice::Padmc));
    assert_eq!(resolve_address(0x1F80_1070), Some(MappedDevice::Intc));
    assert_eq!(resolve_address(0x1F80_10F0), Some(MappedDevice::Dmac));
    assert_eq!(resolve_address(0x1F80_1100), Some(MappedDevice::Timers));
    assert_eq!(resolve_address(0x1F80_1800), Some(MappedDevice::Cdrom));
    assert_eq!(resolve_address(0x1F80_1810), Some(MappedDevice::Gpu));
    assert_eq!(resolve_address(0x1F80_1C00), Some(MappedDevice::Spu));
    assert_eq!(resolve_address(0x1FC0_0000), Some(MappedDevice::Bios));
    assert_eq!(resolve_address(0xFFFE_0130), Some(MappedDevice::CacheControl));
    assert_eq!(resolve_address(0x0020_0000), None, "past the end of main memory");
    assert_eq!(resolve_address(0x1F80_1900), None);
}

#[test]
fn crtc_raises_retrace_once_per_frame() {
    let mut crtc = CrtcState::new();
    let mut stat = intc::Stat::new();

    crtc_tick(&mut crtc, &mut stat, 100_000);
    assert_eq!(stat.value() & 0x1, 0, "a partial frame raises nothing");
    assert_eq!(crtc.frame_clock, 100_000);

    crtc_tick(&mut crtc, &mut stat, 564_480);
    assert_eq!(stat.value() & 0x1, 0x1, "crossing the frame boundary raises the retrace");
    assert_eq!(crtc.frame_clock, 100_000, "the remainder carries over");
}

#[test]
fn dma_channel3_moves_sector_bytes_to_ram() {
    let mut state = dmac::State::new();
    let mut cs = dmac::ControllerState::new();
    let mut ram = B8Memory::new(0x20_0000);
    let mut gpu_fifo: Fifo<u32> = Fifo::new(64, 0);
    let mut cdrom_fifo: Fifo<u8> = Fifo::new(64, 0);
    let mut spu_fifo: Fifo<u16> = Fifo::new(64, 0);
    let mut stat = intc::Stat::new();
    let mut bus_locked = false;

    // Two words of sector data waiting in the drive's data FIFO.
    for b in [0x11u8, 0x22, 0x33, 0x44, 0x55, 0x66, 0x77, 0x88] {
        cdrom_fifo.write_one(b).unwrap();
    }

    // Enable the drive's channel, program a two-word transfer from the
    // peripheral into memory, start.
    state.dpcr.write_u32(0x8000);
    state.channels[3].madr.write_u32(0x1000);
    state.channels[3].bcr.write_u32(2);
    state.channels[3].chcr.write_u32(0x0100_0000).unwrap();

    dmac::run_time(
        &mut state,
        &mut cs,
        &mut ram,
        &mut gpu_fifo,
        &mut cdrom_fifo,
        &mut spu_fifo,
        &mut stat,
        &mut bus_locked,
        1024,
    );

    assert_eq!(ram.read_u32(0x1000), 0x4433_2211, "bytes assemble low byte first");
    assert_eq!(ram.read_u32(0x1004), 0x8877_6655);
    assert!(cdrom_fifo.is_empty());
    assert!(!cs.transfer_states[3].started, "the channel completed");
}
