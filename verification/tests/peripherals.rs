use libpsx_rs::cdrom::{self, CdromError};
use libpsx_rs::gpu;
use libpsx_rs::intc;
use libpsx_rs::padmc;
use libpsx_rs::spu;
use libpsx_rs::system;
use libpsx_rs::cp2::{GteInstruction, MultiplyMatrix, MultiplyVector, TranslationVector};
use libpsx_rs::mips::Instruction;

fn empty_disc(mode: u8) -> cdrom::Disc {
    cdrom::Disc { mode, sectors: Vec::new() }
}

fn disc_with_sectors(mode: u8, count: usize) -> cdrom::Disc {
    let mut sectors = Vec::new();
    for s in 0..count {
        let mut sector = vec![0u8; 2048];
        sector[0] = s as u8;
        sectors.push(sector);
    }
    cdrom::Disc { mode, sectors }
}

#[test]
fn cdrom_get_stat_responds_and_interrupts() {
    let mut state = cdrom::State::new();
    let mut cs = cdrom::ControllerState::new();
    let disc = empty_disc(2);
    let mut stat = intc::Stat::new();

    state.command = Some(0x01);
    let r = cdrom::handle_command(&mut state, &mut cs, &disc, &mut stat).unwrap();
    assert_eq!(r, Some(true));
    assert_eq!(state.response.read_one().unwrap(), 0x02);
    assert_eq!(state.int_flag.read() & 0x7, 3);
    assert_eq!(stat.value() & 0x4, 0x4, "the drive's line must be asserted");
}

#[test]
fn cdrom_get_id_two_phase_response() {
    let mut state = cdrom::State::new();
    let mut cs = cdrom::ControllerState::new();
    let disc = empty_disc(2);
    let mut stat = intc::Stat::new();

    // Issue the identify command.
    state.command = Some(0x1A);
    let r = cdrom::handle_command(&mut state, &mut cs, &disc, &mut stat).unwrap();
    assert_eq!(r, Some(false));
    assert_eq!(state.int_flag.read() & 0x7, 3, "first interrupt is the acknowledge");
    assert_eq!(state.response.read_one().unwrap(), 0x02);

    // The guest acknowledges the interrupt, flushing the response FIFO.
    state.int_flag.write(0x07);
    cdrom::handle_interrupt_flags(&mut state);
    assert_eq!(state.int_flag.read() & 0x7, 0);

    // The second phase delivers the identification bytes.
    let r = cdrom::handle_command(&mut state, &mut cs, &disc, &mut stat).unwrap();
    assert_eq!(r, Some(true));
    assert_eq!(state.int_flag.read() & 0x7, 2, "second interrupt is the completion");
    let expected = [0x02u8, 0x00, 0x20, 0x00, 0x53, 0x43, 0x45, 0x41];
    for &b in expected.iter() {
        assert_eq!(state.response.read_one().unwrap(), b);
    }
    assert!(state.response.is_empty());
}

#[test]
fn cdrom_get_id_rejects_other_disc_modes() {
    let mut state = cdrom::State::new();
    let mut cs = cdrom::ControllerState::new();
    let disc = empty_disc(1);
    let mut stat = intc::Stat::new();

    state.command = Some(0x1A);
    assert_eq!(cdrom::handle_command(&mut state, &mut cs, &disc, &mut stat).unwrap(), Some(false));
    state.int_flag.write(0x07);
    cdrom::handle_interrupt_flags(&mut state);
    let err = cdrom::handle_command(&mut state, &mut cs, &disc, &mut stat).unwrap_err();
    assert_eq!(err, CdromError::UnknownDiscMode(1));
}

#[test]
fn cdrom_setloc_computes_block_address() {
    let mut state = cdrom::State::new();
    let mut cs = cdrom::ControllerState::new();
    let disc = empty_disc(2);
    let mut stat = intc::Stat::new();

    state.command = Some(0x02);
    state.parameter.write_one(0).unwrap();
    state.parameter.write_one(2).unwrap();
    state.parameter.write_one(16).unwrap();
    let r = cdrom::handle_command(&mut state, &mut cs, &disc, &mut stat).unwrap();
    assert_eq!(r, Some(true));
    // (0 * 60 + 2) * 75 + 16 - 150 = 16.
    assert_eq!(cs.lba_address, 16);
    assert!(state.parameter.is_empty(), "parameters are consumed");
}

#[test]
fn cdrom_setloc_rejects_lead_in_addresses() {
    let mut state = cdrom::State::new();
    let mut cs = cdrom::ControllerState::new();
    let disc = empty_disc(2);
    let mut stat = intc::Stat::new();

    state.command = Some(0x02);
    state.parameter.write_one(0).unwrap();
    state.parameter.write_one(0).unwrap();
    state.parameter.write_one(0).unwrap();
    let err = cdrom::handle_command(&mut state, &mut cs, &disc, &mut stat).unwrap_err();
    assert_eq!(err, CdromError::SectorOutOfRange);
}

#[test]
fn cdrom_test_version_and_unknown_subfunction() {
    let mut state = cdrom::State::new();
    let mut cs = cdrom::ControllerState::new();
    let disc = empty_disc(2);
    let mut stat = intc::Stat::new();

    state.command = Some(0x19);
    state.parameter.write_one(0x20).unwrap();
    let r = cdrom::handle_command(&mut state, &mut cs, &disc, &mut stat).unwrap();
    assert_eq!(r, Some(true));
    for &b in [0x94u8, 0x09, 0x19, 0xC0].iter() {
        assert_eq!(state.response.read_one().unwrap(), b);
    }

    state.int_flag.write(0x07);
    cdrom::handle_interrupt_flags(&mut state);
    state.command = Some(0x19);
    state.parameter.write_one(0x10).unwrap();
    let err = cdrom::handle_command(&mut state, &mut cs, &disc, &mut stat).unwrap_err();
    assert_eq!(err, CdromError::UnknownSubFunction(0x10));
}

#[test]
fn cdrom_unknown_command_is_reported() {
    let mut state = cdrom::State::new();
    let mut cs = cdrom::ControllerState::new();
    let disc = empty_disc(2);
    let mut stat = intc::Stat::new();

    state.command = Some(0x55);
    let err = cdrom::handle_command(&mut state, &mut cs, &disc, &mut stat).unwrap_err();
    assert_eq!(err, CdromError::UnknownCommand(0x55));
}

#[test]
fn cdrom_response_must_be_empty_before_a_handler() {
    let mut state = cdrom::State::new();
    let mut cs = cdrom::ControllerState::new();
    let disc = empty_disc(2);
    let mut stat = intc::Stat::new();

    state.response.write_one(0x99).unwrap();
    state.command = Some(0x01);
    let err = cdrom::handle_command(&mut state, &mut cs, &disc, &mut stat).unwrap_err();
    assert_eq!(err, CdromError::ResponseResidue);
}

#[test]
fn cdrom_stalls_while_interrupt_unacknowledged() {
    let mut state = cdrom::State::new();
    let mut cs = cdrom::ControllerState::new();
    let disc = empty_disc(2);
    let mut stat = intc::Stat::new();

    state.command = Some(0x01);
    assert_eq!(cdrom::handle_command(&mut state, &mut cs, &disc, &mut stat).unwrap(), Some(true));
    // The next command waits until the interrupt is acknowledged.
    state.command = Some(0x01);
    assert_eq!(cdrom::handle_command(&mut state, &mut cs, &disc, &mut stat).unwrap(), None);
    assert_eq!(state.command, Some(0x01));
}

#[test]
fn cdrom_read_pump_streams_sector_behind_status() {
    let mut state = cdrom::State::new();
    let mut cs = cdrom::ControllerState::new();
    let disc = disc_with_sectors(2, 2);
    let mut stat = intc::Stat::new();

    cs.reading = true;
    cs.lba_address = 1;
    let r = cdrom::handle_reading(&mut state, &mut cs, &disc, &mut stat).unwrap();
    assert!(r);
    assert_eq!(state.int_flag.read() & 0x7, 1, "data-ready interrupt");
    assert_eq!(state.response.read_one().unwrap(), 0x22);
    assert!(state.response.is_empty(), "only the status byte goes to the response FIFO");
    assert_eq!(state.data.read_available(), 2048, "the sector lands in the data FIFO");
    assert_eq!(state.data.read_one().unwrap(), 1, "first sector byte tags its block address");
    assert_eq!(cs.lba_address, 2);
}

#[test]
fn cdrom_read_pump_waits_for_data_fifo_to_drain() {
    let mut state = cdrom::State::new();
    let mut cs = cdrom::ControllerState::new();
    let disc = disc_with_sectors(2, 2);
    let mut stat = intc::Stat::new();

    cs.reading = true;
    state.data.write_one(0x55).unwrap();
    let r = cdrom::handle_reading(&mut state, &mut cs, &disc, &mut stat).unwrap();
    assert!(!r, "a sector still in the data FIFO stalls the pump");
    assert_eq!(cs.lba_address, 0);
}

#[test]
fn cdrom_read_command_starts_the_pump() {
    let mut state = cdrom::State::new();
    let mut cs = cdrom::ControllerState::new();
    let disc = disc_with_sectors(2, 1);
    let mut stat = intc::Stat::new();

    state.command = Some(0x06);
    let r = cdrom::handle_command(&mut state, &mut cs, &disc, &mut stat).unwrap();
    assert_eq!(r, Some(true), "the command itself completes");
    assert!(cs.reading, "and leaves the pump running");
    assert_eq!(state.int_flag.read() & 0x7, 3);
    assert_eq!(state.response.read_one().unwrap(), 0x22);

    // After the acknowledge, the pump delivers the first sector.
    state.int_flag.write(0x07);
    cdrom::handle_interrupt_flags(&mut state);
    let r = cdrom::handle_command(&mut state, &mut cs, &disc, &mut stat).unwrap();
    assert_eq!(r, None, "the pump ran instead of a command");
    assert_eq!(state.int_flag.read() & 0x7, 1);
    assert_eq!(state.data.read_available(), 2048);
}

#[test]
fn cdrom_read_pump_waits_for_response_room() {
    let mut state = cdrom::State::new();
    let mut cs = cdrom::ControllerState::new();
    let disc = disc_with_sectors(2, 1);
    let mut stat = intc::Stat::new();

    cs.reading = true;
    for _ in 0..6 {
        state.response.write_one(0).unwrap();
    }
    let r = cdrom::handle_reading(&mut state, &mut cs, &disc, &mut stat).unwrap();
    assert!(!r, "fewer than twelve free bytes stalls the pump");
    assert_eq!(cs.lba_address, 0);
}

#[test]
fn cdrom_trace_reports_fifo_levels() {
    let mut state = cdrom::State::new();
    state.parameter.write_one(1).unwrap();
    let flags = cdrom::trace_cdrom(&state);
    assert!(!flags.parameter_empty);
    assert!(!flags.parameter_full);
    assert!(flags.response_empty);
    assert!(!flags.response_full);
}

#[test]
fn gp0_lengths_match_the_table() {
    let none: [u32; 0] = [];
    assert_eq!(gpu::command_00_length(&none), Some(1));
    assert_eq!(gpu::command_28_length(&none), Some(5));
    assert_eq!(gpu::command_2c_length(&none), Some(9));
    assert_eq!(gpu::command_30_length(&none), Some(6));
    assert_eq!(gpu::command_38_length(&none), Some(8));
    assert_eq!(gpu::command_3c_length(&none), Some(12));
    assert_eq!(gpu::command_50_length(&none), Some(4));
    assert_eq!(gpu::command_6f_length(&none), Some(3));
    assert_eq!(gpu::command_80_length(&none), Some(4));
    assert_eq!(gpu::command_c0_length(&none), Some(3));
    assert_eq!(gpu::command_e1_length(&none), Some(1));
    // The copy command needs its third word first.
    assert_eq!(gpu::command_a0_length(&[0xA000_0000]), None);
    // 16 by 2 pixels: three header words plus sixteen data words.
    let header = [0xA000_0000, 0, (2 << 16) | 16];
    assert_eq!(gpu::command_a0_length(&header), Some(3 + 16));
    // An odd pixel count pads its last word.
    let header = [0xA000_0000, 0, (1 << 16) | 3];
    assert_eq!(gpu::command_a0_length(&header), Some(3 + 2));
}

#[test]
fn gp0_framing_assembles_whole_commands() {
    let mut state = gpu::State::new();
    let mut cs = gpu::ControllerState::new();

    // A five-word polygon command arrives one word at a time.
    let words = [0x2800_0000u32, 0x0001_0001, 0x0002_0001, 0x0001_0002, 0x0002_0002];
    for &w in words.iter().take(4) {
        state.gp0.write_one(w).unwrap();
    }
    match gpu::handle_gp0_framing(&mut state, &mut cs) {
        gpu::Gp0Step::Incomplete => {},
        _ => panic!("four of five words must not complete the command"),
    }
    state.gp0.write_one(words[4]).unwrap();
    match gpu::handle_gp0_framing(&mut state, &mut cs) {
        gpu::Gp0Step::Command(got) => assert_eq!(got, words.to_vec()),
        _ => panic!("the command must complete"),
    }
}

#[test]
fn gp0_framing_reports_unknown_opcodes() {
    let mut state = gpu::State::new();
    let mut cs = gpu::ControllerState::new();
    state.gp0.write_one(0x7400_0000).unwrap();
    match gpu::handle_gp0_framing(&mut state, &mut cs) {
        gpu::Gp0Step::Unknown(op) => assert_eq!(op, 0x74),
        _ => panic!("an opcode outside the table must be reported"),
    }
}

#[test]
fn gp1_write_latches_command() {
    let mut state = gpu::State::new();
    let mut cs = gpu::ControllerState::new();
    state.gp1.write_u32(0x0300_0001).unwrap();
    gpu::handle_gp1(&mut state, &mut cs);
    assert_eq!(cs.gp1_command, Some(0x0300_0001));
}

#[test]
fn framebuffer_pixels_pack_low_then_high() {
    let pixels = vec![0x1111u16, 0x2222, 0x3333];
    let words = gpu::pack_framebuffer_words(&pixels);
    assert_eq!(words.len(), 2);
    assert_eq!(words[0], 0x2222_1111);
    assert_eq!(words[1], 0x0000_3333, "the odd pixel pads with zero");
}

#[test]
fn spu_key_on_starts_voice_at_scaled_address() {
    let mut state = spu::State::new();
    let mut cs = spu::ControllerState::new();

    state.voices[0].saddr.write_u16(0x200);
    state.voice_key_on.write_u32(0x1).unwrap();
    spu::handle_key_on(&mut state, &mut cs);

    let voice = spu::get_play_state(&cs, 0);
    assert!(voice.playing);
    assert_eq!(voice.current_address, 0x200 * 8);
    // Other voices untouched.
    assert!(!spu::get_play_state(&cs, 1).playing);
}

#[test]
fn spu_loop_end_block_returns_to_repeat_address() {
    let mut state = spu::State::new();
    let mut cs = spu::ControllerState::new();

    // Key voice 0 on with its start address at 0x200 units.
    state.voices[0].saddr.write_u16(0x200);
    state.voice_key_on.write_u32(0x1).unwrap();
    spu::handle_key_on(&mut state, &mut cs);
    assert_eq!(cs.voices[0].current_address, 0x1000);

    // The block header at the start address marks loop start, loop end,
    // and no repeat.
    cs.memory.write_u8(0x1001, 0x1 | 0x4);
    spu::initialize_adpcm_block(&mut state, &mut cs, 0);
    assert_eq!(state.voices[0].raddr.read_u16(), 0x200, "loop start latches the repeat address");
    assert_eq!(cs.voices[0].block_count, 2);

    // Decode the block's remaining fourteen nibble pairs.
    for _ in 0..14 {
        spu::continue_adpcm_block(&mut cs, 0);
    }
    assert_eq!(cs.voices[0].block_count, 16);

    spu::handle_adpcm_block_end(&mut state, &mut cs, 0);
    assert_eq!(cs.voices[0].current_address, 0x200 * 8, "the voice returns to the repeat address");
    assert_eq!(state.voice_channel_status.read_u32() & 0x1, 0x1, "the status bit rises");
    assert!(!cs.voices[0].playing, "no loop repeat releases the voice");
}

#[test]
fn spu_block_without_loop_end_falls_through() {
    let mut state = spu::State::new();
    let mut cs = spu::ControllerState::new();
    state.voice_key_on.write_u32(0x1).unwrap();
    spu::handle_key_on(&mut state, &mut cs);
    // Header with loop repeat only.
    cs.memory.write_u8(1, 0x2);
    spu::initialize_adpcm_block(&mut state, &mut cs, 0);
    for _ in 0..14 {
        spu::continue_adpcm_block(&mut cs, 0);
    }
    spu::handle_adpcm_block_end(&mut state, &mut cs, 0);
    assert_eq!(cs.voices[0].current_address, 16);
    assert!(cs.voices[0].playing);
    assert_eq!(cs.voices[0].block_count, 0);
}

#[test]
fn spu_key_off_stops_voice() {
    let mut state = spu::State::new();
    let mut cs = spu::ControllerState::new();
    state.voice_key_on.write_u32(0x3).unwrap();
    spu::handle_key_on(&mut state, &mut cs);
    state.voice_key_off.write_u32(0x1).unwrap();
    spu::handle_key_off(&mut state, &mut cs);
    assert!(!cs.voices[0].playing);
    assert!(cs.voices[1].playing);
}

#[test]
fn spu_manual_write_transfer_fills_memory() {
    let mut state = spu::State::new();
    let mut cs = spu::ControllerState::new();
    cs.transfer_state.current_transfer_mode = spu::TransferMode::ManualWrite;
    cs.transfer_state.current_transfer_address = 0x100;
    state.data_fifo.write_one(0xBEEF).unwrap();

    spu::handle_transfer(&mut state, &mut cs);
    assert_eq!(cs.memory.read_u8(0x100), 0xEF, "low byte first");
    assert_eq!(cs.memory.read_u8(0x101), 0xBE);
    assert_eq!(cs.transfer_state.current_transfer_address, 0x102);

    // The empty FIFO stops the transfer.
    spu::handle_transfer(&mut state, &mut cs);
    assert!(matches!(cs.transfer_state.current_transfer_mode, spu::TransferMode::Stop));
}

#[test]
fn spu_transfer_mode_decode() {
    let mut control = libpsx_rs::register::B16LevelRegister::new();
    control.write_u16(0x10);
    assert!(matches!(spu::get_transfer_mode(&control), spu::TransferMode::ManualWrite));
    control.write_u16(0x20);
    assert!(matches!(spu::get_transfer_mode(&control), spu::TransferMode::DmaWrite));
    control.write_u16(0x30);
    assert!(matches!(spu::get_transfer_mode(&control), spu::TransferMode::DmaRead));
    control.write_u16(0x00);
    assert!(matches!(spu::get_transfer_mode(&control), spu::TransferMode::Stop));
}

#[test]
fn spu_volume_getters_and_current_volume() {
    let mut state = spu::State::new();
    state.main_volume_left.write_u16(0x1234);
    state.main_volume_right.write_u16(0x5678);
    spu::handle_current_volume(&mut state);
    assert_eq!(state.current_volume_left.read_u16(), 0x1234);
    assert_eq!(state.current_volume_right.read_u16(), 0x5678);

    state.voices[5].voll.write_u16(0x10);
    assert_eq!(spu::get_voll(&state, 5).read_u16(), 0x10);
    assert_eq!(spu::get_volr(&state, 5).read_u16(), 0);
    state.voices[5].srate.write_u16(0x800);
    assert_eq!(spu::get_adpcm_sr(&state, 5).read_u16(), 0x800);
    state.voices[5].saddr.write_u16(0x300);
    assert_eq!(spu::get_adpcm_sa(&state, 5).read_u16(), 0x300);
    assert_eq!(spu::get_adpcm_envelope(&state, 5).read_u32(), 0);
    assert_eq!(spu::get_adsr_cvol(&state, 5).read_u16(), 0);
    assert_eq!(spu::get_adpcm_ra(&state, 5).read_u16(), 0);
}

#[test]
fn padmc_serial_fifos() {
    let mut padmc = padmc::Padmc::new();
    assert_eq!(padmc.data_read_u8(), 0xFF, "an idle line reads all ones");
    padmc.rx_fifo.write_one(0x41).unwrap();
    assert_eq!(padmc.data_read_u8(), 0x41);
    for _ in 0..16 {
        padmc.data_write_u8(0x01).unwrap();
    }
    assert!(padmc.data_write_u8(0x02).is_err(), "the transmit queue is bounded");
    let mut ctrl = padmc::Ctrl::new();
    ctrl.write_u16(0, 0x1003);
    assert!(ctrl.write_latch);
    assert_eq!(ctrl.read_u16(0), 0x1003);
}

#[test]
fn system_powers_up_clean_and_loads_rom() {
    let mut state = system::State::new();
    assert!(!state.bus_locked);
    state.initialize();
    assert_eq!(state.r3000.pc.read_u32(), 0xBFC0_0000);
    let image = [0x3Cu8, 0x08, 0x00, 0x00];
    state.load_bios(&image);
    assert_eq!(state.memory.bios.read_u8(0), 0x3C);
    assert_eq!(state.memory.bios.read_u8(3), 0x00);
    match system::Event::Time(1000) {
        system::Event::Time(t) => assert_eq!(t, 1000),
    }
}

#[test]
fn cp2_instruction_field_decode() {
    let word = (1 << 19) | (2 << 17) | (1 << 15) | (2 << 13) | (1 << 10) | 0x12;
    let inst = GteInstruction::new(Instruction::new(word));
    assert!(inst.sf());
    assert!(matches!(inst.mvmva_mm(), MultiplyMatrix::Color));
    assert!(matches!(inst.mvmva_mv(), MultiplyVector::V1));
    assert!(matches!(inst.mvmva_tv(), TranslationVector::FC));
    assert!(inst.lm());
    assert_eq!(inst.cmd(), 0x12);
    assert_eq!(inst.fake(), 0);
}

#[test]
fn sequential_round_runs_every_controller() {
    let mut state = system::State::new();
    let disc = empty_disc(2);
    // A whole video frame's worth of cycles.
    let events = vec![system::Event::Time(600_000); 9];

    // Queue work for several controllers, then run one round.
    state.cdrom.command = Some(0x01);
    let errors = system::run_unthreaded(&mut state, &disc, &events);
    assert!(errors.is_empty(), "a clean round reports no errors: {:?}", errors);
    // The drive ran within the round.
    assert_eq!(state.cdrom.int_flag.read() & 0x7, 3);
    // The video-timing controller completed a frame and raised its retrace.
    assert_eq!(state.intc.stat.value() & 0x1, 0x1);
}

#[test]
fn round_reports_drive_errors() {
    let mut state = system::State::new();
    let disc = empty_disc(2);
    let events = vec![system::Event::Time(256); 9];
    state.cdrom.command = Some(0x55);
    let errors = system::run_unthreaded(&mut state, &disc, &events);
    assert_eq!(errors.len(), 1);
    assert!(matches!(
        errors[0],
        system::ControllerError::Cdrom(CdromError::UnknownCommand(0x55))
    ));
}

#[test]
fn cdrom_tick_refreshes_status_bits() {
    let mut state = cdrom::State::new();
    let mut cs = cdrom::ControllerState::new();
    let disc = empty_disc(2);
    let mut stat = intc::Stat::new();

    state.parameter.write_one(0x20).unwrap();
    state.command = Some(0x19);
    cdrom::handle_tick(&mut state, &mut cs, &disc, &mut stat).unwrap();
    let status = state.status.read_u8();
    assert_eq!(status & 0x08, 0x08, "parameter FIFO drained: empty bit set");
    assert_eq!(status & 0x10, 0x10, "parameter FIFO has room: ready bit set");
    assert_eq!(status & 0x20, 0x20, "response FIFO holds the version bytes");
    assert_eq!(status & 0x40, 0, "data FIFO untouched");
}

#[test]
fn cpu_trace_helpers() {
    let r3000 = libpsx_rs::r3000::State::new();
    let mut cp0 = libpsx_rs::r3000::Cp0State::new();
    cp0.status.write_u32(0b11);
    let (pc, kuc, iec) = libpsx_rs::r3000::trace_pc(&r3000, &cp0);
    assert_eq!(pc, 0);
    assert_eq!(kuc, 1);
    assert_eq!(iec, 1);
    assert!(libpsx_rs::r3000::trace_hazard(&libpsx_rs::r3000::Hazard::MemoryRead(0)));
    assert!(!libpsx_rs::r3000::trace_hazard(
        &libpsx_rs::r3000::Hazard::BusLockedMemoryWrite(0)
    ));
}

#[test]
fn gp1_display_commands_update_state() {
    let mut state = gpu::State::new();
    let mut cs = gpu::ControllerState::new();

    gpu::command_03(&mut state, &mut cs, 1);
    assert_eq!(state.stat.read_u32() & (1 << 23), 1 << 23);
    gpu::command_05(&mut state, &mut cs, (3 << 10) | 5);
    assert_eq!(cs.display_area_start_x, 5);
    assert_eq!(cs.display_area_start_y, 3);
    gpu::command_06(&mut state, &mut cs, (0x123 << 12) | 0x456);
    assert_eq!(cs.horizontal_display_range_x1, 0x456);
    assert_eq!(cs.horizontal_display_range_x2, 0x123);
    gpu::command_07(&mut state, &mut cs, (0x21 << 10) | 0x12);
    assert_eq!(cs.vertical_display_range_y1, 0x12);
    assert_eq!(cs.vertical_display_range_y2, 0x21);
    gpu::command_08(&mut state, &mut cs, 0b0000_1101);
    let stat = state.stat.read_u32();
    assert_eq!((stat >> 17) & 3, 0b01, "horizontal resolution");
    assert_eq!((stat >> 19) & 1, 1, "vertical resolution");
    assert_eq!((stat >> 20) & 1, 1, "video standard");
    // A readback-direction change away from memory readback flushes the
    // read FIFO.
    state.read.write_one(7).unwrap();
    gpu::command_04(&mut state, &mut cs, 2);
    assert!(state.read.is_empty());
    assert_eq!((state.stat.read_u32() >> 29) & 3, 2);
}

#[test]
fn gp1_reset_clears_ports_and_drawing_state() {
    let mut state = gpu::State::new();
    let mut cs = gpu::ControllerState::new();
    state.gp0.write_one(0x2800_0000).unwrap();
    cs.drawing_area_x2 = 640;
    gpu::command_00(&mut state, &mut cs, 0);
    assert!(state.gp0.is_empty());
    assert_eq!(cs.gp0_command_buffer.len(), 0);
    assert_eq!(cs.drawing_area_x2, 0);
}

#[test]
fn drawing_state_handlers_decode_fields() {
    let mut state = gpu::State::new();
    let mut cs = gpu::ControllerState::new();
    gpu::command_e1_handler(&mut state, &mut cs, 0x1F);
    assert_eq!(cs.texpage_base_x, 0xF);
    assert_eq!(cs.texpage_base_y, 1);
    assert_eq!(state.stat.read_u32() & 0x7FF, 0x1F);
    gpu::command_e3_handler(&mut state, &mut cs, (100 << 10) | 20);
    assert_eq!(cs.drawing_area_x1, 20);
    assert_eq!(cs.drawing_area_y1, 100);
    gpu::command_e5_handler(&mut state, &mut cs, (0x7FF << 11) | 0x10);
    assert_eq!(gpu::sign_extend_11(cs.drawing_offset_x), 16);
    assert_eq!(gpu::sign_extend_11(cs.drawing_offset_y), -1);
    gpu::command_e6_handler(&mut state, &mut cs, 0b11);
    assert_eq!((state.stat.read_u32() >> 11) & 3, 0b11);
}

#[test]
fn sign_extension_of_short_coordinates() {
    assert_eq!(gpu::sign_extend_11(0), 0);
    assert_eq!(gpu::sign_extend_11(0x3FF), 1023);
    assert_eq!(gpu::sign_extend_11(0x400), -1024);
    assert_eq!(gpu::sign_extend_11(0x7FF), -1);
}

#[test]
fn fifo_trace_counters_advance() {
    let mut d = libpsx_rs::debug::DebugState::new(String::from("response"), true, false);
    assert!(d.record_read());
    assert!(!d.record_write());
    assert_eq!(d.read_count, 1);
    assert_eq!(d.write_count, 1);
    assert_eq!(d.identifier, "response");
}

#[test]
fn round_dispatches_display_and_drawing_commands() {
    let mut state = system::State::new();
    let disc = empty_disc(2);
    let events = vec![system::Event::Time(64); 9];

    // A latched display-enable command and a queued draw-mode command.
    state.gpu.gp1.write_u32(0x0300_0001).unwrap();
    state.gpu.gp0.write_one(0xE100_001F).unwrap();
    let errors = system::run_unthreaded(&mut state, &disc, &events);
    assert!(errors.is_empty(), "{:?}", errors);
    assert_eq!(state.gpu.stat.read_u32() & (1 << 23), 1 << 23, "display enabled");
    assert_eq!(state.gpu_controller.texpage_base_x, 0xF, "draw mode applied");
    assert_eq!(state.gpu_controller.gp1_command, None);
}
