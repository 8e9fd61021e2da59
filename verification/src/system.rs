//! The shared hardware state all nine controllers run against, and the
//! per-round event each controller receives.

use vstd::prelude::*;
use crate::bitfield::Bitfield;
use crate::cdrom;
use crate::edge::LatchKind;
use crate::dmac;
use crate::gpu;
use crate::intc;
use crate::memory;
use crate::padmc;
use crate::r3000;
use crate::spu;
use crate::timers;

verus! {

/// What a controller is asked to do on a round: advance by a number of
/// its clock cycles.
#[derive(Clone, Copy, PartialEq, Eq, Structural, Debug)]
pub enum Event {
    Time(u64),
}

/// The whole console: every peripheral's shared registers, each
/// controller's private state, and the bus-lock flag the DMA controller
/// and the CPU arbitrate through.
pub struct State {
    pub r3000: r3000::State,
    pub cp0: r3000::Cp0State,
    pub intc: intc::State,
    pub dmac: dmac::State,
    pub dmac_controller: dmac::ControllerState,
    pub timers: timers::State,
    pub timers_controller: timers::ControllerState,
    pub gpu: gpu::State,
    pub gpu_controller: gpu::ControllerState,
    pub crtc: gpu::CrtcState,
    pub spu: spu::State,
    pub spu_controller: spu::ControllerState,
    pub cdrom: cdrom::State,
    pub cdrom_controller: cdrom::ControllerState,
    pub padmc: padmc::Padmc,
    pub memory: memory::State,
    pub bus_locked: bool,
}

impl State {
    pub open spec fn wf(&self) -> bool {
        &&& self.r3000.wf()
        &&& self.dmac.wf()
        &&& self.dmac_controller.wf()
        &&& self.timers.wf()
        &&& self.timers_controller.wf()
        &&& self.gpu.wf()
        &&& self.crtc.wf()
        &&& self.spu.wf()
        &&& self.spu_controller.wf()
        &&& self.cdrom.wf()
        &&& self.cdrom_controller.wf()
        &&& self.padmc.wf()
        &&& self.memory.main_memory.view().len() == memory::spec_main_memory_size()
        &&& self.memory.bios.view().len() == memory::spec_bios_size()
    }

    /// Builds the console in its power-on state: every register zero,
    /// every FIFO empty, every channel idle, the bus free.
    pub fn new() -> (r: State)
        ensures
            r.wf(),
            !r.bus_locked,
            r.intc.stat.spec_value() == 0u32,
            r.cdrom.parameter.contents() == Seq::<u8>::empty(),
            r.cdrom.response.contents() == Seq::<u8>::empty(),
            r.gpu.gp0.contents() == Seq::<u32>::empty(),
            !r.cp0.cause.intc_pending,
    {
        State {
            r3000: r3000::State::new(),
            cp0: r3000::Cp0State::new(),
            intc: intc::State::new(),
            dmac: dmac::State::new(),
            dmac_controller: dmac::ControllerState::new(),
            timers: timers::State::new(),
            timers_controller: timers::ControllerState::new(),
            gpu: gpu::State::new(),
            gpu_controller: gpu::ControllerState::new(),
            crtc: gpu::CrtcState::new(),
            spu: spu::State::new(),
            spu_controller: spu::ControllerState::new(),
            cdrom: cdrom::State::new(),
            cdrom_controller: cdrom::ControllerState::new(),
            padmc: padmc::Padmc::new(),
            memory: memory::State::new(),
            bus_locked: false,
        }
    }

    /// Puts the CPU at the reset vector, ready to fetch the first ROM
    /// instruction.
    pub fn initialize(&mut self)
        requires
            old(self).wf(),
        ensures
            final(self).wf(),
            final(self).r3000.pc.value == 0xBFC0_0000u32,
    {
        self.r3000.pc.write_u32(0xBFC0_0000);
    }

    /// Copies a ROM image into the boot ROM window.
    pub fn load_bios(&mut self, data: &[u8])
        requires
            old(self).wf(),
            data@.len() <= memory::spec_bios_size(),
        ensures
            final(self).wf(),
            forall|i: int|
                0 <= i < data@.len() ==> final(self).memory.bios.view()[i] == data@[i],
    {
        self.memory.bios.write_raw(0, data);
    }
}


/// What a controller round can fail with; the driver logs these and
/// continues.
#[derive(Clone, Copy, PartialEq, Eq, Structural, Debug)]
pub enum ControllerError {
    PcUnderflow,
    DmacReservedSyncMode,
    DmacChannelRestarted,
    DmacForceIrq,
    GpuReadLatch,
    GpuCommandPending,
    GpuUnknownOpcode(u8),
    SpuTransferOutOfRange,
    DiscTooLarge,
    Cdrom(cdrom::CdromError),
}

/// Number of controllers a round dispatches, as the executor counts them.
pub open spec fn spec_system_controller_count() -> int {
    9
}

/// Runs one controller for one round: the CPU's interrupt path, the
/// interrupt controller, the DMA round, GPU port handling, the sound
/// processor's latches and transfer, the timers, the drive, the serial
/// interface, and the video-timing retrace, in that order of indices.
/// Conditions the machinery cannot accept (a reserved sync mode, a restart
/// of a busy channel, an unknown drawing opcode) surface as errors instead
/// of running.
pub fn run_controller(
    state: &mut State,
    disc: &cdrom::Disc,
    controller_index: usize,
    event: Event,
) -> (r: Option<ControllerError>)
    requires
        old(state).wf(),
        disc.wf(),
        controller_index < spec_system_controller_count(),
    ensures
        final(state).wf(),
        controller_index == 0 && !(old(state).r3000.branch_delay.spec_branching() && old(state).r3000.pc.value < 4) ==> ({
            let cause1 = (Bitfield { start: 10, length: 1 }).spec_insert(
                old(state).cp0.cause.register.value,
                if old(state).cp0.cause.intc_pending {
                    1u32
                } else {
                    0u32
                },
            );
            &&& r is None
            &&& (crate::r3000::spec_interrupt_due(old(state).cp0.status.value, cause1) ==> final(state).r3000.pc.value == crate::r3000::spec_exception_vector(old(state).cp0.status.value)
                && final(state).cp0.status.value == crate::cp0::spec_status_push_exception(
                old(state).cp0.status.value,
            ) && final(state).cp0.epc.value == crate::r3000::spec_exception_epc(
                old(state).r3000.pc.value,
                old(state).r3000.branch_delay.spec_branching(),
            ))
            &&& (!crate::r3000::spec_interrupt_due(old(state).cp0.status.value, cause1) ==> final(state).r3000 == old(state).r3000 && final(state).cp0.status == old(state).cp0.status
                && final(state).cp0.cause.register.value == cause1)
        }),
        controller_index == 1 ==> r is None && final(state).cp0.cause.intc_pending == (old(state).intc.stat.spec_value() & old(state).intc.mask.value != 0u32),
        controller_index == 2 && r is None && old(state).dmac_controller.cooloff_runs == 0 ==> (
        forall|ch: int|
            0 <= ch < crate::dmac::spec_channel_count() ==> !(#[trigger] final(state).dmac.channels[ch].chcr).pending()) && !final(state).dmac.dicr.pending(),
        controller_index == 3 && r is None ==> final(state).gpu_controller.gp1_command is None
            && !final(state).gpu.gp1.pending(),
        controller_index == 4 && old(state).spu_controller.transfer_state.current_transfer_address
            <= 0x8_0000 - 2 ==> r is None && !final(state).spu.voice_key_on.pending() && !final(state).spu.voice_key_off.pending() && final(state).spu.current_volume_left.value == final(state).spu.main_volume_left.value && final(state).spu.current_volume_right.value == final(state).spu.main_volume_right.value,
        controller_index == 5 ==> r is None && (forall|t: int|
            0 <= t < 3 && !crate::timers::spec_mode_reset_on_target(
                (#[trigger] old(state).timers.timers[t]).mode.value,
            ) ==> final(state).timers.timers[t].count.value == (((old(state).timers.timers[t].count.value & 0xFFFFu32) + (match event {
                Event::Time(cycles) => (cycles & 0xFFFF_FFFF) as u32,
            })) % 0x1_0000) as u32),
        controller_index == 6 && disc.sectors.len() <= 0x10_0000 ==> ({
            &&& final(state).cdrom.status.value & 0x08u8 == (if final(state).cdrom.parameter.contents().len() == 0 {
                0x08u8
            } else {
                0u8
            })
            &&& final(state).cdrom.status.value & 0x20u8 == (if final(state).cdrom.response.contents().len() > 0 {
                0x20u8
            } else {
                0u8
            })
            &&& final(state).cdrom.status.value & 0x40u8 == (if final(state).cdrom.data.contents().len() > 0 {
                0x40u8
            } else {
                0u8
            })
        }),
        controller_index == 7 ==> r is None && *final(state) == *old(state),
        controller_index != 8 ==> final(state).crtc == old(state).crtc,
        controller_index == 8 ==> {
            let budget = (match event {
                Event::Time(cycles) => if cycles > 0x1_0000_0000 {
                    0x1_0000_0000u64
                } else {
                    cycles
                },
            });
            &&& r is None
            &&& final(state).crtc.frame_clock == (old(state).crtc.frame_clock + budget)
                % crate::gpu::spec_frame_period()
            &&& (old(state).crtc.frame_clock + budget >= crate::gpu::spec_frame_period() ==> final(state).intc.stat == old(state).intc.stat.spec_assert_line(crate::intc::Line::Vblank))
            &&& (old(state).crtc.frame_clock + budget < crate::gpu::spec_frame_period() ==> final(state).intc.stat == old(state).intc.stat)
        },
{
    let Event::Time(cycles) = event;
    if controller_index == 0 {
        state.cp0.cause.update_ip_field();
        if state.r3000.branch_delay.branching() && state.r3000.pc.read_u32() < 4 {
            return Some(ControllerError::PcUnderflow);
        }
        crate::r3000::handle_interrupts(&mut state.r3000, &mut state.cp0);
        None
    } else if controller_index == 1 {
        crate::intc::handle_interrupt_check(&state.intc, &mut state.cp0.cause);
        None
    } else if controller_index == 2 {
        let mut ch: usize = 0;
        while ch < 7
            invariant
                controller_index == 2,
                ch <= 7,
                state.wf(),
                old(state).wf(),
                *state == *old(state),
                forall|j: int|
                    0 <= j < ch ==> crate::dmac::spec_chcr_write_ok(
                        #[trigger] state.dmac.channels[j].chcr,
                        state.dmac_controller.transfer_states[j],
                        j,
                    ),
            decreases 7 - ch,
        {
            let chcr = &state.dmac.channels[ch].chcr;
            if matches!(chcr.latch, Some(LatchKind::Write)) {
                let v: u32 = if ch == 6 {
                    (chcr.read_direct() & 0x5100_0000) | 0x2
                } else {
                    chcr.read_direct()
                };
                if Bitfield::new(9, 2).extract_from(v) == 3 {
                    return Some(ControllerError::DmacReservedSyncMode);
                }
                if Bitfield::new(24, 1).extract_from(v) > 0
                    && state.dmac_controller.transfer_states[ch].started {
                    return Some(ControllerError::DmacChannelRestarted);
                }
            }
            ch += 1;
        }
        if matches!(state.dmac.dicr.latch, Some(LatchKind::Write)) {
            if Bitfield::new(15, 1).extract_from(state.dmac.dicr.read_direct()) != 0 {
                return Some(ControllerError::DmacForceIrq);
            }
        }
        let budget: u64 = if cycles > 0x1_0000_0000 {
            0x1_0000_0000
        } else {
            cycles
        };
        crate::dmac::run_time(
            &mut state.dmac,
            &mut state.dmac_controller,
            &mut state.memory.main_memory,
            &mut state.gpu.gp0,
            &mut state.cdrom.data,
            &mut state.spu.data_fifo,
            &mut state.intc.stat,
            &mut state.bus_locked,
            budget,
        );
        None
    } else if controller_index == 3 {
        if matches!(state.gpu.gp1.latch, Some(LatchKind::Read)) {
            return Some(ControllerError::GpuReadLatch);
        }
        if matches!(state.gpu.gp1.latch, Some(LatchKind::Write))
            && state.gpu_controller.gp1_command.is_some() {
            return Some(ControllerError::GpuCommandPending);
        }
        crate::gpu::handle_gp1(&mut state.gpu, &mut state.gpu_controller);
        match state.gpu_controller.gp1_command {
            Some(command) => {
                crate::gpu::handle_gp1_command(&mut state.gpu, &mut state.gpu_controller, command);
                state.gpu_controller.gp1_command = None;
            },
            None => {},
        }
        let framed = crate::gpu::handle_gp0_framing(&mut state.gpu, &mut state.gpu_controller);
        match framed {
            crate::gpu::Gp0Step::Command(words) => {
                // The drawing-state commands apply here; geometry and copy
                // commands carry their data out to the video backend.
                let opcode = (words[0] >> 24u32) & 0xFF;
                let word = words[0];
                if opcode == 0xE1 {
                    crate::gpu::command_e1_handler(&mut state.gpu, &mut state.gpu_controller, word);
                } else if opcode == 0xE2 {
                    crate::gpu::command_e2_handler(&mut state.gpu, &mut state.gpu_controller, word);
                } else if opcode == 0xE3 {
                    crate::gpu::command_e3_handler(&mut state.gpu, &mut state.gpu_controller, word);
                } else if opcode == 0xE4 {
                    crate::gpu::command_e4_handler(&mut state.gpu, &mut state.gpu_controller, word);
                } else if opcode == 0xE5 {
                    crate::gpu::command_e5_handler(&mut state.gpu, &mut state.gpu_controller, word);
                } else if opcode == 0xE6 {
                    crate::gpu::command_e6_handler(&mut state.gpu, &mut state.gpu_controller, word);
                }
                None
            },
            crate::gpu::Gp0Step::Unknown(op) => Some(ControllerError::GpuUnknownOpcode(op)),
            crate::gpu::Gp0Step::Incomplete => None,
        }
    } else if controller_index == 4 {
        crate::spu::handle_key_on(&mut state.spu, &mut state.spu_controller);
        let mut voice_id: usize = 0;
        while voice_id < 24
            invariant
                controller_index == 4,
                state.wf(),
                old(state).wf(),
                voice_id <= 24,
                !state.spu.voice_key_on.pending(),
                state.spu.voice_key_off == old(state).spu.voice_key_off,
                state.spu_controller.transfer_state == old(state).spu_controller.transfer_state,
                state.crtc == old(state).crtc,
            decreases 24 - voice_id,
        {
            crate::spu::voice_step(&mut state.spu, &mut state.spu_controller, voice_id);
            voice_id += 1;
        }
        crate::spu::handle_key_off(&mut state.spu, &mut state.spu_controller);
        if state.spu_controller.transfer_state.current_transfer_address > 0x8_0000 - 2 {
            return Some(ControllerError::SpuTransferOutOfRange);
        }
        crate::spu::handle_transfer(&mut state.spu, &mut state.spu_controller);
        crate::spu::handle_current_volume(&mut state.spu);
        None
    } else if controller_index == 5 {
        let budget: u32 = (cycles & 0xFFFF_FFFF) as u32;
        let mut timer_id: usize = 0;
        while timer_id < 3
            invariant
                controller_index == 5,
                state.wf(),
                old(state).wf(),
                timer_id <= 3,
                budget == (match event {
                    Event::Time(c) => (c & 0xFFFF_FFFF) as u32,
                }),
                forall|t: int|
                    timer_id <= t < 3 ==> #[trigger] state.timers.timers[t] == old(state).timers.timers[t],
                forall|t: int|
                    0 <= t < timer_id && !crate::timers::spec_mode_reset_on_target(
                        (#[trigger] old(state).timers.timers[t]).mode.value,
                    ) ==> state.timers.timers[t].count.value == (((old(state).timers.timers[t].count.value & 0xFFFFu32) + budget) % 0x1_0000) as u32,
                state.crtc == old(state).crtc,
            decreases 3 - timer_id,
        {
            crate::timers::tick(
                &mut state.timers,
                &mut state.timers_controller,
                &mut state.intc.stat,
                timer_id,
                budget,
            );
            timer_id += 1;
        }
        None
    } else if controller_index == 6 {
        if disc.sectors.len() > 0x10_0000 {
            return Some(ControllerError::DiscTooLarge);
        }
        let ticked = crate::cdrom::handle_tick(
            &mut state.cdrom,
            &mut state.cdrom_controller,
            disc,
            &mut state.intc.stat,
        );
        match ticked {
            Ok(_) => None,
            Err(e) => Some(ControllerError::Cdrom(e)),
        }
    } else if controller_index == 7 {
        // The serial interface has nothing to pump without a host input
        // backend behind its FIFOs.
        None
    } else {
        // Video timing: the frame clock advances by the budget and raises
        // the retrace line once per completed frame.
        let budget: u64 = if cycles > 0x1_0000_0000 {
            0x1_0000_0000
        } else {
            cycles
        };
        crate::gpu::crtc_tick(&mut state.crtc, &mut state.intc.stat, budget);
        None
    }
}

/// One sequential round: every controller runs exactly once, in index
/// order, and the errors of the round are collected in order.
pub fn run_unthreaded(state: &mut State, disc: &cdrom::Disc, events: &Vec<Event>) -> (r: Vec<
    ControllerError,
>)
    requires
        old(state).wf(),
        disc.wf(),
        events@.len() == spec_system_controller_count(),
    ensures
        final(state).wf(),
        r@.len() <= spec_system_controller_count(),
        ({
            let budget = (match events@[8] {
                Event::Time(cycles) => if cycles > 0x1_0000_0000 {
                    0x1_0000_0000u64
                } else {
                    cycles
                },
            });
            final(state).crtc.frame_clock == (old(state).crtc.frame_clock + budget)
                % crate::gpu::spec_frame_period()
        }),
{
    let mut errors: Vec<ControllerError> = Vec::new();
    let mut i: usize = 0;
    while i < 9
        invariant
            i <= 9,
            state.wf(),
            disc.wf(),
            events@.len() == spec_system_controller_count(),
            errors@.len() <= i,
            i <= 8 ==> state.crtc == old(state).crtc,
            i == 9 ==> ({
                let budget = (match events@[8] {
                    Event::Time(cycles) => if cycles > 0x1_0000_0000 {
                        0x1_0000_0000u64
                    } else {
                        cycles
                    },
                });
                state.crtc.frame_clock == (old(state).crtc.frame_clock + budget)
                    % crate::gpu::spec_frame_period()
            }),
        decreases 9 - i,
    {
        match run_controller(state, disc, i, events[i]) {
            Some(e) => {
                errors.push(e);
            },
            None => {},
        }
        i += 1;
    }
    errors
}

} // verus!
