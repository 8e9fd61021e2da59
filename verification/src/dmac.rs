//! DMA controller: seven channels moving words between main RAM and
//! peripheral FIFOs under three sync modes (continuous, blocks,
//! linked-list), with bus arbitration against the CPU and an interrupt
//! register aggregating per-channel completion flags.

use vstd::prelude::*;
use crate::bitfield::{Bitfield, extract_bits, insert_bits};
use crate::edge::{B32EdgeRegister, LatchKind};
use crate::fifo::Fifo;
use crate::intc::{Line, Stat};
use crate::memory::{B8Memory, word_at, word_from_bytes};
use crate::register::B32LevelRegister;

verus! {

/// Which way a channel moves data relative to the peripheral.
#[derive(Clone, Copy, PartialEq, Eq, Structural, Debug)]
pub enum TransferDirection {
    FromChannel,
    ToChannel,
}

/// Which way the memory address steps between words.
#[derive(Clone, Copy, PartialEq, Eq, Structural, Debug)]
pub enum StepDirection {
    Forwards,
    Backwards,
}

/// Progress of a continuous (whole-block) transfer.
#[derive(Clone, Copy, PartialEq, Eq, Structural, Debug)]
pub struct ContinuousState {
    pub current_address: u32,
    pub target_count: usize,
    pub current_count: usize,
}

impl ContinuousState {
    pub fn new() -> (r: ContinuousState)
        ensures
            r == (ContinuousState { current_address: 0u32, target_count: 0usize, current_count: 0usize }),
    {
        ContinuousState { current_address: 0, target_count: 0, current_count: 0 }
    }
}

/// Progress of a blocks transfer: nested word-per-block and block counters.
#[derive(Clone, Copy, PartialEq, Eq, Structural, Debug)]
pub struct BlocksState {
    pub current_address: u32,
    pub current_bsize_count: usize,
    pub target_bsize_count: usize,
    pub current_bamount_count: usize,
    pub target_bamount_count: usize,
}

impl BlocksState {
    pub fn new() -> (r: BlocksState)
        ensures
            r == (BlocksState {
                current_address: 0u32,
                current_bsize_count: 0usize,
                target_bsize_count: 0usize,
                current_bamount_count: 0usize,
                target_bamount_count: 0usize,
            }),
    {
        BlocksState {
            current_address: 0,
            current_bsize_count: 0,
            target_bsize_count: 0,
            current_bamount_count: 0,
            target_bamount_count: 0,
        }
    }
}

/// Progress of a linked-list transfer.
#[derive(Clone, Copy, PartialEq, Eq, Structural, Debug)]
pub struct LinkedListState {
    pub current_header_address: u32,
    pub next_header_address: u32,
    pub target_count: usize,
    pub current_count: usize,
}

impl LinkedListState {
    pub fn new() -> (r: LinkedListState)
        ensures
            r == (LinkedListState {
                current_header_address: 0u32,
                next_header_address: 0u32,
                target_count: 0usize,
                current_count: 0usize,
            }),
    {
        LinkedListState { current_header_address: 0, next_header_address: 0, target_count: 0, current_count: 0 }
    }
}

/// A channel's sync mode together with its progress state.
#[derive(Clone, Copy, PartialEq, Eq, Structural, Debug)]
pub enum SyncMode {
    Undefined,
    Continuous(ContinuousState),
    Blocks(BlocksState),
    LinkedList(LinkedListState),
}

/// One channel's transfer state. `started` flips true only on a channel
/// control write with the start bit, and false only when the transfer
/// completes.
#[derive(Clone, Copy, PartialEq, Eq, Structural, Debug)]
pub struct TransferState {
    pub started: bool,
    pub direction: TransferDirection,
    pub step_direction: StepDirection,
    pub sync_mode: SyncMode,
    pub interrupt_enabled: bool,
    pub interrupted: bool,
}

impl TransferState {
    pub fn new() -> (r: TransferState)
        ensures
            r == (TransferState {
                started: false,
                direction: TransferDirection::ToChannel,
                step_direction: StepDirection::Forwards,
                sync_mode: SyncMode::Undefined,
                interrupt_enabled: false,
                interrupted: false,
            }),
    {
        TransferState {
            started: false,
            direction: TransferDirection::ToChannel,
            step_direction: StepDirection::Forwards,
            sync_mode: SyncMode::Undefined,
            interrupt_enabled: false,
            interrupted: false,
        }
    }
}

/// Number of channels.
pub open spec fn spec_channel_count() -> int {
    7
}

/// The state every channel powers up in.
pub open spec fn spec_idle_transfer_state() -> TransferState {
    TransferState {
        started: false,
        direction: TransferDirection::ToChannel,
        step_direction: StepDirection::Forwards,
        sync_mode: SyncMode::Undefined,
        interrupt_enabled: false,
        interrupted: false,
    }
}

/// The controller's private state: the master interrupt flags, one transfer
/// state per channel, and the bus cool-off counter that lets the CPU make
/// progress when every channel is stalled.
pub struct ControllerState {
    pub master_interrupt_enabled: bool,
    pub master_interrupted: bool,
    pub transfer_states: Vec<TransferState>,
    pub cooloff_runs: usize,
}

impl ControllerState {
    pub open spec fn wf(&self) -> bool {
        self.transfer_states.len() == spec_channel_count()
    }

    pub fn new() -> (r: ControllerState)
        ensures
            r.wf(),
            !r.master_interrupt_enabled,
            !r.master_interrupted,
            r.cooloff_runs == 0usize,
            forall|i: int|
                0 <= i < spec_channel_count() ==> r.transfer_states[i] == spec_idle_transfer_state(),
    {
        let mut transfer_states: Vec<TransferState> = Vec::new();
        let mut i: usize = 0;
        while i < 7
            invariant
                i <= 7,
                transfer_states.len() == i,
                forall|j: int| 0 <= j < i ==> transfer_states[j] == spec_idle_transfer_state(),
            decreases 7 - i,
        {
            transfer_states.push(TransferState::new());
            i += 1;
        }
        ControllerState {
            master_interrupt_enabled: false,
            master_interrupted: false,
            transfer_states,
            cooloff_runs: 0,
        }
    }
}

/// One channel's memory-mapped registers.
pub struct ChannelRegisters {
    pub madr: B32LevelRegister,
    pub bcr: B32LevelRegister,
    pub chcr: B32EdgeRegister,
}

impl ChannelRegisters {
    pub fn new() -> (r: ChannelRegisters)
        ensures
            r.madr.value == 0u32,
            r.bcr.value == 0u32,
            r.chcr.value == 0u32,
            !r.chcr.pending(),
    {
        ChannelRegisters { madr: B32LevelRegister::new(), bcr: B32LevelRegister::new(), chcr: B32EdgeRegister::new() }
    }
}

/// The DMA controller's memory-mapped registers.
pub struct State {
    pub dpcr: B32LevelRegister,
    pub dicr: B32EdgeRegister,
    pub channels: Vec<ChannelRegisters>,
}

impl State {
    pub open spec fn wf(&self) -> bool {
        self.channels.len() == spec_channel_count()
    }

    pub fn new() -> (r: State)
        ensures
            r.wf(),
            r.dpcr.value == 0u32,
            r.dicr.value == 0u32,
            !r.dicr.pending(),
    {
        let mut channels: Vec<ChannelRegisters> = Vec::new();
        let mut i: usize = 0;
        while i < 7
            invariant
                i <= 7,
                channels.len() == i,
            decreases 7 - i,
        {
            channels.push(ChannelRegisters::new());
            i += 1;
        }
        State { dpcr: B32LevelRegister::new(), dicr: B32EdgeRegister::new(), channels }
    }
}

/// The channel-control value the ordering-table channel really uses: its
/// direction is forced to from-memory, its step to backwards; only the
/// start, trigger and chopping-window bits of the written value are kept.
pub open spec fn spec_otc_chcr_value(value: u32) -> u32 {
    (value & 0x5100_0000u32) | 0x2u32
}

/// The transfer state a channel-control write decodes to: bit 0 is the
/// direction, bit 1 the step, bits 9..11 the sync mode, bit 24 start.
/// The interrupt bookkeeping fields are untouched.
pub open spec fn spec_decode_chcr(value: u32, prev: TransferState) -> TransferState {
    TransferState {
        started: extract_bits(24, 1, value) > 0,
        direction: if extract_bits(0, 1, value) > 0 {
            TransferDirection::ToChannel
        } else {
            TransferDirection::FromChannel
        },
        step_direction: if extract_bits(1, 1, value) > 0 {
            StepDirection::Backwards
        } else {
            StepDirection::Forwards
        },
        sync_mode: if extract_bits(9, 2, value) == 0 {
            SyncMode::Continuous(ContinuousState { current_address: 0, target_count: 0, current_count: 0 })
        } else if extract_bits(9, 2, value) == 1 {
            SyncMode::Blocks(BlocksState {
                current_address: 0,
                current_bsize_count: 0,
                target_bsize_count: 0,
                current_bamount_count: 0,
                target_bamount_count: 0,
            })
        } else {
            SyncMode::LinkedList(LinkedListState {
                current_header_address: 0,
                next_header_address: 0,
                target_count: 0,
                current_count: 0,
            })
        },
        interrupt_enabled: prev.interrupt_enabled,
        interrupted: prev.interrupted,
    }
}

/// The sync-mode progress state a freshly started transfer begins with,
/// taken from the address and block-control registers: a continuous
/// transfer counts `bcr` low-halfword words from `madr`; a blocks transfer
/// runs `bcr` high-halfword blocks of `bcr` low-halfword words; a
/// linked-list transfer starts at the header named by `madr`.
pub open spec fn spec_initialize_sync_mode(mode: SyncMode, madr: u32, bcr: u32) -> SyncMode {
    match mode {
        SyncMode::Undefined => SyncMode::Undefined,
        SyncMode::Continuous(_) => SyncMode::Continuous(
            ContinuousState {
                current_address: madr,
                target_count: extract_bits(0, 16, bcr) as usize,
                current_count: 0,
            },
        ),
        SyncMode::Blocks(_) => SyncMode::Blocks(
            BlocksState {
                current_address: madr,
                current_bsize_count: 0,
                target_bsize_count: extract_bits(0, 16, bcr) as usize,
                current_bamount_count: 0,
                target_bamount_count: extract_bits(16, 16, bcr) as usize,
            },
        ),
        SyncMode::LinkedList(_) => SyncMode::LinkedList(
            LinkedListState {
                current_header_address: madr,
                next_header_address: 0,
                target_count: 0,
                current_count: 0,
            },
        ),
    }
}

/// Fills a decoded transfer state's progress from the channel's address and
/// block-control registers.
pub fn handle_transfer_initialization(transfer_state: &mut TransferState, madr: u32, bcr: u32)
    ensures
        *final(transfer_state) == (TransferState {
            sync_mode: spec_initialize_sync_mode(old(transfer_state).sync_mode, madr, bcr),
            ..*old(transfer_state)
        }),
{
    let bsize = Bitfield::new(0, 16).extract_from(bcr);
    let bamount = Bitfield::new(16, 16).extract_from(bcr);
    let mode = transfer_state.sync_mode;
    match mode {
        SyncMode::Undefined => {},
        SyncMode::Continuous(_) => {
            transfer_state.sync_mode = SyncMode::Continuous(
                ContinuousState {
                    current_address: madr,
                    target_count: bsize as usize,
                    current_count: 0,
                },
            );
        },
        SyncMode::Blocks(_) => {
            transfer_state.sync_mode = SyncMode::Blocks(
                BlocksState {
                    current_address: madr,
                    current_bsize_count: 0,
                    target_bsize_count: bsize as usize,
                    current_bamount_count: 0,
                    target_bamount_count: bamount as usize,
                },
            );
        },
        SyncMode::LinkedList(_) => {
            transfer_state.sync_mode = SyncMode::LinkedList(
                LinkedListState {
                    current_header_address: madr,
                    next_header_address: 0,
                    target_count: 0,
                    current_count: 0,
                },
            );
        },
    }
}

/// A pending channel-control write may be applied: the sync mode is not the
/// reserved encoding, and a start bit never lands on a channel whose
/// transfer is still running.
pub open spec fn spec_chcr_write_ok(chcr: B32EdgeRegister, prev: TransferState, channel_id: int) -> bool {
    chcr.latch == Some(LatchKind::Write) ==> {
        let v = if channel_id == 6 {
            spec_otc_chcr_value(chcr.value)
        } else {
            chcr.value
        };
        &&& extract_bits(9, 2, v) != 3
        &&& (extract_bits(24, 1, v) > 0 ==> !prev.started)
    }
}

/// Acknowledges a channel-control access. A read keeps the stored value; a
/// write decodes the new value into the channel's transfer state (with the
/// ordering-table channel's fixed bits forced) and, when the start bit is
/// set, loads the progress state from `madr` and `bcr`.
pub fn handle_chcr(
    chcr: &mut B32EdgeRegister,
    transfer_state: &mut TransferState,
    channel_id: usize,
    madr: u32,
    bcr: u32,
)
    requires
        channel_id < spec_channel_count(),
        spec_chcr_write_ok(*old(chcr), *old(transfer_state), channel_id as int),
    ensures
        !final(chcr).pending(),
        old(chcr).latch == Some(LatchKind::Write) ==> {
            let v = if channel_id == 6 {
                spec_otc_chcr_value(old(chcr).value)
            } else {
                old(chcr).value
            };
            let decoded = spec_decode_chcr(v, *old(transfer_state));
            &&& final(chcr).value == v
            &&& *final(transfer_state) == (TransferState {
                sync_mode: if decoded.started {
                    spec_initialize_sync_mode(decoded.sync_mode, madr, bcr)
                } else {
                    decoded.sync_mode
                },
                ..decoded
            })
        },
        old(chcr).latch == Some(LatchKind::Read) ==> final(chcr).value == old(chcr).value
            && *final(transfer_state) == *old(transfer_state),
        old(chcr).latch is None ==> *final(chcr) == *old(chcr) && *final(transfer_state) == *old(transfer_state),
{
    match chcr.acknowledge() {
        None => {},
        Some((value, LatchKind::Read)) => {
            chcr.update(value);
        },
        Some((value, LatchKind::Write)) => {
            let value = if channel_id == 6 {
                let mut otc_value: u32 = 0;
                otc_value = Bitfield::new(0, 1).insert_into(otc_value, 0);
                otc_value = Bitfield::new(1, 1).insert_into(otc_value, 1);
                otc_value = Bitfield::new(24, 1).copy(otc_value, value);
                otc_value = Bitfield::new(28, 1).copy(otc_value, value);
                otc_value = Bitfield::new(30, 1).copy(otc_value, value);
                proof {
                    lemma_otc_chcr_value(value);
                }
                otc_value
            } else {
                value
            };

            transfer_state.started = Bitfield::new(24, 1).extract_from(value) > 0;

            transfer_state.direction = if Bitfield::new(0, 1).extract_from(value) > 0 {
                TransferDirection::ToChannel
            } else {
                TransferDirection::FromChannel
            };

            transfer_state.step_direction = if Bitfield::new(1, 1).extract_from(value) > 0 {
                StepDirection::Backwards
            } else {
                StepDirection::Forwards
            };

            transfer_state.sync_mode = match Bitfield::new(9, 2).extract_from(value) {
                0 => SyncMode::Continuous(ContinuousState::new()),
                1 => SyncMode::Blocks(BlocksState::new()),
                _ => SyncMode::LinkedList(LinkedListState::new()),
            };

            if transfer_state.started {
                handle_transfer_initialization(transfer_state, madr, bcr);
            }

            chcr.update(value);
        },
    }
}

/// The ordering-table fix-up really is a mask-and-or of the written value.
proof fn lemma_otc_chcr_value(value: u32)
    by (bit_vector)
    ensures
        insert_bits(
            30,
            1,
            insert_bits(
                28,
                1,
                insert_bits(
                    24,
                    1,
                    insert_bits(1, 1, insert_bits(0, 1, 0u32, 0u32), 1u32),
                    extract_bits(24, 1, value),
                ),
                extract_bits(28, 1, value),
            ),
            extract_bits(30, 1, value),
        ) == spec_otc_chcr_value(value),
{
}


/// The interrupt-register word the controller state encodes to: master
/// enable at bit 23, per-channel enables at bits 16..23, per-channel flags
/// at bits 24..31, the master flag at bit 31.
pub open spec fn spec_dicr_value(cs: ControllerState) -> u32
    recommends
        cs.wf(),
{
    (if cs.master_interrupt_enabled {
        0x0080_0000u32
    } else {
        0u32
    }) | (if cs.transfer_states[0].interrupt_enabled {
        0x0001_0000u32
    } else {
        0u32
    }) | (if cs.transfer_states[1].interrupt_enabled {
        0x0002_0000u32
    } else {
        0u32
    }) | (if cs.transfer_states[2].interrupt_enabled {
        0x0004_0000u32
    } else {
        0u32
    }) | (if cs.transfer_states[3].interrupt_enabled {
        0x0008_0000u32
    } else {
        0u32
    }) | (if cs.transfer_states[4].interrupt_enabled {
        0x0010_0000u32
    } else {
        0u32
    }) | (if cs.transfer_states[5].interrupt_enabled {
        0x0020_0000u32
    } else {
        0u32
    }) | (if cs.transfer_states[6].interrupt_enabled {
        0x0040_0000u32
    } else {
        0u32
    }) | (if cs.transfer_states[0].interrupted {
        0x0100_0000u32
    } else {
        0u32
    }) | (if cs.transfer_states[1].interrupted {
        0x0200_0000u32
    } else {
        0u32
    }) | (if cs.transfer_states[2].interrupted {
        0x0400_0000u32
    } else {
        0u32
    }) | (if cs.transfer_states[3].interrupted {
        0x0800_0000u32
    } else {
        0u32
    }) | (if cs.transfer_states[4].interrupted {
        0x1000_0000u32
    } else {
        0u32
    }) | (if cs.transfer_states[5].interrupted {
        0x2000_0000u32
    } else {
        0u32
    }) | (if cs.transfer_states[6].interrupted {
        0x4000_0000u32
    } else {
        0u32
    }) | (if cs.master_interrupted {
        0x8000_0000u32
    } else {
        0u32
    })
}

/// Recomputes the interrupt-register word from the controller state.
pub fn calculate_dicr_value(cs: &ControllerState) -> (r: u32)
    requires
        cs.wf(),
    ensures
        r == spec_dicr_value(*cs),
{
    (if cs.master_interrupt_enabled {
        0x0080_0000u32
    } else {
        0u32
    }) | (if cs.transfer_states[0].interrupt_enabled {
        0x0001_0000u32
    } else {
        0u32
    }) | (if cs.transfer_states[1].interrupt_enabled {
        0x0002_0000u32
    } else {
        0u32
    }) | (if cs.transfer_states[2].interrupt_enabled {
        0x0004_0000u32
    } else {
        0u32
    }) | (if cs.transfer_states[3].interrupt_enabled {
        0x0008_0000u32
    } else {
        0u32
    }) | (if cs.transfer_states[4].interrupt_enabled {
        0x0010_0000u32
    } else {
        0u32
    }) | (if cs.transfer_states[5].interrupt_enabled {
        0x0020_0000u32
    } else {
        0u32
    }) | (if cs.transfer_states[6].interrupt_enabled {
        0x0040_0000u32
    } else {
        0u32
    }) | (if cs.transfer_states[0].interrupted {
        0x0100_0000u32
    } else {
        0u32
    }) | (if cs.transfer_states[1].interrupted {
        0x0200_0000u32
    } else {
        0u32
    }) | (if cs.transfer_states[2].interrupted {
        0x0400_0000u32
    } else {
        0u32
    }) | (if cs.transfer_states[3].interrupted {
        0x0800_0000u32
    } else {
        0u32
    }) | (if cs.transfer_states[4].interrupted {
        0x1000_0000u32
    } else {
        0u32
    }) | (if cs.transfer_states[5].interrupted {
        0x2000_0000u32
    } else {
        0u32
    }) | (if cs.transfer_states[6].interrupted {
        0x4000_0000u32
    } else {
        0u32
    }) | (if cs.master_interrupted {
        0x8000_0000u32
    } else {
        0u32
    })
}

/// What an interrupt-register write does to one channel: the enable bit is
/// copied in, and a one written to the channel's flag bit clears its
/// interrupted flag (write-one-to-acknowledge).
pub open spec fn spec_dicr_apply_channel(ts: TransferState, value: u32, ch: int) -> TransferState {
    TransferState {
        interrupt_enabled: extract_bits((16 + ch) as u32, 1, value) > 0,
        interrupted: ts.interrupted && !(extract_bits((24 + ch) as u32, 1, value) > 0),
        ..ts
    }
}

/// Acknowledges an interrupt-register access. A read keeps the stored
/// value; a write copies the master and per-channel enables in, clears the
/// interrupted flags whose acknowledge bits are written one, and stores the
/// recomputed register word.
pub fn handle_dicr(dicr: &mut B32EdgeRegister, cs: &mut ControllerState)
    requires
        old(cs).wf(),
        old(dicr).latch == Some(LatchKind::Write) ==> extract_bits(15, 1, old(dicr).value) == 0,
    ensures
        final(cs).wf(),
        !final(dicr).pending(),
        old(dicr).latch == Some(LatchKind::Write) ==> {
            &&& final(cs).master_interrupt_enabled == (extract_bits(23, 1, old(dicr).value) > 0)
            &&& final(cs).master_interrupted == old(cs).master_interrupted
            &&& final(cs).cooloff_runs == old(cs).cooloff_runs
            &&& forall|ch: int|
                0 <= ch < spec_channel_count() ==> final(cs).transfer_states[ch]
                    == spec_dicr_apply_channel(old(cs).transfer_states[ch], old(dicr).value, ch)
            &&& final(dicr).value == spec_dicr_value(*final(cs))
        },
        old(dicr).latch == Some(LatchKind::Read) ==> final(dicr).value == old(dicr).value && *final(cs) == *old(cs),
        old(dicr).latch is None ==> *final(dicr) == *old(dicr) && *final(cs) == *old(cs),
{
    match dicr.acknowledge() {
        None => {},
        Some((value, LatchKind::Read)) => {
            dicr.update(value);
        },
        Some((value, LatchKind::Write)) => {
            cs.master_interrupt_enabled = Bitfield::new(23, 1).extract_from(value) > 0;
            let mut i: usize = 0;
            while i < 7
                invariant
                    i <= 7,
                    cs.wf(),
                    value == old(dicr).value,
                    cs.master_interrupt_enabled == (extract_bits(23, 1, value) > 0),
                    cs.master_interrupted == old(cs).master_interrupted,
                    cs.cooloff_runs == old(cs).cooloff_runs,
                    forall|ch: int|
                        0 <= ch < i ==> cs.transfer_states[ch] == spec_dicr_apply_channel(
                            old(cs).transfer_states[ch],
                            value,
                            ch,
                        ),
                    forall|ch: int|
                        i <= ch < spec_channel_count() ==> cs.transfer_states[ch] == old(cs).transfer_states[ch],
                decreases 7 - i,
            {
                let mut ts = cs.transfer_states[i];
                ts.interrupt_enabled = Bitfield::new(16 + i as u32, 1).extract_from(value) > 0;
                if Bitfield::new(24 + i as u32, 1).extract_from(value) > 0 {
                    ts.interrupted = false;
                }
                cs.transfer_states.set(i, ts);
                i += 1;
            }
            let new_value = calculate_dicr_value(cs);
            dicr.update(new_value);
        },
    }
}

/// Some channel has both its enable and its flag bit set in the
/// interrupt-register word.
pub open spec fn spec_dicr_channel_irq(v: u32) -> bool {
    ||| (v & 0x0001_0000u32 != 0 && v & 0x0100_0000u32 != 0)
    ||| (v & 0x0002_0000u32 != 0 && v & 0x0200_0000u32 != 0)
    ||| (v & 0x0004_0000u32 != 0 && v & 0x0400_0000u32 != 0)
    ||| (v & 0x0008_0000u32 != 0 && v & 0x0800_0000u32 != 0)
    ||| (v & 0x0010_0000u32 != 0 && v & 0x1000_0000u32 != 0)
    ||| (v & 0x0020_0000u32 != 0 && v & 0x2000_0000u32 != 0)
    ||| (v & 0x0040_0000u32 != 0 && v & 0x4000_0000u32 != 0)
}

/// The master interrupt condition: the force bit, or the master enable
/// together with some enabled channel's flag.
pub open spec fn spec_dicr_irq_trigger(v: u32) -> bool {
    ||| v & 0x8000u32 != 0
    ||| (v & 0x0080_0000u32 != 0 && spec_dicr_channel_irq(v))
}

/// Recomputes the master interrupt flag from the interrupt-register word.
/// On the flag's rising edge the controller's line on the interrupt
/// controller is asserted; while the condition stays down the flag is held
/// clear, and nothing else changes.
pub fn handle_irq_check(dicr: &mut B32EdgeRegister, stat: &mut Stat)
    ensures
        final(dicr).latch == old(dicr).latch,
        spec_dicr_irq_trigger(old(dicr).value) && old(dicr).value & 0x8000_0000u32 == 0 ==> final(dicr).value == old(dicr).value | 0x8000_0000u32 && *final(stat) == old(stat).spec_assert_line(
            Line::Dma,
        ),
        spec_dicr_irq_trigger(old(dicr).value) && old(dicr).value & 0x8000_0000u32 != 0 ==> final(dicr).value == old(dicr).value && *final(stat) == *old(stat),
        !spec_dicr_irq_trigger(old(dicr).value) ==> final(dicr).value == old(dicr).value
            & !0x8000_0000u32 && *final(stat) == *old(stat),
{
    let value = dicr.read_direct();

    let force_irq = value & 0x8000u32 != 0;

    let master_enable = value & 0x0080_0000u32 != 0;
    let channel_irq = master_enable && ((value & 0x0001_0000u32 != 0 && value & 0x0100_0000u32 != 0)
        || (value & 0x0002_0000u32 != 0 && value & 0x0200_0000u32 != 0) || (value & 0x0004_0000u32
        != 0 && value & 0x0400_0000u32 != 0) || (value & 0x0008_0000u32 != 0 && value
        & 0x0800_0000u32 != 0) || (value & 0x0010_0000u32 != 0 && value & 0x1000_0000u32 != 0) || (
    value & 0x0020_0000u32 != 0 && value & 0x2000_0000u32 != 0) || (value & 0x0040_0000u32 != 0
        && value & 0x4000_0000u32 != 0));

    if force_irq || channel_irq {
        if value & 0x8000_0000u32 == 0 {
            dicr.update(value | 0x8000_0000u32);
            stat.assert_line(Line::Dma);
        }
    } else {
        dicr.update(value & !0x8000_0000u32);
    }
}

/// The round invariant of the ordering-table channel: once the first
/// slice has run, the cleared-word count only grows, stays within the
/// table, and the started flag tracks completion.
pub open spec fn spec_otc_invariant(
    base: TransferState,
    now: TransferState,
    ticks: u64,
    ram_len: int,
    dpcr: u32,
) -> bool {
    (ticks >= 32 && extract_bits(27, 1, dpcr) == 1 && base.started && (
    base.sync_mode matches SyncMode::Continuous(st) && st.current_count <= st.target_count
        && st.target_count - st.current_count <= 0x4000_0000 && st.current_address + 4 * (
    st.target_count - st.current_count) <= ram_len)) ==> ({
        let st = base.sync_mode->Continuous_0;
        let first = spec_min(16, st.target_count - st.current_count);
        &&& now.sync_mode matches SyncMode::Continuous(_)
        &&& spec_otc_progress(now) >= st.current_count + first
        &&& spec_otc_progress(now) <= st.target_count
        &&& now.sync_mode->Continuous_0.target_count == st.target_count
        &&& now.sync_mode->Continuous_0.current_address == st.current_address + 4 * (
        spec_otc_progress(now) - st.current_count)
        &&& now.started == (spec_otc_progress(now) < st.target_count)
        &&& (spec_otc_progress(now) == st.target_count ==> now.interrupted)
    })
}

/// The words an ordering-table channel has cleared so far, for the round
/// contract.
pub open spec fn spec_otc_progress(ts: TransferState) -> int {
    match ts.sync_mode {
        SyncMode::Continuous(st) => st.current_count as int,
        _ => 0,
    }
}

/// Some channel's transfer is running.
pub open spec fn spec_any_channel_started(cs: ControllerState) -> bool {
    exists|i: int| 0 <= i < spec_channel_count() && cs.transfer_states[i].started
}

/// Acquires the bus lock when any channel is in progress; otherwise
/// leaves the lock alone.
pub fn handle_bus_lock(cs: &ControllerState, bus_locked: &mut bool)
    requires
        cs.wf(),
    ensures
        spec_any_channel_started(*cs) ==> *final(bus_locked),
        !spec_any_channel_started(*cs) ==> *final(bus_locked) == *old(bus_locked),
{
    let mut i: usize = 0;
    while i < 7
        invariant
            i <= 7,
            cs.wf(),
            forall|j: int| 0 <= j < i ==> !cs.transfer_states[j].started,
            *bus_locked == *old(bus_locked),
        decreases 7 - i,
    {
        if cs.transfer_states[i].started {
            *bus_locked = true;
            return ;
        }
        i += 1;
    }
}

/// Releases the bus lock once every channel is finished; otherwise leaves
/// the lock alone.
pub fn handle_bus_unlock(cs: &ControllerState, bus_locked: &mut bool)
    requires
        cs.wf(),
    ensures
        !spec_any_channel_started(*cs) ==> !*final(bus_locked),
        spec_any_channel_started(*cs) ==> *final(bus_locked) == *old(bus_locked),
{
    let mut i: usize = 0;
    while i < 7
        invariant
            i <= 7,
            cs.wf(),
            forall|j: int| 0 <= j < i ==> !cs.transfer_states[j].started,
            *bus_locked == *old(bus_locked),
        decreases 7 - i,
    {
        if cs.transfer_states[i].started {
            return ;
        }
        i += 1;
    }
    *bus_locked = false;
}


/// The smaller of two integers.
pub open spec fn spec_min(a: int, b: int) -> int {
    if a <= b {
        a
    } else {
        b
    }
}

/// The address of the `k`-th word of an ordering-table clear that began at
/// `base`.
pub open spec fn otc_addr(base: int, k: int) -> int {
    base + 4 * k
}

/// The value the ordering-table clear writes at `addr`: the list terminator
/// for the final entry, otherwise a link to the entry one word up.
pub open spec fn spec_otc_word(addr: u32, last: bool) -> u32 {
    if last {
        0x00FF_FFFFu32
    } else {
        (addr + 4) as u32
    }
}

/// Runs the ordering-table clear for up to `limit` words: each written word
/// links to the next word up, and the final word of the table holds the
/// terminator.
pub fn otc_transfer(ram: &mut B8Memory, st: &mut ContinuousState, limit: usize) -> (words: usize)
    requires
        old(st).current_count <= old(st).target_count,
        old(st).current_address + 4 * (old(st).target_count - old(st).current_count) <= old(ram).view().len(),
        old(ram).view().len() <= 0xFFFF_FFFF,
    ensures
        words == spec_min(limit as int, old(st).target_count - old(st).current_count),
        final(st).target_count == old(st).target_count,
        final(st).current_count == old(st).current_count + words,
        final(st).current_address == old(st).current_address + 4 * words,
        final(ram).view().len() == old(ram).view().len(),
        forall|k: int|
            0 <= k < words ==> #[trigger] word_at(
                final(ram).view(),
                otc_addr(old(st).current_address as int, k),
            ) == spec_otc_word(
                otc_addr(old(st).current_address as int, k) as u32,
                old(st).current_count + k + 1 == old(st).target_count,
            ),
        forall|i: int|
            0 <= i < old(ram).view().len() && !(old(st).current_address <= i < old(st).current_address + 4 * words) ==> final(ram).view()[i] == old(ram).view()[i],
{
    let mut words: usize = 0;
    while words < limit && st.current_count < st.target_count
        invariant
            st.target_count == old(st).target_count,
            st.current_count == old(st).current_count + words,
            st.current_count <= st.target_count,
            st.current_address == old(st).current_address + 4 * words,
            st.current_address + 4 * (st.target_count - st.current_count) <= ram.view().len(),
            ram.view().len() == old(ram).view().len(),
            ram.view().len() <= 0xFFFF_FFFF,
            words <= limit,
            words < limit ==> st.current_count <= st.target_count,
            forall|k: int|
                0 <= k < words ==> #[trigger] word_at(
                    ram.view(),
                    otc_addr(old(st).current_address as int, k),
                ) == spec_otc_word(
                    otc_addr(old(st).current_address as int, k) as u32,
                    old(st).current_count + k + 1 == old(st).target_count,
                ),
            forall|i: int|
                0 <= i < old(ram).view().len() && !(old(st).current_address <= i < old(st).current_address + 4 * words) ==> ram.view()[i] == old(ram).view()[i],
        decreases limit - words,
    {
        let addr = st.current_address;
        let value: u32 = if st.current_count + 1 == st.target_count {
            0x00FF_FFFF
        } else {
            addr + 4
        };
        let ghost prev = ram.view();
        let ghost base = old(st).current_address as int;
        ram.write_u32(addr, value);
        proof {
            assert forall|k: int|
                0 <= k < words implies #[trigger] word_at(ram.view(), otc_addr(base, k)) == word_at(
                prev,
                otc_addr(base, k),
            ) by {
                assert(ram.view()[otc_addr(base, k)] == prev[otc_addr(base, k)]);
                assert(ram.view()[otc_addr(base, k) + 1] == prev[otc_addr(base, k) + 1]);
                assert(ram.view()[otc_addr(base, k) + 2] == prev[otc_addr(base, k) + 2]);
                assert(ram.view()[otc_addr(base, k) + 3] == prev[otc_addr(base, k) + 3]);
            }
            assert(word_at(ram.view(), otc_addr(base, words as int)) == value);
        }
        st.current_address = addr + 4;
        st.current_count = st.current_count + 1;
        words += 1;
    }
    words
}

/// The link field of the header word at `h`: its low 24 bits.
pub open spec fn spec_header_next(mem: Seq<u8>, h: u32) -> u32 {
    word_at(mem, h as int) & 0x00FF_FFFFu32
}

/// The payload word count of the header at `h`: its high 8 bits.
pub open spec fn spec_header_words(mem: Seq<u8>, h: u32) -> int {
    (word_at(mem, h as int) >> 24u32) as int
}

/// The 24-bit link value that terminates a list.
pub open spec fn spec_ll_sentinel() -> u32 {
    0x00FF_FFFFu32
}

/// Processes one linked-list header: pushes its payload words into the
/// peripheral FIFO and advances to the linked header, stopping the channel
/// when the link is the terminator. The comparison is on the unsigned
/// 24-bit link field, so a full-word terminator is recognised too.
pub fn linked_list_transfer(ram: &B8Memory, fifo: &mut Fifo<u32>, ts: &mut TransferState)
    requires
        old(fifo).wf(),
        old(ts).started,
        old(ts).sync_mode matches SyncMode::LinkedList(ll) && ll.current_header_address + 4
            <= ram.view().len() && ll.current_header_address + 4 + 4 * spec_header_words(
            ram.view(),
            ll.current_header_address,
        ) <= ram.view().len(),
        old(ts).sync_mode matches SyncMode::LinkedList(ll) && old(fifo).contents().len()
            + spec_header_words(ram.view(), ll.current_header_address) <= old(fifo).capacity(),
        ram.view().len() <= 0xFFFF_FFFF,
    ensures
        final(fifo).wf(),
        final(fifo).capacity() == old(fifo).capacity(),
        old(ts).sync_mode matches SyncMode::LinkedList(ll) ==> {
            let h = ll.current_header_address;
            let count = spec_header_words(ram.view(), h);
            let next = spec_header_next(ram.view(), h);
            &&& final(fifo).contents() == old(fifo).contents() + Seq::new(
                count as nat,
                |k: int| word_at(ram.view(), h + 4 + 4 * k),
            )
            &&& final(ts).sync_mode == SyncMode::LinkedList(
                LinkedListState {
                    current_header_address: next,
                    next_header_address: next,
                    target_count: count as usize,
                    current_count: count as usize,
                },
            )
            &&& final(ts).started == (next != spec_ll_sentinel())
            &&& final(ts).interrupted == (old(ts).interrupted || next == spec_ll_sentinel())
            &&& final(ts).direction == old(ts).direction
            &&& final(ts).step_direction == old(ts).step_direction
            &&& final(ts).interrupt_enabled == old(ts).interrupt_enabled
        },
{
    match ts.sync_mode {
        SyncMode::LinkedList(ll) => {
            let h = ll.current_header_address;
            let header = ram.read_u32(h);
            let count = (header >> 24u32) as usize;
            let next = header & 0x00FF_FFFF;
            let ghost target = Seq::new(count as nat, |k: int| word_at(ram.view(), h + 4 + 4 * k));
            let mut k: usize = 0;
            while k < count
                invariant
                    fifo.wf(),
                    fifo.capacity() == old(fifo).capacity(),
                    k <= count,
                    h + 4 + 4 * count <= ram.view().len(),
                    ram.view().len() <= 0xFFFF_FFFF,
                    old(fifo).contents().len() + count <= old(fifo).capacity(),
                    count == spec_header_words(ram.view(), h),
                    target == Seq::new(count as nat, |j: int| word_at(ram.view(), h + 4 + 4 * j)),
                    fifo.contents() == old(fifo).contents() + target.take(k as int),
                decreases count - k,
            {
                let w = ram.read_u32(h + 4 + 4 * (k as u32));
                let _ = fifo.write_one(w);
                proof {
                    assert(fifo.contents() =~= old(fifo).contents() + target.take(k + 1));
                }
                k += 1;
            }
            proof {
                assert(fifo.contents() =~= old(fifo).contents() + target);
            }
            if next == 0x00FF_FFFF {
                ts.started = false;
                ts.interrupted = true;
            }
            ts.sync_mode = SyncMode::LinkedList(
                LinkedListState {
                    current_header_address: next,
                    next_header_address: next,
                    target_count: count,
                    current_count: count,
                },
            );
        },
        _ => {},
    }
}


/// A well-formed linked list laid out in memory: each header links to the
/// next one, only the last link is the terminator, and every header lies
/// inside memory.
pub open spec fn chain_wf(mem: Seq<u8>, hs: Seq<u32>) -> bool {
    &&& hs.len() >= 1
    &&& forall|i: int| 0 <= i < hs.len() ==> #[trigger] hs[i] + 4 <= mem.len()
    &&& forall|i: int| 0 <= i < hs.len() - 1 ==> #[trigger] spec_header_next(mem, hs[i]) == hs[i + 1]
    &&& forall|i: int| 1 <= i < hs.len() ==> #[trigger] hs[i] != spec_ll_sentinel()
    &&& spec_header_next(mem, hs[hs.len() - 1]) == spec_ll_sentinel()
}

/// The total payload of a list: the sum of its headers' word counts.
pub open spec fn chain_total_words(mem: Seq<u8>, hs: Seq<u32>) -> int
    decreases hs.len(),
{
    if hs.len() == 0 {
        0
    } else {
        spec_header_words(mem, hs[0]) + chain_total_words(mem, hs.drop_first())
    }
}

/// The words transferred by `steps` repetitions of the per-header transfer
/// step, starting from the header at `h`. This is the transition that
/// `linked_list_transfer` is specified to take, iterated.
pub open spec fn spec_ll_run_words(mem: Seq<u8>, h: u32, steps: nat) -> int
    decreases steps,
{
    if steps == 0 {
        0
    } else if spec_header_next(mem, h) == spec_ll_sentinel() {
        spec_header_words(mem, h)
    } else {
        spec_header_words(mem, h) + spec_ll_run_words(
            mem,
            spec_header_next(mem, h),
            (steps - 1) as nat,
        )
    }
}

/// Whether `steps` repetitions of the per-header transfer step, starting
/// from the header at `h`, reach the terminator and stop the channel.
pub open spec fn spec_ll_run_halts(mem: Seq<u8>, h: u32, steps: nat) -> bool
    decreases steps,
{
    if steps == 0 {
        false
    } else if spec_header_next(mem, h) == spec_ll_sentinel() {
        true
    } else {
        spec_ll_run_halts(mem, spec_header_next(mem, h), (steps - 1) as nat)
    }
}

/// Linked-list termination: for a well-formed list of `k` headers ending in
/// the terminator, `k` repetitions of the per-header transfer step starting
/// at the first header transfer exactly the sum of the headers' word counts
/// and halt the channel. Each repetition is what one call of
/// `linked_list_transfer` performs.
pub proof fn lemma_linked_list_termination(mem: Seq<u8>, hs: Seq<u32>)
    requires
        chain_wf(mem, hs),
    ensures
        spec_ll_run_halts(mem, hs[0], hs.len()),
        spec_ll_run_words(mem, hs[0], hs.len()) == chain_total_words(mem, hs),
    decreases hs.len(),
{
    if hs.len() == 1 {
        assert(chain_total_words(mem, hs.drop_first()) == 0);
    } else {
        let tl = hs.drop_first();
        assert(hs.len() >= 2);
        let i0: int = 0;
        assert(0 <= i0 < hs.len() - 1);
        assert(spec_header_next(mem, hs[i0]) == hs[i0 + 1]);
        assert(hs[i0 + 1] != spec_ll_sentinel());
        assert(chain_wf(mem, tl)) by {
            assert forall|i: int| 0 <= i < tl.len() implies #[trigger] tl[i] + 4 <= mem.len() by {
                assert(tl[i] == hs[i + 1]);
            }
            assert forall|i: int|
                0 <= i < tl.len() - 1 implies #[trigger] spec_header_next(mem, tl[i]) == tl[i + 1] by {
                assert(tl[i] == hs[i + 1]);
                assert(tl[i + 1] == hs[i + 2]);
            }
            assert forall|i: int| 1 <= i < tl.len() implies #[trigger] tl[i] != spec_ll_sentinel() by {
                assert(tl[i] == hs[i + 1]);
            }
            assert(tl[tl.len() - 1] == hs[hs.len() - 1]);
        }
        lemma_linked_list_termination(mem, tl);
        assert(tl[0] == hs[1]);
    }
}

/// Moves one word from memory into a word FIFO. Nothing happens on a full
/// FIFO; the caller re-polls next tick.
pub fn move_word_ram_to_fifo32(ram: &B8Memory, fifo: &mut Fifo<u32>, addr: u32) -> (moved: bool)
    requires
        old(fifo).wf(),
        addr + 4 <= ram.view().len(),
    ensures
        final(fifo).wf(),
        final(fifo).capacity() == old(fifo).capacity(),
        moved == (old(fifo).contents().len() < old(fifo).capacity()),
        moved ==> final(fifo).contents() == old(fifo).contents().push(
            word_at(ram.view(), addr as int),
        ),
        !moved ==> final(fifo).contents() == old(fifo).contents(),
{
    if fifo.write_available() == 0 {
        return false;
    }
    let w = ram.read_u32(addr);
    let _ = fifo.write_one(w);
    true
}

/// Moves one word from a word FIFO into memory. Nothing happens on an
/// empty FIFO.
pub fn move_word_fifo32_to_ram(ram: &mut B8Memory, fifo: &mut Fifo<u32>, addr: u32) -> (moved:
    bool)
    requires
        old(fifo).wf(),
        addr + 4 <= old(ram).view().len(),
    ensures
        final(fifo).wf(),
        final(fifo).capacity() == old(fifo).capacity(),
        final(ram).view().len() == old(ram).view().len(),
        moved == (old(fifo).contents().len() > 0),
        moved ==> final(fifo).contents() == old(fifo).contents().drop_first() && word_at(
            final(ram).view(),
            addr as int,
        ) == old(fifo).contents()[0] && (forall|i: int|
            0 <= i < old(ram).view().len() && !(addr <= i < addr + 4) ==> final(ram).view()[i]
                == old(ram).view()[i]),
        !moved ==> final(fifo).contents() == old(fifo).contents() && final(ram).view() == old(ram).view(),
{
    match fifo.read_one() {
        Ok(w) => {
            ram.write_u32(addr, w);
            true
        },
        Err(()) => false,
    }
}

/// Moves one word from a byte FIFO into memory, assembling four queued
/// bytes low byte first. Nothing happens unless four bytes are queued.
pub fn move_word_fifo8_to_ram(ram: &mut B8Memory, fifo: &mut Fifo<u8>, addr: u32) -> (moved: bool)
    requires
        old(fifo).wf(),
        addr + 4 <= old(ram).view().len(),
    ensures
        final(fifo).wf(),
        final(fifo).capacity() == old(fifo).capacity(),
        final(ram).view().len() == old(ram).view().len(),
        moved == (old(fifo).contents().len() >= 4),
        moved ==> final(fifo).contents() == old(fifo).contents().subrange(
            4,
            old(fifo).contents().len() as int,
        ) && word_at(final(ram).view(), addr as int) == word_from_bytes(
            old(fifo).contents()[0],
            old(fifo).contents()[1],
            old(fifo).contents()[2],
            old(fifo).contents()[3],
        ) && (forall|i: int|
            0 <= i < old(ram).view().len() && !(addr <= i < addr + 4) ==> final(ram).view()[i]
                == old(ram).view()[i]),
        !moved ==> final(fifo).contents() == old(fifo).contents() && final(ram).view() == old(ram).view(),
{
    if fifo.read_available() < 4 {
        return false;
    }
    let b0 = match fifo.read_one() {
        Ok(b) => b,
        Err(()) => 0,
    };
    let b1 = match fifo.read_one() {
        Ok(b) => b,
        Err(()) => 0,
    };
    let b2 = match fifo.read_one() {
        Ok(b) => b,
        Err(()) => 0,
    };
    let b3 = match fifo.read_one() {
        Ok(b) => b,
        Err(()) => 0,
    };
    let w = (b0 as u32) | ((b1 as u32) << 8u32) | ((b2 as u32) << 16u32) | ((b3 as u32) << 24u32);
    ram.write_u32(addr, w);
    proof {
        assert(final(fifo).contents() =~= old(fifo).contents().subrange(
            4,
            old(fifo).contents().len() as int,
        ));
    }
    true
}

/// Moves one word from memory into a halfword FIFO, low half first.
/// Nothing happens unless the FIFO has room for both halves.
pub fn move_word_ram_to_fifo16(ram: &B8Memory, fifo: &mut Fifo<u16>, addr: u32) -> (moved: bool)
    requires
        old(fifo).wf(),
        addr + 4 <= ram.view().len(),
    ensures
        final(fifo).wf(),
        final(fifo).capacity() == old(fifo).capacity(),
        moved == (old(fifo).contents().len() + 2 <= old(fifo).capacity()),
        moved ==> final(fifo).contents() == old(fifo).contents().push(
            (word_at(ram.view(), addr as int) & 0xFFFFu32) as u16,
        ).push(((word_at(ram.view(), addr as int) >> 16u32) & 0xFFFFu32) as u16),
        !moved ==> final(fifo).contents() == old(fifo).contents(),
{
    if fifo.write_available() < 2 {
        return false;
    }
    let w = ram.read_u32(addr);
    let _ = fifo.write_one((w & 0xFFFF) as u16);
    let _ = fifo.write_one(((w >> 16u32) & 0xFFFF) as u16);
    true
}

/// Advances a continuous transfer by one word; reports completion.
pub fn advance_continuous(st: &mut ContinuousState, step: StepDirection) -> (done: bool)
    requires
        old(st).current_count < old(st).target_count,
        step == StepDirection::Forwards ==> old(st).current_address + 4 <= 0xFFFF_FFFF,
        step == StepDirection::Backwards ==> old(st).current_address >= 4,
    ensures
        final(st).target_count == old(st).target_count,
        final(st).current_count == old(st).current_count + 1,
        step == StepDirection::Forwards ==> final(st).current_address == old(st).current_address
            + 4,
        step == StepDirection::Backwards ==> final(st).current_address == old(st).current_address
            - 4,
        done == (old(st).current_count + 1 == old(st).target_count),
{
    st.current_address = match step {
        StepDirection::Forwards => st.current_address + 4,
        StepDirection::Backwards => st.current_address - 4,
    };
    st.current_count = st.current_count + 1;
    st.current_count == st.target_count
}

/// Advances a blocks transfer by one word, rolling the word counter into
/// the block counter at each block boundary; reports completion of the
/// whole transfer.
pub fn advance_blocks(st: &mut BlocksState, step: StepDirection) -> (done: bool)
    requires
        old(st).current_bsize_count < old(st).target_bsize_count,
        old(st).current_bamount_count < old(st).target_bamount_count,
        step == StepDirection::Forwards ==> old(st).current_address + 4 <= 0xFFFF_FFFF,
        step == StepDirection::Backwards ==> old(st).current_address >= 4,
    ensures
        final(st).target_bsize_count == old(st).target_bsize_count,
        final(st).target_bamount_count == old(st).target_bamount_count,
        step == StepDirection::Forwards ==> final(st).current_address == old(st).current_address
            + 4,
        step == StepDirection::Backwards ==> final(st).current_address == old(st).current_address
            - 4,
        old(st).current_bsize_count + 1 < old(st).target_bsize_count ==> final(st).current_bsize_count == old(st).current_bsize_count + 1 && final(st).current_bamount_count
            == old(st).current_bamount_count,
        old(st).current_bsize_count + 1 == old(st).target_bsize_count ==> final(st).current_bsize_count == 0 && final(st).current_bamount_count == old(st).current_bamount_count + 1,
        done == (old(st).current_bsize_count + 1 == old(st).target_bsize_count && old(st).current_bamount_count + 1 == old(st).target_bamount_count),
{
    st.current_address = match step {
        StepDirection::Forwards => st.current_address + 4,
        StepDirection::Backwards => st.current_address - 4,
    };
    st.current_bsize_count = st.current_bsize_count + 1;
    if st.current_bsize_count == st.target_bsize_count {
        st.current_bsize_count = 0;
        st.current_bamount_count = st.current_bamount_count + 1;
        st.current_bamount_count == st.target_bamount_count
    } else {
        false
    }
}


/// Every pending channel-control write decodes to an applicable transfer
/// state, and no pending interrupt-register write forces an interrupt.
pub open spec fn spec_register_writes_ok(state: State, cs: ControllerState) -> bool
    recommends
        state.wf(),
        cs.wf(),
{
    &&& forall|ch: int|
        0 <= ch < spec_channel_count() ==> spec_chcr_write_ok(
            #[trigger] state.channels[ch].chcr,
            cs.transfer_states[ch],
            ch,
        )
    &&& (state.dicr.latch == Some(LatchKind::Write) ==> extract_bits(15, 1, state.dicr.value) == 0)
}


/// What a pending interrupt-register write does to one channel's state;
/// no pending write changes nothing.
pub open spec fn spec_dicr_channel_effect(
    dicr: B32EdgeRegister,
    ts: TransferState,
    ch: int,
) -> TransferState {
    if dicr.latch == Some(LatchKind::Write) {
        spec_dicr_apply_channel(ts, dicr.value, ch)
    } else {
        ts
    }
}

/// What a pending channel-control write does to the channel's transfer
/// state: the decoded control word, with the progress state loaded from
/// the address and block-control registers when the start bit is set; no
/// pending write changes nothing.
pub open spec fn spec_chcr_effect(
    chcr: B32EdgeRegister,
    ts: TransferState,
    ch: int,
    madr: u32,
    bcr: u32,
) -> TransferState {
    if chcr.latch == Some(LatchKind::Write) {
        let v = if ch == 6 {
            spec_otc_chcr_value(chcr.value)
        } else {
            chcr.value
        };
        let decoded = spec_decode_chcr(v, ts);
        TransferState {
            sync_mode: if decoded.started {
                spec_initialize_sync_mode(decoded.sync_mode, madr, bcr)
            } else {
                decoded.sync_mode
            },
            ..decoded
        }
    } else {
        ts
    }
}

/// Applies every pending guest register write: the interrupt register and
/// each channel's control register.
pub fn handle_register_writes(state: &mut State, cs: &mut ControllerState)
    requires
        old(state).wf(),
        old(cs).wf(),
        spec_register_writes_ok(*old(state), *old(cs)),
    ensures
        final(state).wf(),
        final(cs).wf(),
        final(state).dpcr == old(state).dpcr,
        forall|ch: int|
            0 <= ch < spec_channel_count() ==> !(#[trigger] final(state).channels[ch].chcr).pending(),
        !final(state).dicr.pending(),
        final(cs).master_interrupted == old(cs).master_interrupted,
        final(cs).cooloff_runs == old(cs).cooloff_runs,
        forall|ch: int|
            0 <= ch < spec_channel_count() ==> final(cs).transfer_states[ch] == spec_chcr_effect(
                old(state).channels[ch].chcr,
                spec_dicr_channel_effect(
                    old(state).dicr,
                    #[trigger] old(cs).transfer_states[ch],
                    ch,
                ),
                ch,
                old(state).channels[ch].madr.value,
                old(state).channels[ch].bcr.value,
            ),
        old(state).dicr.latch == Some(LatchKind::Write) ==> final(cs).master_interrupt_enabled == (
        extract_bits(23, 1, old(state).dicr.value) > 0),
        old(state).dicr.latch != Some(LatchKind::Write) ==> final(cs).master_interrupt_enabled
            == old(cs).master_interrupt_enabled,
{
    handle_dicr(&mut state.dicr, cs);
    proof {
        match old(state).dicr.latch {
            Some(LatchKind::Write) => {
                assert(old(state).dicr.latch == Some(LatchKind::Write));
            },
            Some(LatchKind::Read) => {
                assert(old(state).dicr.latch == Some(LatchKind::Read));
                assert(*cs == *old(cs));
            },
            None => {
                assert(*cs == *old(cs));
            },
        }
        assert(cs.master_interrupted == old(cs).master_interrupted);
        assert(cs.cooloff_runs == old(cs).cooloff_runs);
        assert forall|ch: int|
            0 <= ch < spec_channel_count() implies spec_chcr_write_ok(
            #[trigger] state.channels[ch].chcr,
            cs.transfer_states[ch],
            ch,
        ) by {
            assert(spec_chcr_write_ok(state.channels[ch].chcr, old(cs).transfer_states[ch], ch));
            match old(state).dicr.latch {
                Some(LatchKind::Write) => {
                    assert(old(state).dicr.latch == Some(LatchKind::Write));
                    assert(cs.transfer_states[ch] == spec_dicr_apply_channel(
                        old(cs).transfer_states[ch],
                        old(state).dicr.value,
                        ch,
                    ));
                },
                Some(LatchKind::Read) => {
                    assert(old(state).dicr.latch == Some(LatchKind::Read));
                    assert(cs.transfer_states[ch] == old(cs).transfer_states[ch]);
                },
                None => {
                    assert(cs.transfer_states[ch] == old(cs).transfer_states[ch]);
                },
            }
            assert(cs.transfer_states[ch].started == old(cs).transfer_states[ch].started);
        }
    }
    let mut ch: usize = 0;
    while ch < 7
        invariant
            ch <= 7,
            state.wf(),
            cs.wf(),
            state.dpcr == old(state).dpcr,
            forall|i: int|
                ch <= i < spec_channel_count() ==> spec_chcr_write_ok(
                    #[trigger] state.channels[i].chcr,
                    cs.transfer_states[i],
                    i,
                ),
            forall|i: int| 0 <= i < ch ==> !(#[trigger] state.channels[i].chcr).pending(),
            !state.dicr.pending(),
            cs.master_interrupted == old(cs).master_interrupted,
            cs.cooloff_runs == old(cs).cooloff_runs,
            cs.master_interrupt_enabled == (if old(state).dicr.latch == Some(LatchKind::Write) {
                extract_bits(23, 1, old(state).dicr.value) > 0
            } else {
                old(cs).master_interrupt_enabled
            }),
            forall|i: int|
                0 <= i < ch ==> #[trigger] cs.transfer_states[i] == spec_chcr_effect(
                    old(state).channels[i].chcr,
                    spec_dicr_channel_effect(old(state).dicr, old(cs).transfer_states[i], i),
                    i,
                    old(state).channels[i].madr.value,
                    old(state).channels[i].bcr.value,
                ),
            forall|i: int|
                ch <= i < spec_channel_count() ==> #[trigger] cs.transfer_states[i]
                    == spec_dicr_channel_effect(old(state).dicr, old(cs).transfer_states[i], i),
            forall|i: int|
                0 <= i < spec_channel_count() ==> #[trigger] state.channels[i].chcr == old(state).channels[i].chcr || !state.channels[i].chcr.pending(),
            forall|i: int|
                ch <= i < spec_channel_count() ==> #[trigger] state.channels[i] == old(state).channels[i],
        decreases 7 - ch,
    {
        let madr = state.channels[ch].madr.read_u32();
        let bcr = state.channels[ch].bcr.read_u32();
        let mut regs = ChannelRegisters {
            madr: state.channels[ch].madr,
            bcr: state.channels[ch].bcr,
            chcr: state.channels[ch].chcr,
        };
        let ghost pre_ts = cs.transfer_states[ch as int];
        let mut ts = cs.transfer_states[ch];
        handle_chcr(&mut regs.chcr, &mut ts, ch, madr, bcr);
        proof {
            match old(state).channels[ch as int].chcr.latch {
                Some(LatchKind::Write) => {
                    assert(old(state).channels[ch as int].chcr.latch == Some(LatchKind::Write));
                    assert(ts == spec_chcr_effect(
                        old(state).channels[ch as int].chcr,
                        pre_ts,
                        ch as int,
                        madr,
                        bcr,
                    ));
                },
                Some(LatchKind::Read) => {
                    assert(old(state).channels[ch as int].chcr.latch == Some(LatchKind::Read));
                    assert(ts == pre_ts);
                },
                None => {
                    assert(ts == pre_ts);
                },
            }
        }
        state.channels.set(ch, regs);
        cs.transfer_states.set(ch, ts);
        ch += 1;
    }
}

/// Runs one channel for a slice of the budget: at most
/// `min(ceil(ticks / 2), 16)` words, two ticks a word, and only when the
/// channel is enabled in the priority register and has a transfer running.
/// A word moves only when its addresses lie inside memory and the peer
/// FIFO can serve it; anything else stalls the channel for this round.
/// Returns the number of words moved.
pub fn tick(
    state: &State,
    cs: &mut ControllerState,
    ram: &mut B8Memory,
    gpu_fifo: &mut Fifo<u32>,
    cdrom_fifo: &mut Fifo<u8>,
    spu_fifo: &mut Fifo<u16>,
    channel_id: usize,
    ticks_remaining: usize,
) -> (words: usize)
    requires
        state.wf(),
        old(cs).wf(),
        old(gpu_fifo).wf(),
        old(cdrom_fifo).wf(),
        old(spu_fifo).wf(),
        channel_id < spec_channel_count(),
        old(ram).view().len() <= 0xFFFF_FFFF,
        ticks_remaining <= 0x1_0000,
    ensures
        final(cs).wf(),
        final(gpu_fifo).wf(),
        final(cdrom_fifo).wf(),
        final(spu_fifo).wf(),
        final(gpu_fifo).capacity() == old(gpu_fifo).capacity(),
        final(cdrom_fifo).capacity() == old(cdrom_fifo).capacity(),
        final(spu_fifo).capacity() == old(spu_fifo).capacity(),
        final(ram).view().len() == old(ram).view().len(),
        final(cs).cooloff_runs == old(cs).cooloff_runs,
        final(cs).master_interrupt_enabled == old(cs).master_interrupt_enabled,
        final(cs).master_interrupted == old(cs).master_interrupted,
        forall|i: int|
            0 <= i < spec_channel_count() && i != channel_id ==> final(cs).transfer_states[i] == old(cs).transfer_states[i],
        words <= 16,
        extract_bits((4 * channel_id + 3) as u32, 1, state.dpcr.value) == 0 ==> words == 0
            && *final(cs) == *old(cs),
        !old(cs).transfer_states[channel_id as int].started ==> words == 0 && *final(cs) == *old(cs),
        ({
            let ts = old(cs).transfer_states[6];
            channel_id == 6 && extract_bits(27, 1, state.dpcr.value) == 1 && ts.started
                && (ts.sync_mode matches SyncMode::Continuous(st) && st.current_count
                <= st.target_count && st.target_count - st.current_count <= 0x4000_0000
                && st.current_address + 4 * (st.target_count - st.current_count) <= old(ram).view().len()) ==> ({
                let st = ts.sync_mode->Continuous_0;
                let allowed = spec_min((ticks_remaining + 1) / 2, 16);
                let done = spec_min(allowed, st.target_count - st.current_count);
                &&& words == done
                &&& (forall|k: int|
                    0 <= k < done ==> #[trigger] word_at(
                        final(ram).view(),
                        otc_addr(st.current_address as int, k),
                    ) == spec_otc_word(
                        otc_addr(st.current_address as int, k) as u32,
                        st.current_count + k + 1 == st.target_count,
                    ))
                &&& final(cs).transfer_states[6].sync_mode == SyncMode::Continuous(
                    ContinuousState {
                        current_address: (st.current_address + 4 * done) as u32,
                        target_count: st.target_count,
                        current_count: (st.current_count + done) as usize,
                    },
                )
                &&& final(cs).transfer_states[6].started == (st.current_count + done
                    < st.target_count)
                &&& (st.current_count + done == st.target_count ==> final(cs).transfer_states[6].interrupted)
                &&& final(cs).transfer_states[6].direction == ts.direction
                &&& final(cs).transfer_states[6].step_direction == ts.step_direction
                &&& final(cs).transfer_states[6].interrupt_enabled == ts.interrupt_enabled
            })
        }),
{
    let enable = Bitfield::new((4 * channel_id + 3) as u32, 1);
    if state.dpcr.read_bitfield(enable) == 0 {
        return 0;
    }

    let mut allowed = (ticks_remaining + 1) / 2;
    if allowed > 16 {
        allowed = 16;
    }

    let mut ts = cs.transfer_states[channel_id];
    if !ts.started {
        return 0;
    }

    let mut words: usize = 0;

    if channel_id == 6 {
        match ts.sync_mode {
            SyncMode::Continuous(mut st) => {
                let remaining = st.target_count - if st.current_count <= st.target_count {
                    st.current_count
                } else {
                    st.target_count
                };
                let ram_len = ram.len();
                let fits = st.current_count <= st.target_count && remaining as u64
                    <= 0x4000_0000u64 && (st.current_address as u64 + 4 * (remaining as u64)
                    <= ram_len as u64);
                if fits {
                    words = otc_transfer(ram, &mut st, allowed);
                    ts.sync_mode = SyncMode::Continuous(st);
                    if st.current_count == st.target_count {
                        ts.started = false;
                        ts.interrupted = true;
                    }
                    cs.transfer_states.set(channel_id, ts);
                }
            },
            _ => {},
        }
    } else if channel_id == 2 {
        match ts.sync_mode {
            SyncMode::LinkedList(ll) => {
                let ram_len = ram.len();
                if ll.current_header_address as u64 + 4 <= ram_len as u64 {
                    let header = ram.read_u32(ll.current_header_address);
                    let count = (header >> 24u32) as usize;
                    let room = gpu_fifo.write_available();
                    if ll.current_header_address as u64 + 4 + 4 * (count as u64) <= ram_len as u64
                        && count <= room {
                        linked_list_transfer(ram, gpu_fifo, &mut ts);
                        words = count;
                        if words > 16 {
                            words = 16;
                        }
                        cs.transfer_states.set(channel_id, ts);
                    }
                }
            },
            SyncMode::Continuous(mut st) => {
                let ram_len = ram.len();
                while words < allowed && st.current_count < st.target_count
                    invariant
                        gpu_fifo.wf(),
                        gpu_fifo.capacity() == old(gpu_fifo).capacity(),
                        ram.view().len() == old(ram).view().len(),
                        ram_len == ram.view().len(),
                        ram.view().len() <= 0xFFFF_FFFF,
                        words <= allowed,
                        allowed <= 16,
                    decreases allowed - words,
                {
                    if !(st.current_address as u64 + 4 <= ram_len as u64) {
                        break ;
                    }
                    if matches!(ts.step_direction, StepDirection::Backwards) && st.current_address
                        < 4 {
                        break ;
                    }
                    let moved = match ts.direction {
                        TransferDirection::ToChannel => move_word_ram_to_fifo32(
                            ram,
                            gpu_fifo,
                            st.current_address,
                        ),
                        TransferDirection::FromChannel => move_word_fifo32_to_ram(
                            ram,
                            gpu_fifo,
                            st.current_address,
                        ),
                    };
                    if !moved {
                        break ;
                    }
                    let done = advance_continuous(&mut st, ts.step_direction);
                    words += 1;
                    if done {
                        ts.started = false;
                        ts.interrupted = true;
                        break ;
                    }
                }
                ts.sync_mode = SyncMode::Continuous(st);
                cs.transfer_states.set(channel_id, ts);
            },
            SyncMode::Blocks(mut st) => {
                let ram_len = ram.len();
                while words < allowed && st.current_bsize_count < st.target_bsize_count
                    && st.current_bamount_count < st.target_bamount_count
                    invariant
                        gpu_fifo.wf(),
                        gpu_fifo.capacity() == old(gpu_fifo).capacity(),
                        ram.view().len() == old(ram).view().len(),
                        ram_len == ram.view().len(),
                        ram.view().len() <= 0xFFFF_FFFF,
                        words <= allowed,
                        allowed <= 16,
                    decreases allowed - words,
                {
                    if !(st.current_address as u64 + 4 <= ram_len as u64) {
                        break ;
                    }
                    if matches!(ts.step_direction, StepDirection::Backwards) && st.current_address
                        < 4 {
                        break ;
                    }
                    let moved = match ts.direction {
                        TransferDirection::ToChannel => move_word_ram_to_fifo32(
                            ram,
                            gpu_fifo,
                            st.current_address,
                        ),
                        TransferDirection::FromChannel => move_word_fifo32_to_ram(
                            ram,
                            gpu_fifo,
                            st.current_address,
                        ),
                    };
                    if !moved {
                        break ;
                    }
                    let done = advance_blocks(&mut st, ts.step_direction);
                    words += 1;
                    if done {
                        ts.started = false;
                        ts.interrupted = true;
                        break ;
                    }
                }
                ts.sync_mode = SyncMode::Blocks(st);
                cs.transfer_states.set(channel_id, ts);
            },
            SyncMode::Undefined => {},
        }
    } else if channel_id == 3 {
        match ts.sync_mode {
            SyncMode::Continuous(mut st) => {
                let ram_len = ram.len();
                while words < allowed && st.current_count < st.target_count
                    invariant
                        cdrom_fifo.wf(),
                        cdrom_fifo.capacity() == old(cdrom_fifo).capacity(),
                        ram.view().len() == old(ram).view().len(),
                        ram_len == ram.view().len(),
                        ram.view().len() <= 0xFFFF_FFFF,
                        words <= allowed,
                        allowed <= 16,
                    decreases allowed - words,
                {
                    if !(st.current_address as u64 + 4 <= ram_len as u64) {
                        break ;
                    }
                    if matches!(ts.step_direction, StepDirection::Backwards) && st.current_address
                        < 4 {
                        break ;
                    }
                    let moved = move_word_fifo8_to_ram(ram, cdrom_fifo, st.current_address);
                    if !moved {
                        break ;
                    }
                    let done = advance_continuous(&mut st, ts.step_direction);
                    words += 1;
                    if done {
                        ts.started = false;
                        ts.interrupted = true;
                        break ;
                    }
                }
                ts.sync_mode = SyncMode::Continuous(st);
                cs.transfer_states.set(channel_id, ts);
            },
            SyncMode::Blocks(mut st) => {
                let ram_len = ram.len();
                while words < allowed && st.current_bsize_count < st.target_bsize_count
                    && st.current_bamount_count < st.target_bamount_count
                    invariant
                        cdrom_fifo.wf(),
                        cdrom_fifo.capacity() == old(cdrom_fifo).capacity(),
                        ram.view().len() == old(ram).view().len(),
                        ram_len == ram.view().len(),
                        ram.view().len() <= 0xFFFF_FFFF,
                        words <= allowed,
                        allowed <= 16,
                    decreases allowed - words,
                {
                    if !(st.current_address as u64 + 4 <= ram_len as u64) {
                        break ;
                    }
                    if matches!(ts.step_direction, StepDirection::Backwards) && st.current_address
                        < 4 {
                        break ;
                    }
                    let moved = move_word_fifo8_to_ram(ram, cdrom_fifo, st.current_address);
                    if !moved {
                        break ;
                    }
                    let done = advance_blocks(&mut st, ts.step_direction);
                    words += 1;
                    if done {
                        ts.started = false;
                        ts.interrupted = true;
                        break ;
                    }
                }
                ts.sync_mode = SyncMode::Blocks(st);
                cs.transfer_states.set(channel_id, ts);
            },
            _ => {},
        }
    } else if channel_id == 4 {
        match ts.sync_mode {
            SyncMode::Blocks(mut st) => {
                let ram_len = ram.len();
                while words < allowed && st.current_bsize_count < st.target_bsize_count
                    && st.current_bamount_count < st.target_bamount_count
                    invariant
                        spu_fifo.wf(),
                        spu_fifo.capacity() == old(spu_fifo).capacity(),
                        ram.view().len() == old(ram).view().len(),
                        ram_len == ram.view().len(),
                        ram.view().len() <= 0xFFFF_FFFF,
                        words <= allowed,
                        allowed <= 16,
                    decreases allowed - words,
                {
                    if !(st.current_address as u64 + 4 <= ram_len as u64) {
                        break ;
                    }
                    if matches!(ts.step_direction, StepDirection::Backwards) && st.current_address
                        < 4 {
                        break ;
                    }
                    let moved = move_word_ram_to_fifo16(ram, spu_fifo, st.current_address);
                    if !moved {
                        break ;
                    }
                    let done = advance_blocks(&mut st, ts.step_direction);
                    words += 1;
                    if done {
                        ts.started = false;
                        ts.interrupted = true;
                        break ;
                    }
                }
                ts.sync_mode = SyncMode::Blocks(st);
                cs.transfer_states.set(channel_id, ts);
            },
            _ => {},
        }
    }
    // Channels 0, 1 and 5 have no peer wired up here and stall.

    if words > 16 {
        16
    } else {
        words
    }
}

/// One controller round: applies pending register writes, arbitrates the
/// bus, then spends the tick budget on the channels in the observed
/// priority order (the ordering-table channel first, then downwards),
/// two ticks a word. When a whole rotation makes no progress while some
/// channel still has work, the controller backs off for four rounds,
/// releasing the bus so the CPU can run. Finally the interrupt register's
/// master flag is recomputed, raising the controller's interrupt line on
/// its rising edge.
pub fn run_time(
    state: &mut State,
    cs: &mut ControllerState,
    ram: &mut B8Memory,
    gpu_fifo: &mut Fifo<u32>,
    cdrom_fifo: &mut Fifo<u8>,
    spu_fifo: &mut Fifo<u16>,
    intc_stat: &mut Stat,
    bus_locked: &mut bool,
    ticks: u64,
)
    requires
        old(state).wf(),
        old(cs).wf(),
        old(gpu_fifo).wf(),
        old(cdrom_fifo).wf(),
        old(spu_fifo).wf(),
        old(ram).view().len() <= 0xFFFF_FFFF,
        ticks <= 0x1_0000_0000,
        spec_register_writes_ok(*old(state), *old(cs)),
    ensures
        final(state).wf(),
        final(cs).wf(),
        final(gpu_fifo).wf(),
        final(cdrom_fifo).wf(),
        final(spu_fifo).wf(),
        final(gpu_fifo).capacity() == old(gpu_fifo).capacity(),
        final(cdrom_fifo).capacity() == old(cdrom_fifo).capacity(),
        final(spu_fifo).capacity() == old(spu_fifo).capacity(),
        final(ram).view().len() == old(ram).view().len(),
        old(cs).cooloff_runs > 0 ==> !*final(bus_locked) && final(cs).cooloff_runs == old(cs).cooloff_runs - 1 && *final(state) == *old(state) && final(cs).transfer_states == old(cs).transfer_states && final(ram).view() == old(ram).view(),
        old(cs).cooloff_runs == 0 && !spec_any_channel_started(*final(cs)) ==> !*final(bus_locked),
        ({
            let ts6 = old(cs).transfer_states[6];
            old(cs).cooloff_runs == 0 && ticks >= 32 && old(state).channels[6].chcr.latch is None
                && old(state).dicr.latch is None && extract_bits(27, 1, old(state).dpcr.value) == 1
                && ts6.started && (ts6.sync_mode matches SyncMode::Continuous(st)
                && st.current_count <= st.target_count && st.target_count - st.current_count
                <= 0x4000_0000 && st.current_address + 4 * (st.target_count - st.current_count)
                <= old(ram).view().len()) ==> ({
                let st = ts6.sync_mode->Continuous_0;
                let first = spec_min(16, st.target_count - st.current_count);
                &&& final(cs).transfer_states[6].sync_mode matches SyncMode::Continuous(_)
                &&& spec_otc_progress(final(cs).transfer_states[6]) >= st.current_count + first
                &&& spec_otc_progress(final(cs).transfer_states[6]) <= st.target_count
                &&& final(cs).transfer_states[6].started == (spec_otc_progress(
                    final(cs).transfer_states[6],
                ) < st.target_count)
                &&& (spec_otc_progress(final(cs).transfer_states[6]) == st.target_count ==> final(cs).transfer_states[6].interrupted)
            })
        }),
        old(cs).cooloff_runs == 0 ==> ({
            let w = spec_dicr_value(
                (ControllerState { master_interrupted: old(cs).master_interrupted, ..*final(cs) }),
            );
            &&& (forall|ch: int|
                0 <= ch < spec_channel_count() ==> !(#[trigger] final(state).channels[ch].chcr).pending())
            &&& !final(state).dicr.pending()
            &&& final(state).dpcr == old(state).dpcr
            &&& (spec_dicr_irq_trigger(w) && w & 0x8000_0000u32 == 0 ==> final(state).dicr.value
                == w | 0x8000_0000u32 && *final(intc_stat) == old(intc_stat).spec_assert_line(
                Line::Dma,
            ) && final(cs).master_interrupted)
            &&& (spec_dicr_irq_trigger(w) && w & 0x8000_0000u32 != 0 ==> final(state).dicr.value
                == w && *final(intc_stat) == *old(intc_stat) && final(cs).master_interrupted)
            &&& (!spec_dicr_irq_trigger(w) ==> final(state).dicr.value == w & !0x8000_0000u32
                && *final(intc_stat) == *old(intc_stat) && !final(cs).master_interrupted)
        }),
{
    if cs.cooloff_runs > 0 {
        *bus_locked = false;
        cs.cooloff_runs = cs.cooloff_runs - 1;
        return ;
    }

    handle_register_writes(state, cs);

    handle_bus_lock(cs, bus_locked);

    let mut ticks_left: u64 = ticks;
    let mut channel_id: usize = 6;
    let mut idle_channels: usize = 0;
    let mut any_progress = false;

    let ghost otc_base: TransferState = cs.transfer_states[6];

    // The ordering-table channel is serviced first, so that its progress
    // this round is part of the contract.
    if ticks_left > 0 {
        let budget: usize = if ticks_left > 32 {
            32
        } else {
            ticks_left as usize
        };
        let words = tick(state, cs, ram, gpu_fifo, cdrom_fifo, spu_fifo, 6, budget);
        if words == 0 {
            idle_channels = 1;
            if ticks_left <= 16 {
                ticks_left = 0;
            } else {
                ticks_left = ticks_left - 16;
            }
        } else {
            any_progress = true;
            let spent = (2 * words) as u64;
            if ticks_left <= spent {
                ticks_left = 0;
            } else {
                ticks_left = ticks_left - spent;
            }
        }
        channel_id = 5;
    }

    while ticks_left > 0 && idle_channels < 7
        invariant
            state.wf(),
            cs.wf(),
            gpu_fifo.wf(),
            cdrom_fifo.wf(),
            spu_fifo.wf(),
            gpu_fifo.capacity() == old(gpu_fifo).capacity(),
            cdrom_fifo.capacity() == old(cdrom_fifo).capacity(),
            spu_fifo.capacity() == old(spu_fifo).capacity(),
            ram.view().len() == old(ram).view().len(),
            ram.view().len() <= 0xFFFF_FFFF,
            channel_id < 7,
            forall|ch: int|
                0 <= ch < spec_channel_count() ==> !(#[trigger] state.channels[ch].chcr).pending(),
            !state.dicr.pending(),
            state.dpcr == old(state).dpcr,
            *intc_stat == *old(intc_stat),
            cs.master_interrupted == old(cs).master_interrupted,
            cs.cooloff_runs == 0,
            spec_otc_invariant(
                otc_base,
                cs.transfer_states[6],
                ticks,
                ram.view().len() as int,
                state.dpcr.value,
            ),
        decreases ticks_left,
    {
        let budget: usize = if ticks_left > 32 {
            32
        } else {
            ticks_left as usize
        };
        let words = tick(state, cs, ram, gpu_fifo, cdrom_fifo, spu_fifo, channel_id, budget);
        if words == 0 {
            idle_channels += 1;
            if ticks_left <= 16 {
                ticks_left = 0;
            } else {
                ticks_left = ticks_left - 16;
            }
        } else {
            any_progress = true;
            idle_channels = 0;
            let spent = (2 * words) as u64;
            if ticks_left <= spent {
                ticks_left = 0;
            } else {
                ticks_left = ticks_left - spent;
            }
        }
        if channel_id == 0 {
            channel_id = 6;
        } else {
            channel_id -= 1;
        }
    }

    if idle_channels >= 7 && !any_progress {
        let mut any_started = false;
        let mut i: usize = 0;
        while i < 7
            invariant
                i <= 7,
                cs.wf(),
            decreases 7 - i,
        {
            if cs.transfer_states[i].started {
                any_started = true;
            }
            i += 1;
        }
        if any_started {
            cs.cooloff_runs = 4;
        }
    }

    handle_bus_unlock(cs, bus_locked);

    state.dicr.update(calculate_dicr_value(cs));
    handle_irq_check(&mut state.dicr, intc_stat);
    proof {
        lemma_master_flag_bit(spec_dicr_value(*cs));
    }
    cs.master_interrupted = state.dicr.read_direct() & 0x8000_0000u32 != 0;
}

/// Setting or clearing the top bit is visible in the top bit.
proof fn lemma_master_flag_bit(w: u32)
    by (bit_vector)
    ensures
        (w | 0x8000_0000u32) & 0x8000_0000u32 != 0,
        (w & !0x8000_0000u32) & 0x8000_0000u32 == 0,
{
}

} // verus!
