//! Sound processor: the 24-voice key-on/key-off latches, per-voice sample
//! addressing through compressed-audio blocks, and the transfer state
//! machine that fills sound memory through the data FIFO. Sample decoding
//! and mixing are a host-side backend and are not modelled.

use vstd::prelude::*;
use crate::bitfield::Bitfield;
use crate::edge::{B16EdgeRegister, B32EdgeRegister, LatchKind};
use crate::fifo::Fifo;
use crate::memory::B8Memory;
use crate::register::{B16LevelRegister, B32LevelRegister};

verus! {

/// Number of voices.
pub open spec fn spec_voice_count() -> int {
    24
}

/// Sound memory size: 512 KiB.
pub open spec fn spec_sound_memory_size() -> int {
    0x8_0000
}

/// The transfer state machine's mode, from the control register.
#[derive(Clone, Copy, PartialEq, Eq, Structural, Debug)]
pub enum TransferMode {
    Stop,
    ManualWrite,
    DmaWrite,
    DmaRead,
}

/// The transfer state machine: its mode and the halfword-granular write
/// address into sound memory.
#[derive(Clone, Copy, PartialEq, Eq, Structural, Debug)]
pub struct TransferState {
    pub current_transfer_mode: TransferMode,
    pub current_transfer_address: u32,
}

impl TransferState {
    pub fn new() -> (r: TransferState)
        ensures
            r.current_transfer_mode == TransferMode::Stop,
            r.current_transfer_address == 0u32,
    {
        TransferState { current_transfer_mode: TransferMode::Stop, current_transfer_address: 0 }
    }
}

/// One voice's play state: whether it is keyed on, where in sound memory
/// its current block lies, the nibble-pair counter within the block, and
/// the loop flags of the block header last read.
#[derive(Clone, Copy, PartialEq, Eq, Structural, Debug)]
pub struct PlayState {
    pub playing: bool,
    pub current_address: u32,
    pub block_count: u32,
    pub loop_start: bool,
    pub loop_end: bool,
    pub loop_repeat: bool,
}

impl PlayState {
    pub fn new() -> (r: PlayState)
        ensures
            !r.playing,
            r.current_address == 0u32,
            r.block_count == 0u32,
    {
        PlayState {
            playing: false,
            current_address: 0,
            block_count: 0,
            loop_start: false,
            loop_end: false,
            loop_repeat: false,
        }
    }
}

/// One voice's register bank.
pub struct VoiceRegisters {
    pub voll: B16LevelRegister,
    pub volr: B16LevelRegister,
    pub srate: B16LevelRegister,
    pub saddr: B16LevelRegister,
    pub adsr: B32LevelRegister,
    pub cvol: B16LevelRegister,
    pub raddr: B16LevelRegister,
}

impl VoiceRegisters {
    pub fn new() -> (r: VoiceRegisters)
        ensures
            r.saddr.value == 0u16,
            r.raddr.value == 0u16,
    {
        VoiceRegisters {
            voll: B16LevelRegister::new(),
            volr: B16LevelRegister::new(),
            srate: B16LevelRegister::new(),
            saddr: B16LevelRegister::new(),
            adsr: B32LevelRegister::new(),
            cvol: B16LevelRegister::new(),
            raddr: B16LevelRegister::new(),
        }
    }
}

/// The sound processor's shared registers and ports.
pub struct State {
    pub main_volume_left: B16LevelRegister,
    pub main_volume_right: B16LevelRegister,
    pub current_volume_left: B16LevelRegister,
    pub current_volume_right: B16LevelRegister,
    pub voice_key_on: B32EdgeRegister,
    pub voice_key_off: B32EdgeRegister,
    pub voice_channel_status: B32LevelRegister,
    pub control: B16EdgeRegister,
    pub stat: B16LevelRegister,
    pub data_transfer_address: B16EdgeRegister,
    pub data_fifo: Fifo<u16>,
    pub data_transfer_control: B16LevelRegister,
    pub voices: Vec<VoiceRegisters>,
}

impl State {
    pub open spec fn wf(&self) -> bool {
        &&& self.voices.len() == spec_voice_count()
        &&& self.data_fifo.wf()
    }

    pub fn new() -> (r: State)
        ensures
            r.wf(),
            !r.voice_key_on.pending(),
            !r.voice_key_off.pending(),
            r.voice_channel_status.value == 0u32,
            r.data_fifo.contents() == Seq::<u16>::empty(),
    {
        let mut voices: Vec<VoiceRegisters> = Vec::new();
        let mut i: usize = 0;
        while i < 24
            invariant
                i <= 24,
                voices.len() == i,
            decreases 24 - i,
        {
            voices.push(VoiceRegisters::new());
            i += 1;
        }
        State {
            main_volume_left: B16LevelRegister::new(),
            main_volume_right: B16LevelRegister::new(),
            current_volume_left: B16LevelRegister::new(),
            current_volume_right: B16LevelRegister::new(),
            voice_key_on: B32EdgeRegister::new(),
            voice_key_off: B32EdgeRegister::new(),
            voice_channel_status: B32LevelRegister::new(),
            control: B16EdgeRegister::new(),
            stat: B16LevelRegister::new(),
            data_transfer_address: B16EdgeRegister::new(),
            data_fifo: Fifo::new(32, 0),
            data_transfer_control: B16LevelRegister::new(),
            voices,
        }
    }
}

/// The sound processor's private state.
pub struct ControllerState {
    pub enabled: bool,
    pub muted: bool,
    pub transfer_state: TransferState,
    pub voices: Vec<PlayState>,
    pub memory: B8Memory,
}

impl ControllerState {
    pub open spec fn wf(&self) -> bool {
        &&& self.voices.len() == spec_voice_count()
        &&& self.memory.view().len() == spec_sound_memory_size()
    }

    pub fn new() -> (r: ControllerState)
        ensures
            r.wf(),
            forall|i: int| 0 <= i < spec_voice_count() ==> !(#[trigger] r.voices[i]).playing,
    {
        let mut voices: Vec<PlayState> = Vec::new();
        let mut i: usize = 0;
        while i < 24
            invariant
                i <= 24,
                voices.len() == i,
                forall|j: int| 0 <= j < i ==> !(#[trigger] voices[j]).playing,
            decreases 24 - i,
        {
            voices.push(PlayState::new());
            i += 1;
        }
        ControllerState {
            enabled: false,
            muted: false,
            transfer_state: TransferState::new(),
            voices,
            memory: B8Memory::new(0x8_0000),
        }
    }
}

/// Reads the transfer mode out of the control register: bits 4 and 5.
pub fn get_transfer_mode(control: &B16LevelRegister) -> (r: TransferMode)
    ensures
        r == (match (control.value >> 4u16) & 3u16 {
            0u16 => TransferMode::Stop,
            1u16 => TransferMode::ManualWrite,
            2u16 => TransferMode::DmaWrite,
            _ => TransferMode::DmaRead,
        }),
{
    match (control.read_u16() >> 4u16) & 3 {
        0 => TransferMode::Stop,
        1 => TransferMode::ManualWrite,
        2 => TransferMode::DmaWrite,
        _ => TransferMode::DmaRead,
    }
}

/// The left-volume register of a voice.
pub fn get_voll(state: &State, voice_id: usize) -> (r: &B16LevelRegister)
    requires
        state.wf(),
        voice_id < spec_voice_count(),
    ensures
        *r == state.voices[voice_id as int].voll,
{
    &state.voices[voice_id].voll
}

/// The right-volume register of a voice.
pub fn get_volr(state: &State, voice_id: usize) -> (r: &B16LevelRegister)
    requires
        state.wf(),
        voice_id < spec_voice_count(),
    ensures
        *r == state.voices[voice_id as int].volr,
{
    &state.voices[voice_id].volr
}

/// The sample-rate register of a voice.
pub fn get_adpcm_sr(state: &State, voice_id: usize) -> (r: &B16LevelRegister)
    requires
        state.wf(),
        voice_id < spec_voice_count(),
    ensures
        *r == state.voices[voice_id as int].srate,
{
    &state.voices[voice_id].srate
}

/// The start-address register of a voice.
pub fn get_adpcm_sa(state: &State, voice_id: usize) -> (r: &B16LevelRegister)
    requires
        state.wf(),
        voice_id < spec_voice_count(),
    ensures
        *r == state.voices[voice_id as int].saddr,
{
    &state.voices[voice_id].saddr
}

/// The envelope register of a voice.
pub fn get_adpcm_envelope(state: &State, voice_id: usize) -> (r: &B32LevelRegister)
    requires
        state.wf(),
        voice_id < spec_voice_count(),
    ensures
        *r == state.voices[voice_id as int].adsr,
{
    &state.voices[voice_id].adsr
}

/// The current-volume register of a voice.
pub fn get_adsr_cvol(state: &State, voice_id: usize) -> (r: &B16LevelRegister)
    requires
        state.wf(),
        voice_id < spec_voice_count(),
    ensures
        *r == state.voices[voice_id as int].cvol,
{
    &state.voices[voice_id].cvol
}

/// The repeat-address register of a voice.
pub fn get_adpcm_ra(state: &State, voice_id: usize) -> (r: &B16LevelRegister)
    requires
        state.wf(),
        voice_id < spec_voice_count(),
    ensures
        *r == state.voices[voice_id as int].raddr,
{
    &state.voices[voice_id].raddr
}

/// The play state of a voice.
pub fn get_play_state(cs: &ControllerState, voice_id: usize) -> (r: &PlayState)
    requires
        cs.wf(),
        voice_id < spec_voice_count(),
    ensures
        *r == cs.voices[voice_id as int],
{
    &cs.voices[voice_id]
}

/// Keys a voice on: it starts playing at eight times its start address,
/// with a fresh block state.
pub fn handle_play_initialization(state: &State, cs: &mut ControllerState, voice_id: usize)
    requires
        state.wf(),
        old(cs).wf(),
        voice_id < spec_voice_count(),
    ensures
        final(cs).wf(),
        final(cs).voices@ == old(cs).voices@.update(
            voice_id as int,
            PlayState {
                playing: true,
                current_address: ((state.voices[voice_id as int].saddr.value as u32) * 8) as u32,
                block_count: 0,
                loop_start: false,
                loop_end: false,
                loop_repeat: false,
            },
        ),
        final(cs).transfer_state == old(cs).transfer_state,
        final(cs).memory == old(cs).memory,
        *final(cs) == (ControllerState { voices: final(cs).voices, ..*old(cs) }),
{
    let sa = state.voices[voice_id].saddr.read_u16();
    cs.voices.set(
        voice_id,
        PlayState {
            playing: true,
            current_address: (sa as u32) * 8,
            block_count: 0,
            loop_start: false,
            loop_end: false,
            loop_repeat: false,
        },
    );
}

/// Keys a voice off: it stops playing.
pub fn handle_play_termination(cs: &mut ControllerState, voice_id: usize)
    requires
        old(cs).wf(),
        voice_id < spec_voice_count(),
    ensures
        final(cs).wf(),
        final(cs).voices@ == old(cs).voices@.update(
            voice_id as int,
            (PlayState { playing: false, ..old(cs).voices[voice_id as int] }),
        ),
        final(cs).transfer_state == old(cs).transfer_state,
        final(cs).memory == old(cs).memory,
        *final(cs) == (ControllerState { voices: final(cs).voices, ..*old(cs) }),
{
    let mut voice = cs.voices[voice_id];
    voice.playing = false;
    cs.voices.set(voice_id, voice);
}

/// Applies a pending key-on write: every voice whose bit is set is keyed
/// on; the others are untouched. The latch is acknowledged.
pub fn handle_key_on(state: &mut State, cs: &mut ControllerState)
    requires
        old(state).wf(),
        old(cs).wf(),
    ensures
        final(state).wf(),
        final(cs).wf(),
        !final(state).voice_key_on.pending(),
        old(state).voice_key_on.latch == Some(LatchKind::Write) ==> forall|v: int|
            0 <= v < spec_voice_count() ==> #[trigger] final(cs).voices[v] == (if (old(state).voice_key_on.value >> (v as u32)) & 1u32 == 1u32 {
                PlayState {
                    playing: true,
                    current_address: ((old(state).voices[v].saddr.value as u32) * 8) as u32,
                    block_count: 0,
                    loop_start: false,
                    loop_end: false,
                    loop_repeat: false,
                }
            } else {
                old(cs).voices[v]
            }),
        old(state).voice_key_on.latch != Some(LatchKind::Write) ==> final(cs).voices == old(cs).voices,
        *final(state) == (State { voice_key_on: final(state).voice_key_on, ..*old(state) }),
        *final(cs) == (ControllerState { voices: final(cs).voices, ..*old(cs) }),
{
    match state.voice_key_on.acknowledge() {
        None => {},
        Some((value, LatchKind::Read)) => {
            state.voice_key_on.update(value);
        },
        Some((value, LatchKind::Write)) => {
            let mut v: usize = 0;
            while v < 24
                invariant
                    v <= 24,
                    state.wf(),
                    cs.wf(),
                    state.voices == old(state).voices,
                    *state == (State { voice_key_on: state.voice_key_on, ..*old(state) }),
                    cs.transfer_state == old(cs).transfer_state,
                    cs.memory == old(cs).memory,
                    cs.enabled == old(cs).enabled,
                    cs.muted == old(cs).muted,
                    value == old(state).voice_key_on.value,
                    forall|j: int|
                        0 <= j < v ==> #[trigger] cs.voices[j] == (if (value >> (j as u32)) & 1u32
                            == 1u32 {
                            PlayState {
                                playing: true,
                                current_address: ((old(state).voices[j].saddr.value as u32) * 8) as u32,
                                block_count: 0,
                                loop_start: false,
                                loop_end: false,
                                loop_repeat: false,
                            }
                        } else {
                            old(cs).voices[j]
                        }),
                    forall|j: int| v <= j < spec_voice_count() ==> cs.voices[j] == old(cs).voices[j],
                decreases 24 - v,
            {
                if (value >> (v as u32)) & 1 == 1 {
                    handle_play_initialization(state, cs, v);
                }
                v += 1;
            }
            state.voice_key_on.update(value);
        },
    }
}

/// Applies a pending key-off write: every voice whose bit is set stops.
pub fn handle_key_off(state: &mut State, cs: &mut ControllerState)
    requires
        old(state).wf(),
        old(cs).wf(),
    ensures
        final(state).wf(),
        final(cs).wf(),
        !final(state).voice_key_off.pending(),
        old(state).voice_key_off.latch == Some(LatchKind::Write) ==> forall|v: int|
            0 <= v < spec_voice_count() ==> #[trigger] final(cs).voices[v] == (if (old(state).voice_key_off.value >> (v as u32)) & 1u32 == 1u32 {
                PlayState { playing: false, ..old(cs).voices[v] }
            } else {
                old(cs).voices[v]
            }),
        old(state).voice_key_off.latch != Some(LatchKind::Write) ==> final(cs).voices == old(cs).voices,
        *final(state) == (State { voice_key_off: final(state).voice_key_off, ..*old(state) }),
        *final(cs) == (ControllerState { voices: final(cs).voices, ..*old(cs) }),
{
    match state.voice_key_off.acknowledge() {
        None => {},
        Some((value, LatchKind::Read)) => {
            state.voice_key_off.update(value);
        },
        Some((value, LatchKind::Write)) => {
            let mut v: usize = 0;
            while v < 24
                invariant
                    v <= 24,
                    state.wf(),
                    cs.wf(),
                    state.voices == old(state).voices,
                    *state == (State { voice_key_off: state.voice_key_off, ..*old(state) }),
                    cs.transfer_state == old(cs).transfer_state,
                    cs.memory == old(cs).memory,
                    cs.enabled == old(cs).enabled,
                    cs.muted == old(cs).muted,
                    value == old(state).voice_key_off.value,
                    forall|j: int|
                        0 <= j < v ==> #[trigger] cs.voices[j] == (if (value >> (j as u32)) & 1u32
                            == 1u32 {
                            PlayState { playing: false, ..old(cs).voices[j] }
                        } else {
                            old(cs).voices[j]
                        }),
                    forall|j: int| v <= j < spec_voice_count() ==> cs.voices[j] == old(cs).voices[j],
                decreases 24 - v,
            {
                if (value >> (v as u32)) & 1 == 1 {
                    handle_play_termination(cs, v);
                }
                v += 1;
            }
            state.voice_key_off.update(value);
        },
    }
}

/// Begins a compressed-audio block: reads the two header bytes at the
/// voice's current address, records the loop flags, and — when the header
/// marks a loop start — latches the repeat address as the current address
/// in eight-byte units. The nibble-pair counter starts at two, after the
/// header bytes.
pub fn initialize_adpcm_block(state: &mut State, cs: &mut ControllerState, voice_id: usize)
    requires
        old(state).wf(),
        old(cs).wf(),
        voice_id < spec_voice_count(),
        old(cs).voices[voice_id as int].current_address + 2 <= spec_sound_memory_size(),
    ensures
        final(state).wf(),
        final(cs).wf(),
        ({
            let addr = old(cs).voices[voice_id as int].current_address;
            let flags = old(cs).memory.view()[addr + 1];
            &&& final(cs).voices[voice_id as int].block_count == 2u32
            &&& final(cs).voices[voice_id as int].loop_end == (flags & 1u8 != 0)
            &&& final(cs).voices[voice_id as int].loop_repeat == (flags & 2u8 != 0)
            &&& final(cs).voices[voice_id as int].loop_start == (flags & 4u8 != 0)
            &&& final(cs).voices[voice_id as int].current_address == addr
            &&& final(cs).voices[voice_id as int].playing == old(cs).voices[voice_id as int].playing
            &&& (flags & 4u8 != 0 ==> final(state).voices[voice_id as int].raddr.value == (addr
                / 8) as u16)
            &&& (flags & 4u8 == 0 ==> final(state).voices == old(state).voices)
        }),
        final(cs).memory == old(cs).memory,
        *final(state) == (State { voices: final(state).voices, ..*old(state) }),
        *final(cs) == (ControllerState { voices: final(cs).voices, ..*old(cs) }),
{
    let voice = cs.voices[voice_id];
    let addr = voice.current_address;
    let flags = cs.memory.read_u8(addr + 1);
    let loop_end = flags & 1 != 0;
    let loop_repeat = flags & 2 != 0;
    let loop_start = flags & 4 != 0;
    if loop_start {
        let mut regs = VoiceRegisters {
            voll: state.voices[voice_id].voll,
            volr: state.voices[voice_id].volr,
            srate: state.voices[voice_id].srate,
            saddr: state.voices[voice_id].saddr,
            adsr: state.voices[voice_id].adsr,
            cvol: state.voices[voice_id].cvol,
            raddr: state.voices[voice_id].raddr,
        };
        proof {
            assert(addr / 8 <= 0xFFFF) by (nonlinear_arith)
                requires
                    addr + 2 <= 0x8_0000,
            ;
        }
        regs.raddr.write_u16((addr / 8) as u16);
        state.voices.set(voice_id, regs);
    }
    cs.voices.set(
        voice_id,
        PlayState { block_count: 2, loop_start, loop_end, loop_repeat, ..voice },
    );
}

/// Decodes one more nibble pair of the current block: only the counter
/// advances here; the sample arithmetic lives in the audio backend.
pub fn continue_adpcm_block(cs: &mut ControllerState, voice_id: usize)
    requires
        old(cs).wf(),
        voice_id < spec_voice_count(),
        old(cs).voices[voice_id as int].block_count < 16,
    ensures
        final(cs).wf(),
        final(cs).voices@ == old(cs).voices@.update(
            voice_id as int,
            (PlayState {
                block_count: (old(cs).voices[voice_id as int].block_count + 1) as u32,
                ..old(cs).voices[voice_id as int]
            }),
        ),
        *final(cs) == (ControllerState { voices: final(cs).voices, ..*old(cs) }),
{
    let mut voice = cs.voices[voice_id];
    voice.block_count = voice.block_count + 1;
    cs.voices.set(voice_id, voice);
}

/// Ends a sixteen-pair block: a loop-end block jumps back to eight times
/// the repeat address and raises the voice's bit in the channel status
/// word; any other block falls through to the next sixteen bytes. Both
/// wrap inside sound memory. The pair counter resets for the next header.
pub fn handle_adpcm_block_end(state: &mut State, cs: &mut ControllerState, voice_id: usize)
    requires
        old(state).wf(),
        old(cs).wf(),
        voice_id < spec_voice_count(),
        old(cs).voices[voice_id as int].block_count == 16,
        old(cs).voices[voice_id as int].current_address <= 0x7FFFF,
    ensures
        final(state).wf(),
        final(cs).wf(),
        ({
            let voice = old(cs).voices[voice_id as int];
            &&& final(cs).voices[voice_id as int].block_count == 0u32
            &&& (voice.loop_end ==> final(cs).voices[voice_id as int].current_address == (((old(state).voices[voice_id as int].raddr.value as u32) * 8) as u32) & 0x7FFFFu32)
            &&& (voice.loop_end ==> final(state).voice_channel_status.value == old(state).voice_channel_status.value | (1u32 << (voice_id as u32)))
            &&& (!voice.loop_end ==> final(cs).voices[voice_id as int].current_address == ((
            voice.current_address + 16) as u32) & 0x7FFFFu32)
            &&& (!voice.loop_end ==> final(state).voice_channel_status == old(state).voice_channel_status)
            &&& (!voice.loop_repeat ==> !final(cs).voices[voice_id as int].playing)
            &&& (voice.loop_repeat ==> final(cs).voices[voice_id as int].playing == voice.playing)
        }),
        final(cs).memory == old(cs).memory,
        final(state).voices == old(state).voices,
        *final(state) == (State {
            voice_channel_status: final(state).voice_channel_status,
            ..*old(state)
        }),
        *final(cs) == (ControllerState { voices: final(cs).voices, ..*old(cs) }),
{
    let mut voice = cs.voices[voice_id];
    if voice.loop_end {
        let ra = state.voices[voice_id].raddr.read_u16();
        voice.current_address = ((ra as u32) * 8) & 0x7FFFF;
        let status = state.voice_channel_status.read_u32();
        state.voice_channel_status.write_u32(status | (1u32 << (voice_id as u32)));
    } else {
        voice.current_address = (voice.current_address + 16) & 0x7FFFF;
    }
    if !voice.loop_repeat {
        voice.playing = false;
    }
    voice.block_count = 0;
    cs.voices.set(voice_id, voice);
}


/// One sample-addressing step of a voice: a fresh block reads its header,
/// a block in progress advances one nibble pair, and a finished block
/// either falls through to the next sixteen bytes or loops back to the
/// repeat address, per the header flags. The nibble decode itself is the
/// audio backend's; only the addressing is stepped here. A voice that is
/// not playing is untouched.
pub fn voice_step(state: &mut State, cs: &mut ControllerState, voice_id: usize)
    requires
        old(state).wf(),
        old(cs).wf(),
        voice_id < spec_voice_count(),
    ensures
        final(state).wf(),
        final(cs).wf(),
        ({
            let voice = old(cs).voices[voice_id as int];
            &&& (!voice.playing ==> *final(state) == *old(state) && *final(cs) == *old(cs))
            &&& (voice.playing && voice.current_address <= 0x7FFFE && voice.block_count == 0 ==> ({
                let flags = old(cs).memory.view()[voice.current_address + 1];
                &&& final(cs).voices[voice_id as int].block_count == 2u32
                &&& final(cs).voices[voice_id as int].loop_end == (flags & 1u8 != 0)
                &&& final(cs).voices[voice_id as int].loop_repeat == (flags & 2u8 != 0)
                &&& final(cs).voices[voice_id as int].loop_start == (flags & 4u8 != 0)
                &&& final(cs).voices[voice_id as int].current_address == voice.current_address
                &&& (flags & 4u8 != 0 ==> final(state).voices[voice_id as int].raddr.value == (
                voice.current_address / 8) as u16)
            }))
            &&& (voice.playing && 0 < voice.block_count < 16 ==> final(cs).voices@ == old(cs).voices@.update(
                voice_id as int,
                (PlayState { block_count: (voice.block_count + 1) as u32, ..voice }),
            ) && *final(state) == *old(state))
            &&& (voice.playing && voice.block_count == 16 && voice.current_address <= 0x7FFFF
                ==> ({
                &&& final(cs).voices[voice_id as int].block_count == 0u32
                &&& (voice.loop_end ==> final(cs).voices[voice_id as int].current_address == (((
                old(state).voices[voice_id as int].raddr.value as u32) * 8) as u32) & 0x7FFFFu32
                    && final(state).voice_channel_status.value == old(state).voice_channel_status.value | (1u32 << (voice_id as u32)))
                &&& (!voice.loop_end ==> final(cs).voices[voice_id as int].current_address == ((
                voice.current_address + 16) as u32) & 0x7FFFFu32)
                &&& (!voice.loop_repeat ==> !final(cs).voices[voice_id as int].playing)
            }))
        }),
        *final(state) == (State {
            voices: final(state).voices,
            voice_channel_status: final(state).voice_channel_status,
            ..*old(state)
        }),
        *final(cs) == (ControllerState { voices: final(cs).voices, ..*old(cs) }),
{
    let voice = cs.voices[voice_id];
    if !voice.playing {
        return ;
    }
    if voice.block_count == 0 {
        if voice.current_address > 0x7FFFE {
            // A block header outside sound memory stops the voice rather
            // than reading past the end.
            let mut stopped = voice;
            stopped.playing = false;
            cs.voices.set(voice_id, stopped);
            return ;
        }
        initialize_adpcm_block(state, cs, voice_id);
    } else if voice.block_count < 16 {
        continue_adpcm_block(cs, voice_id);
    } else if voice.block_count == 16 {
        if voice.current_address > 0x7FFFF {
            let mut stopped = voice;
            stopped.playing = false;
            cs.voices.set(voice_id, stopped);
            return ;
        }
        handle_adpcm_block_end(state, cs, voice_id);
    }
}

/// One step of the manual-write transfer: a halfword from the data FIFO
/// lands in sound memory at the transfer address, low byte first, and the
/// address advances two bytes, wrapping inside sound memory. An empty
/// FIFO stops the transfer and clears the data-busy status bit (bit 10).
pub fn handle_manual_write_transfer(state: &mut State, cs: &mut ControllerState)
    requires
        old(state).wf(),
        old(cs).wf(),
        old(cs).transfer_state.current_transfer_address + 2 <= spec_sound_memory_size(),
    ensures
        final(state).wf(),
        final(cs).wf(),
        old(state).data_fifo.contents().len() == 0 ==> final(cs).transfer_state.current_transfer_mode == TransferMode::Stop && final(state).stat.value
            == crate::bitfield::insert_bits(10, 1, old(state).stat.value as u32, 0u32) as u16
            && final(cs).memory == old(cs).memory,
        old(state).data_fifo.contents().len() > 0 ==> ({
            let value = old(state).data_fifo.contents()[0];
            let addr = old(cs).transfer_state.current_transfer_address;
            &&& final(state).data_fifo.contents() == old(state).data_fifo.contents().drop_first()
            &&& crate::memory::half_at(final(cs).memory.view(), addr as int) == value
            &&& final(cs).transfer_state.current_transfer_address == ((addr + 2) as u32)
                & 0x7FFFFu32
            &&& final(cs).transfer_state.current_transfer_mode == old(cs).transfer_state.current_transfer_mode
        }),
        *final(state) == (State {
            data_fifo: final(state).data_fifo,
            stat: final(state).stat,
            ..*old(state)
        }),
        *final(cs) == (ControllerState {
            transfer_state: final(cs).transfer_state,
            memory: final(cs).memory,
            ..*old(cs)
        }),
{
    match state.data_fifo.read_one() {
        Ok(value) => {
            let addr = cs.transfer_state.current_transfer_address;
            cs.memory.write_u16(addr, value);
            cs.transfer_state.current_transfer_address = (addr + 2) & 0x7FFFF;
        },
        Err(()) => {
            cs.transfer_state.current_transfer_mode = TransferMode::Stop;
            let mut stat = state.stat;
            stat.write_bitfield(Bitfield::new(10, 1), 0);
            state.stat = stat;
        },
    }
}

/// Dispatches one transfer-machine step according to the current mode.
/// The two bus-mastering modes are driven by the DMA controller, not
/// here.
pub fn handle_transfer(state: &mut State, cs: &mut ControllerState)
    requires
        old(state).wf(),
        old(cs).wf(),
        old(cs).transfer_state.current_transfer_address + 2 <= spec_sound_memory_size(),
    ensures
        final(state).wf(),
        final(cs).wf(),
        old(cs).transfer_state.current_transfer_mode != TransferMode::ManualWrite ==> *final(state)
            == *old(state) && *final(cs) == *old(cs),
        old(cs).transfer_state.current_transfer_mode == TransferMode::ManualWrite && old(state).data_fifo.contents().len() == 0 ==> final(cs).transfer_state.current_transfer_mode
            == TransferMode::Stop && final(state).stat.value == crate::bitfield::insert_bits(
            10,
            1,
            old(state).stat.value as u32,
            0u32,
        ) as u16 && final(cs).memory == old(cs).memory,
        old(cs).transfer_state.current_transfer_mode == TransferMode::ManualWrite && old(state).data_fifo.contents().len() > 0 ==> ({
            let value = old(state).data_fifo.contents()[0];
            let addr = old(cs).transfer_state.current_transfer_address;
            &&& final(state).data_fifo.contents() == old(state).data_fifo.contents().drop_first()
            &&& crate::memory::half_at(final(cs).memory.view(), addr as int) == value
            &&& final(cs).transfer_state.current_transfer_address == ((addr + 2) as u32)
                & 0x7FFFFu32
            &&& final(cs).transfer_state.current_transfer_mode == TransferMode::ManualWrite
        }),
        *final(state) == (State {
            data_fifo: final(state).data_fifo,
            stat: final(state).stat,
            ..*old(state)
        }),
        *final(cs) == (ControllerState {
            transfer_state: final(cs).transfer_state,
            memory: final(cs).memory,
            ..*old(cs)
        }),
{
    match cs.transfer_state.current_transfer_mode {
        TransferMode::Stop => {},
        TransferMode::ManualWrite => {
            handle_manual_write_transfer(state, cs);
        },
        TransferMode::DmaWrite => {},
        TransferMode::DmaRead => {},
    }
}

/// Mirrors the main volume into the guest-visible current-volume
/// registers.
pub fn handle_current_volume(state: &mut State)
    ensures
        final(state).current_volume_left.value == old(state).main_volume_left.value,
        final(state).current_volume_right.value == old(state).main_volume_right.value,
        final(state).main_volume_left == old(state).main_volume_left,
        final(state).main_volume_right == old(state).main_volume_right,
        final(state).voices == old(state).voices,
        final(state).data_fifo == old(state).data_fifo,
        final(state).voice_key_on == old(state).voice_key_on,
        final(state).voice_key_off == old(state).voice_key_off,
        final(state).voice_channel_status == old(state).voice_channel_status,
        final(state).stat == old(state).stat,
{
    let left = state.main_volume_left.read_u16();
    let right = state.main_volume_right.read_u16();
    state.current_volume_left.write_u16(left);
    state.current_volume_right.write_u16(right);
}

} // verus!
