//! CD-ROM drive: the command/response state machine over the parameter,
//! response and data FIFOs, the sector read pump, and interrupt delivery.
//! The disc itself is modelled as plain data: a mode number and an array
//! of 2048-byte sectors indexed by logical block address.

use vstd::prelude::*;
use crate::fifo::Fifo;
use crate::intc::{Line, Stat};
use crate::register::B8LevelRegister;

verus! {

/// Sector payload size.
pub open spec fn spec_sector_size() -> int {
    2048
}

/// A disc, reduced to the data the drive logic reads: the disc mode and
/// the sector payloads in block-address order.
pub struct Disc {
    pub mode: u8,
    pub sectors: Vec<Vec<u8>>,
}

impl Disc {
    pub open spec fn wf(&self) -> bool {
        forall|i: int| 0 <= i < self.sectors.len() ==> (#[trigger] self.sectors[i]@).len() == spec_sector_size()
    }
}

/// Converts a minute/second/frame address to a logical block address:
/// seventy-five frames a second, with the conventional 150-frame lead-in
/// subtracted.
pub open spec fn spec_msf_to_lba(minute: u8, second: u8, frame: u8) -> int {
    (minute * 60 + second) * 75 + frame - 150
}

pub fn msf_to_lba_address(minute: u8, second: u8, frame: u8) -> (r: u32)
    requires
        spec_msf_to_lba(minute, second, frame) >= 0,
    ensures
        r == spec_msf_to_lba(minute, second, frame),
{
    ((minute as u32) * 60 + (second as u32)) * 75 + (frame as u32) - 150
}

/// What the drive can fail with; the guest-visible protocol itself never
/// panics.
#[derive(Clone, Copy, PartialEq, Eq, Structural, Debug)]
pub enum CdromError {
    UnknownCommand(u8),
    UnknownSubFunction(u8),
    UnknownDiscMode(u8),
    ResponseResidue,
    ParameterResidue,
    SectorOutOfRange,
    FifoFull,
}

/// The commands the drive implements.
#[derive(Clone, Copy, PartialEq, Eq, Structural, Debug)]
pub enum CdromCommand {
    GetStat,
    Setloc,
    ReadN,
    Setmode,
    SeekL,
    Test,
    GetId,
}

/// The command table: which drive command a command byte names.
pub open spec fn get_handler_spec(command_index: u8) -> Option<CdromCommand> {
    if command_index == 0x01 {
        Some(CdromCommand::GetStat)
    } else if command_index == 0x02 {
        Some(CdromCommand::Setloc)
    } else if command_index == 0x06 {
        Some(CdromCommand::ReadN)
    } else if command_index == 0x0E {
        Some(CdromCommand::Setmode)
    } else if command_index == 0x15 {
        Some(CdromCommand::SeekL)
    } else if command_index == 0x19 {
        Some(CdromCommand::Test)
    } else if command_index == 0x1A {
        Some(CdromCommand::GetId)
    } else {
        None
    }
}

/// Looks a command byte up; a byte outside the implemented set yields
/// nothing.
pub fn get_handler_fn(command_index: u8) -> (r: Option<CdromCommand>)
    ensures
        r == get_handler_spec(command_index),
{
    match command_index {
        0x01 => Some(CdromCommand::GetStat),
        0x02 => Some(CdromCommand::Setloc),
        0x06 => Some(CdromCommand::ReadN),
        0x0E => Some(CdromCommand::Setmode),
        0x15 => Some(CdromCommand::SeekL),
        0x19 => Some(CdromCommand::Test),
        0x1A => Some(CdromCommand::GetId),
        _ => None,
    }
}

/// How many parameter bytes a command needs before it may run.
pub open spec fn spec_command_parameter_length(command: CdromCommand) -> int {
    match command {
        CdromCommand::GetStat => 0,
        CdromCommand::Setloc => 3,
        CdromCommand::ReadN => 0,
        CdromCommand::Setmode => 1,
        CdromCommand::SeekL => 0,
        CdromCommand::Test => 1,
        CdromCommand::GetId => 0,
    }
}

pub fn command_parameter_length(command: CdromCommand, command_iteration: u32) -> (r: usize)
    ensures
        r == spec_command_parameter_length(command),
{
    match command {
        CdromCommand::GetStat => 0,
        CdromCommand::Setloc => 3,
        CdromCommand::ReadN => 0,
        CdromCommand::Setmode => 1,
        CdromCommand::SeekL => 0,
        CdromCommand::Test => 1,
        CdromCommand::GetId => 0,
    }
}

/// The latched interrupt state: the most recent interrupt code in its low
/// three bits, acknowledged by the guest writing ones to the bits to
/// clear.
pub struct IntFlag {
    pub flags: u8,
    pub written: Option<u8>,
}

impl IntFlag {
    pub fn new() -> (r: IntFlag)
        ensures
            r.flags == 0u8,
            r.written is None,
    {
        IntFlag { flags: 0, written: None }
    }

    /// The guest reads the pending interrupt code.
    pub fn read(&self) -> (r: u8)
        ensures
            r == self.flags,
    {
        self.flags
    }

    /// The guest writes an acknowledge mask; the drive applies it on its
    /// next tick.
    pub fn write(&mut self, value: u8)
        ensures
            final(self).flags == old(self).flags,
            final(self).written == Some(value),
    {
        self.written = Some(value);
    }
}

/// The drive's shared registers and FIFOs.
pub struct State {
    pub status: B8LevelRegister,
    pub command: Option<u8>,
    pub int_enable: B8LevelRegister,
    pub int_flag: IntFlag,
    pub parameter: Fifo<u8>,
    pub response: Fifo<u8>,
    pub data: Fifo<u8>,
}

impl State {
    pub open spec fn wf(&self) -> bool {
        &&& self.parameter.wf()
        &&& self.response.wf()
        &&& self.data.wf()
        &&& self.parameter.capacity() == 16
        &&& self.response.capacity() == 16
        &&& self.data.capacity() == spec_sector_size()
    }

    pub fn new() -> (r: State)
        ensures
            r.wf(),
            r.command is None,
            r.int_flag.flags == 0u8,
            r.parameter.contents() == Seq::<u8>::empty(),
            r.response.contents() == Seq::<u8>::empty(),
            r.data.contents() == Seq::<u8>::empty(),
    {
        State {
            status: B8LevelRegister::new(),
            command: None,
            int_enable: B8LevelRegister::new(),
            int_flag: IntFlag::new(),
            parameter: Fifo::new(16, 0),
            response: Fifo::new(16, 0),
            data: Fifo::new(2048, 0),
        }
    }
}

/// The drive's private state.
pub struct ControllerState {
    pub command_index: Option<u8>,
    pub command_iteration: u32,
    pub lba_address: u32,
    pub read_buffer: Fifo<u8>,
    pub reading: bool,
    pub sector_delay_counter: u32,
}

impl ControllerState {
    pub open spec fn wf(&self) -> bool {
        &&& self.read_buffer.wf()
        &&& self.read_buffer.capacity() == spec_sector_size()
    }

    pub fn new() -> (r: ControllerState)
        ensures
            r.wf(),
            r.command_index is None,
            r.command_iteration == 0u32,
            !r.reading,
            r.read_buffer.contents() == Seq::<u8>::empty(),
    {
        ControllerState {
            command_index: None,
            command_iteration: 0,
            lba_address: 0,
            read_buffer: Fifo::new(2048, 0),
            reading: false,
            sector_delay_counter: 0,
        }
    }
}

/// Latches an interrupt: the code lands in the low three bits of the
/// interrupt flag and the drive's line on the interrupt controller rises.
pub fn raise_irq(int_flag: &mut IntFlag, intc_stat: &mut Stat, code: u8)
    requires
        code < 8,
    ensures
        final(int_flag).flags == (old(int_flag).flags & 0xF8u8) | code,
        final(int_flag).written == old(int_flag).written,
        *final(intc_stat) == old(intc_stat).spec_assert_line(Line::Cdrom),
{
    int_flag.flags = (int_flag.flags & 0xF8) | code;
    intc_stat.assert_line(Line::Cdrom);
}

/// Applies a pending guest acknowledge of the interrupt flag: written one
/// bits clear the matching flag bits, and the response FIFO is flushed for
/// the next exchange.
pub fn handle_interrupt_flags(state: &mut State)
    requires
        old(state).wf(),
    ensures
        final(state).wf(),
        old(state).int_flag.written matches Some(mask) ==> final(state).int_flag.flags == (old(state).int_flag.flags & !mask) && final(state).int_flag.written is None && final(state).response.contents() == Seq::<u8>::empty(),
        old(state).int_flag.written is None ==> *final(state) == *old(state),
{
    match state.int_flag.written {
        Some(mask) => {
            state.int_flag.flags = state.int_flag.flags & !mask;
            state.int_flag.written = None;
            state.response.clear();
        },
        None => {},
    }
}

/// Reads one sector's payload out of the disc into the read buffer.
pub fn read_sector(cs: &mut ControllerState, disc: &Disc) -> (r: Result<(), CdromError>)
    requires
        old(cs).wf(),
        disc.wf(),
        disc.sectors.len() <= 0x10_0000,
        old(cs).read_buffer.contents().len() == 0,
    ensures
        final(cs).wf(),
        old(cs).lba_address < disc.sectors.len() ==> r is Ok && final(cs).read_buffer.contents()
            == disc.sectors[old(cs).lba_address as int]@ && final(cs).lba_address == old(cs).lba_address + 1,
        old(cs).lba_address >= disc.sectors.len() ==> r == Err::<(), CdromError>(
            CdromError::SectorOutOfRange,
        ) && *final(cs) == *old(cs),
        final(cs).command_index == old(cs).command_index,
        final(cs).command_iteration == old(cs).command_iteration,
        final(cs).reading == old(cs).reading,
        final(cs).sector_delay_counter == old(cs).sector_delay_counter,
{
    let lba = cs.lba_address as usize;
    if lba >= disc.sectors.len() {
        return Err(CdromError::SectorOutOfRange);
    }
    let sector = &disc.sectors[lba];
    let ghost target = sector@;
    let mut i: usize = 0;
    let len = sector.len();
    while i < len
        invariant
            cs.wf(),
            i <= len,
            len == target.len(),
            len == spec_sector_size(),
            target == disc.sectors[old(cs).lba_address as int]@,
            sector@ == target,
            cs.read_buffer.contents() == target.take(i as int),
            cs.command_index == old(cs).command_index,
            cs.command_iteration == old(cs).command_iteration,
            cs.reading == old(cs).reading,
            cs.sector_delay_counter == old(cs).sector_delay_counter,
            cs.lba_address == old(cs).lba_address,
        decreases len - i,
    {
        let b = sector[i];
        let _ = cs.read_buffer.write_one(b);
        proof {
            assert(cs.read_buffer.contents() =~= target.take(i + 1));
        }
        i += 1;
    }
    proof {
        assert(cs.read_buffer.contents() =~= target);
    }
    cs.lba_address = cs.lba_address + 1;
    Ok(())
}


/// Drive status byte with only the motor-on bit.
pub open spec fn spec_stat_motor_on() -> u8 {
    0x02u8
}

/// Drive status byte with the motor-on and reading bits.
pub open spec fn spec_stat_reading() -> u8 {
    0x22u8
}

/// Drive status byte with the motor-on and seeking bits.
pub open spec fn spec_stat_seeking() -> u8 {
    0x42u8
}

/// Reads the current drive status: called with the command register idle.
/// One phase: status byte, then the acknowledge interrupt.
pub fn command_01(
    state: &mut State,
    cs: &mut ControllerState,
    disc: &Disc,
    intc_stat: &mut Stat,
    command_iteration: u32,
) -> (r: Result<bool, CdromError>)
    requires
        old(state).wf(),
        old(cs).wf(),
        command_iteration == 0,
        old(state).response.contents().len() < 16,
    ensures
        final(state).wf(),
        final(cs).wf(),
        r == Ok::<bool, CdromError>(true),
        final(state).response.contents() == old(state).response.contents().push(
            spec_stat_motor_on(),
        ),
        final(state).parameter == old(state).parameter,
        final(state).data == old(state).data,
        final(state).int_flag.flags == (old(state).int_flag.flags & 0xF8u8) | 3u8,
        *final(intc_stat) == old(intc_stat).spec_assert_line(Line::Cdrom),
        *final(cs) == *old(cs),
{
    let _ = state.response.write_one(0x02);
    raise_irq(&mut state.int_flag, intc_stat, 3);
    Ok(true)
}

/// Sets the seek location from three minute/second/frame parameter bytes.
/// An address before the lead-out start is rejected.
pub fn command_02(
    state: &mut State,
    cs: &mut ControllerState,
    disc: &Disc,
    intc_stat: &mut Stat,
    command_iteration: u32,
) -> (r: Result<bool, CdromError>)
    requires
        old(state).wf(),
        old(cs).wf(),
        command_iteration == 0,
        old(state).parameter.contents().len() >= 3,
        old(state).response.contents().len() < 16,
    ensures
        final(state).wf(),
        final(cs).wf(),
        final(state).parameter.contents() == old(state).parameter.contents().subrange(
            3,
            old(state).parameter.contents().len() as int,
        ),
        final(state).data == old(state).data,
        ({
            let m = old(state).parameter.contents()[0];
            let sec = old(state).parameter.contents()[1];
            let f = old(state).parameter.contents()[2];
            &&& (spec_msf_to_lba(m, sec, f) >= 0 ==> r == Ok::<bool, CdromError>(true) && final(cs).lba_address == spec_msf_to_lba(m, sec, f) && final(state).response.contents() == old(state).response.contents().push(spec_stat_motor_on()) && final(state).int_flag.flags == (old(state).int_flag.flags & 0xF8u8) | 3u8 && *final(intc_stat) == old(intc_stat).spec_assert_line(Line::Cdrom))
            &&& (spec_msf_to_lba(m, sec, f) < 0 ==> r == Err::<bool, CdromError>(
                CdromError::SectorOutOfRange,
            ))
        }),
{
    let minute = match state.parameter.read_one() {
        Ok(b) => b,
        Err(()) => 0,
    };
    let second = match state.parameter.read_one() {
        Ok(b) => b,
        Err(()) => 0,
    };
    let frame = match state.parameter.read_one() {
        Ok(b) => b,
        Err(()) => 0,
    };
    proof {
        assert(state.parameter.contents() =~= old(state).parameter.contents().subrange(
            3,
            old(state).parameter.contents().len() as int,
        ));
    }
    let frames: u32 = ((minute as u32) * 60 + (second as u32)) * 75 + (frame as u32);
    if frames < 150 {
        return Err(CdromError::SectorOutOfRange);
    }
    cs.lba_address = frames - 150;
    let _ = state.response.write_one(0x02);
    raise_irq(&mut state.int_flag, intc_stat, 3);
    Ok(true)
}

/// Starts reading sectors: acknowledges the command and turns the read
/// pump on; the pump then delivers each sector into the data FIFO with
/// its own data-ready interrupt.
pub fn command_06(
    state: &mut State,
    cs: &mut ControllerState,
    disc: &Disc,
    intc_stat: &mut Stat,
    command_iteration: u32,
) -> (r: Result<bool, CdromError>)
    requires
        old(state).wf(),
        old(cs).wf(),
        disc.wf(),
        command_iteration == 0,
        old(state).response.contents().len() < 16,
    ensures
        final(state).wf(),
        final(cs).wf(),
        r == Ok::<bool, CdromError>(true),
        final(state).response.contents() == old(state).response.contents().push(
            spec_stat_reading(),
        ),
        final(state).parameter == old(state).parameter,
        final(state).data == old(state).data,
        final(state).int_flag.flags == (old(state).int_flag.flags & 0xF8u8) | 3u8,
        *final(intc_stat) == old(intc_stat).spec_assert_line(Line::Cdrom),
        *final(cs) == (ControllerState { reading: true, ..*old(cs) }),
{
    let _ = state.response.write_one(0x22);
    raise_irq(&mut state.int_flag, intc_stat, 3);
    cs.reading = true;
    Ok(true)
}

/// Sets the drive mode from one parameter byte.
pub fn command_0e(
    state: &mut State,
    cs: &mut ControllerState,
    disc: &Disc,
    intc_stat: &mut Stat,
    command_iteration: u32,
) -> (r: Result<bool, CdromError>)
    requires
        old(state).wf(),
        old(cs).wf(),
        command_iteration == 0,
        old(state).parameter.contents().len() >= 1,
        old(state).response.contents().len() < 16,
    ensures
        final(state).wf(),
        final(cs).wf(),
        r == Ok::<bool, CdromError>(true),
        final(state).parameter.contents() == old(state).parameter.contents().drop_first(),
        final(state).data == old(state).data,
        final(state).response.contents() == old(state).response.contents().push(
            spec_stat_motor_on(),
        ),
        final(state).int_flag.flags == (old(state).int_flag.flags & 0xF8u8) | 3u8,
        *final(intc_stat) == old(intc_stat).spec_assert_line(Line::Cdrom),
        *final(cs) == *old(cs),
{
    let _mode = match state.parameter.read_one() {
        Ok(b) => b,
        Err(()) => 0,
    };
    let _ = state.response.write_one(0x02);
    raise_irq(&mut state.int_flag, intc_stat, 3);
    Ok(true)
}

/// Seeks in data mode: a seeking acknowledge first, then the completion
/// phase with its own interrupt.
pub fn command_15(
    state: &mut State,
    cs: &mut ControllerState,
    disc: &Disc,
    intc_stat: &mut Stat,
    command_iteration: u32,
) -> (r: Result<bool, CdromError>)
    requires
        old(state).wf(),
        old(cs).wf(),
        command_iteration <= 1,
        old(state).response.contents().len() < 16,
    ensures
        final(state).wf(),
        final(cs).wf(),
        command_iteration == 0 ==> r == Ok::<bool, CdromError>(false) && final(state).response.contents() == old(state).response.contents().push(spec_stat_seeking()) && final(state).int_flag.flags == (old(state).int_flag.flags & 0xF8u8) | 3u8,
        command_iteration == 1 ==> r == Ok::<bool, CdromError>(true) && final(state).response.contents() == old(state).response.contents().push(spec_stat_motor_on())
            && final(state).int_flag.flags == (old(state).int_flag.flags & 0xF8u8) | 2u8,
        *final(intc_stat) == old(intc_stat).spec_assert_line(Line::Cdrom),
        *final(cs) == *old(cs),
        final(state).parameter == old(state).parameter,
        final(state).data == old(state).data,
{
    if command_iteration == 0 {
        let _ = state.response.write_one(0x42);
        raise_irq(&mut state.int_flag, intc_stat, 3);
        Ok(false)
    } else {
        let _ = state.response.write_one(0x02);
        raise_irq(&mut state.int_flag, intc_stat, 2);
        Ok(true)
    }
}

/// Runs a self-test sub-function named by one parameter byte; only the
/// firmware-version query is implemented, answering four version bytes.
pub fn command_19(
    state: &mut State,
    cs: &mut ControllerState,
    disc: &Disc,
    intc_stat: &mut Stat,
    command_iteration: u32,
) -> (r: Result<bool, CdromError>)
    requires
        old(state).wf(),
        old(cs).wf(),
        command_iteration == 0,
        old(state).parameter.contents().len() >= 1,
        old(state).response.contents().len() + 4 <= 16,
    ensures
        final(state).wf(),
        final(cs).wf(),
        final(state).parameter.contents() == old(state).parameter.contents().drop_first(),
        final(state).data == old(state).data,
        old(state).parameter.contents()[0] == 0x20 ==> r == Ok::<bool, CdromError>(true) && final(state).response.contents() == old(state).response.contents().push(0x94u8).push(0x09u8).push(
            0x19u8,
        ).push(0xC0u8) && final(state).int_flag.flags == (old(state).int_flag.flags & 0xF8u8) | 3u8
            && *final(intc_stat) == old(intc_stat).spec_assert_line(Line::Cdrom),
        old(state).parameter.contents()[0] != 0x20 ==> r == Err::<bool, CdromError>(
            CdromError::UnknownSubFunction(old(state).parameter.contents()[0]),
        ) && final(state).response == old(state).response,
        *final(cs) == *old(cs),
{
    let sub_function = match state.parameter.read_one() {
        Ok(b) => b,
        Err(()) => 0,
    };
    if sub_function != 0x20 {
        return Err(CdromError::UnknownSubFunction(sub_function));
    }
    let _ = state.response.write_one(0x94);
    let _ = state.response.write_one(0x09);
    let _ = state.response.write_one(0x19);
    let _ = state.response.write_one(0xC0);
    raise_irq(&mut state.int_flag, intc_stat, 3);
    Ok(true)
}

/// Identifies the disc: an acknowledge phase, then eight identification
/// bytes for a data disc of the second mode.
pub fn command_1a(
    state: &mut State,
    cs: &mut ControllerState,
    disc: &Disc,
    intc_stat: &mut Stat,
    command_iteration: u32,
) -> (r: Result<bool, CdromError>)
    requires
        old(state).wf(),
        old(cs).wf(),
        command_iteration <= 1,
        old(state).response.contents().len() + 8 <= 16,
    ensures
        final(state).wf(),
        final(cs).wf(),
        command_iteration == 0 ==> r == Ok::<bool, CdromError>(false) && final(state).response.contents() == old(state).response.contents().push(spec_stat_motor_on())
            && final(state).int_flag.flags == (old(state).int_flag.flags & 0xF8u8) | 3u8 && *final(intc_stat) == old(intc_stat).spec_assert_line(Line::Cdrom),
        command_iteration == 1 && disc.mode == 2 ==> r == Ok::<bool, CdromError>(true) && final(state).response.contents() == old(state).response.contents().push(0x02u8).push(0x00u8).push(
            0x20u8,
        ).push(0x00u8).push(0x53u8).push(0x43u8).push(0x45u8).push(0x41u8) && final(state).int_flag.flags == (old(state).int_flag.flags & 0xF8u8) | 2u8 && *final(intc_stat) == old(intc_stat).spec_assert_line(Line::Cdrom),
        command_iteration == 1 && disc.mode != 2 ==> r == Err::<bool, CdromError>(
            CdromError::UnknownDiscMode(disc.mode),
        ) && *final(state) == *old(state) && *final(intc_stat) == *old(intc_stat),
        *final(cs) == *old(cs),
        final(state).parameter == old(state).parameter,
        final(state).data == old(state).data,
{
    if command_iteration == 0 {
        let _ = state.response.write_one(0x02);
        raise_irq(&mut state.int_flag, intc_stat, 3);
        Ok(false)
    } else {
        if disc.mode != 2 {
            return Err(CdromError::UnknownDiscMode(disc.mode));
        }
        let _ = state.response.write_one(0x02);
        let _ = state.response.write_one(0x00);
        let _ = state.response.write_one(0x20);
        let _ = state.response.write_one(0x00);
        let _ = state.response.write_one(0x53);
        let _ = state.response.write_one(0x43);
        let _ = state.response.write_one(0x45);
        let _ = state.response.write_one(0x41);
        raise_irq(&mut state.int_flag, intc_stat, 2);
        Ok(true)
    }
}


/// The sector bytes the pump is about to stream: the leftover of the
/// sector in flight, or the next sector off the disc.
pub open spec fn spec_pump_source(cs: ControllerState, disc: Disc) -> Seq<u8> {
    if cs.read_buffer.contents().len() > 0 {
        cs.read_buffer.contents()
    } else {
        disc.sectors[cs.lba_address as int]@
    }
}

/// The pump delivers on this tick: a read is in progress, the guest has
/// drained enough of the response FIFO, and either sector bytes are still
/// in flight or the data FIFO is free for the next sector.
pub open spec fn spec_pump_fires(state: State, cs: ControllerState, disc: Disc) -> bool {
    &&& cs.reading
    &&& state.response.capacity() - state.response.contents().len() >= 12
    &&& (cs.read_buffer.contents().len() > 0 || (state.data.contents().len() == 0
        && cs.lba_address < disc.sectors.len()))
}

/// The pump is idle on this tick: no read in progress, the guest has not
/// drained the response FIFO, or the data FIFO still holds the previous
/// sector.
pub open spec fn spec_pump_quiet(state: State, cs: ControllerState) -> bool {
    ||| !cs.reading
    ||| state.response.capacity() - state.response.contents().len() < 12
    ||| (cs.read_buffer.contents().len() == 0 && state.data.contents().len() > 0)
}

/// The sector pump: when a read is in progress and the guest has drained
/// enough of the response FIFO, streams the next sector into the data
/// FIFO behind a status byte in the response FIFO, and raises the
/// data-ready interrupt. A sector still sitting in the data FIFO stalls
/// the pump until the guest (or the bus master) drains it. Reports
/// whether an interrupt was raised.
pub fn handle_reading(
    state: &mut State,
    cs: &mut ControllerState,
    disc: &Disc,
    intc_stat: &mut Stat,
) -> (r: Result<bool, CdromError>)
    requires
        old(state).wf(),
        old(cs).wf(),
        disc.wf(),
        disc.sectors.len() <= 0x10_0000,
    ensures
        final(state).wf(),
        final(cs).wf(),
        spec_pump_quiet(*old(state), *old(cs)) ==> r == Ok::<bool, CdromError>(false) && *final(state) == *old(state) && *final(cs) == *old(cs) && *final(intc_stat) == *old(intc_stat),
        old(cs).reading && old(state).response.capacity() - old(state).response.contents().len() >= 12 && old(cs).read_buffer.contents().len() == 0 && old(state).data.contents().len() == 0 && old(cs).lba_address >= disc.sectors.len() ==> r == Err::<
            bool,
            CdromError,
        >(CdromError::SectorOutOfRange) && *final(state) == *old(state) && *final(cs) == *old(cs),
        spec_pump_fires(*old(state), *old(cs), *disc) ==> ({
            let source = spec_pump_source(*old(cs), *disc);
            let room = spec_sector_size() - old(state).data.contents().len();
            let moved = if source.len() <= room {
                source.len() as int
            } else {
                room
            };
            &&& r == Ok::<bool, CdromError>(true)
            &&& final(state).response.contents() == old(state).response.contents().push(
                spec_stat_reading(),
            )
            &&& final(state).data.contents() == old(state).data.contents() + source.take(moved)
            &&& final(cs).read_buffer.contents() == source.skip(moved)
            &&& final(state).int_flag.flags == (old(state).int_flag.flags & 0xF8u8) | 1u8
            &&& *final(intc_stat) == old(intc_stat).spec_assert_line(Line::Cdrom)
            &&& (old(cs).read_buffer.contents().len() == 0 ==> final(cs).lba_address == old(cs).lba_address + 1)
            &&& (old(cs).read_buffer.contents().len() > 0 ==> final(cs).lba_address == old(cs).lba_address)
            &&& final(cs).reading
            &&& final(state).parameter == old(state).parameter
        }),
{
    if !cs.reading {
        return Ok(false);
    }
    if state.response.write_available() < 12 {
        return Ok(false);
    }

    if cs.read_buffer.is_empty() {
        if !state.data.is_empty() {
            return Ok(false);
        }
        read_sector(cs, disc)?;
    }

    let ghost source = cs.read_buffer.contents();
    let _ = state.response.write_one(0x22);
    proof {
        crate::fifo::lemma_available_sums_to_capacity(&state.data);
    }

    let mut moved: usize = 0;
    loop
        invariant
            state.wf(),
            cs.wf(),
            moved <= source.len(),
            cs.read_buffer.contents() == source.skip(moved as int),
            state.data.contents() == old(state).data.contents() + source.take(moved as int),
            state.data.contents().len() <= state.data.capacity(),
            state.int_flag == old(state).int_flag,
            state.parameter == old(state).parameter,
            state.response.contents() == old(state).response.contents().push(spec_stat_reading()),
            state.response.capacity() == old(state).response.capacity(),
            cs.lba_address == old(cs).lba_address + (if old(cs).read_buffer.contents().len() == 0 {
                1int
            } else {
                0int
            }),
            cs.reading,
            cs.command_index == old(cs).command_index,
            cs.command_iteration == old(cs).command_iteration,
            cs.sector_delay_counter == old(cs).sector_delay_counter,
        ensures
            moved == (if source.len() as int <= spec_sector_size() - old(state).data.contents().len() {
                source.len() as int
            } else {
                spec_sector_size() - old(state).data.contents().len()
            }),
        decreases cs.read_buffer.contents().len(),
    {
        if state.data.is_full() {
            proof {
                assert(moved == spec_sector_size() - old(state).data.contents().len());
            }
            break ;
        }
        match cs.read_buffer.read_one() {
            Ok(b) => {
                let _ = state.data.write_one(b);
                proof {
                    assert(state.data.contents() =~= old(state).data.contents() + source.take(
                        moved + 1,
                    ));
                }
                moved += 1;
            },
            Err(()) => {
                proof {
                    assert(source.skip(moved as int).len() == 0);
                    assert(moved == source.len());
                }
                break ;
            },
        }
    }

    raise_irq(&mut state.int_flag, intc_stat, 1);
    Ok(true)
}


/// Whether a command's handler completes on this phase.
pub open spec fn spec_command_finished(command: CdromCommand, iteration: u32) -> bool {
    match command {
        CdromCommand::SeekL => iteration == 1,
        CdromCommand::GetId => iteration == 1,
        _ => true,
    }
}

/// The interrupt code a command's phase latches.
pub open spec fn spec_command_int(command: CdromCommand, iteration: u32) -> u8 {
    match command {
        CdromCommand::SeekL => if iteration == 1 {
            2u8
        } else {
            3u8
        },
        CdromCommand::GetId => if iteration == 1 {
            2u8
        } else {
            3u8
        },
        _ => 3u8,
    }
}

/// The bytes a command's phase pushes into the response FIFO.
pub open spec fn spec_command_response(command: CdromCommand, iteration: u32) -> Seq<u8> {
    match command {
        CdromCommand::GetStat => seq![spec_stat_motor_on()],
        CdromCommand::Setloc => seq![spec_stat_motor_on()],
        CdromCommand::ReadN => seq![spec_stat_reading()],
        CdromCommand::Setmode => seq![spec_stat_motor_on()],
        CdromCommand::SeekL => if iteration == 1 {
            seq![spec_stat_motor_on()]
        } else {
            seq![spec_stat_seeking()]
        },
        CdromCommand::Test => seq![0x94u8, 0x09u8, 0x19u8, 0xC0u8],
        CdromCommand::GetId => if iteration == 1 {
            seq![0x02u8, 0x00u8, 0x20u8, 0x00u8, 0x53u8, 0x43u8, 0x45u8, 0x41u8]
        } else {
            seq![spec_stat_motor_on()]
        },
    }
}

/// A command's phase accepts its inputs: the seek target is on the disc
/// side of the lead-in, the self-test sub-function is implemented, and
/// disc identification only answers for the second disc mode.
pub open spec fn spec_command_accepts(
    command: CdromCommand,
    iteration: u32,
    params: Seq<u8>,
    disc: Disc,
) -> bool {
    match command {
        CdromCommand::Setloc => spec_msf_to_lba(params[0], params[1], params[2]) >= 0,
        CdromCommand::Test => params[0] == 0x20,
        CdromCommand::GetId => iteration == 1 ==> disc.mode == 2,
        _ => true,
    }
}

/// The phases a command may be dispatched in.
pub open spec fn spec_command_phase_ok(command: CdromCommand, iteration: u32) -> bool {
    match command {
        CdromCommand::SeekL => iteration <= 1,
        CdromCommand::GetId => iteration <= 1,
        _ => iteration == 0,
    }
}

/// The command byte and phase a dispatch would run: a command already in
/// flight keeps its phase; otherwise a freshly written command byte
/// starts at phase zero.
pub open spec fn spec_effective_command(state: State, cs: ControllerState) -> Option<(u8, u32)> {
    if cs.command_index is Some {
        Some((cs.command_index->0, cs.command_iteration))
    } else if state.command is Some {
        Some((state.command->0, 0u32))
    } else {
        None
    }
}

/// One command-dispatch step of the drive. Nothing runs while an
/// interrupt is unacknowledged; the sector pump comes next; otherwise a
/// newly written command byte is latched and, once its parameters have
/// all arrived, its handler runs with the response FIFO empty. A handler
/// that is not finished advances the phase counter for the next tick.
/// Returns which work was done: none, or a handler run, with whether it
/// finished.
pub fn handle_command(
    state: &mut State,
    cs: &mut ControllerState,
    disc: &Disc,
    intc_stat: &mut Stat,
) -> (r: Result<Option<bool>, CdromError>)
    requires
        old(state).wf(),
        old(cs).wf(),
        disc.wf(),
        disc.sectors.len() <= 0x10_0000,
    ensures
        final(state).wf(),
        final(cs).wf(),
        old(state).int_flag.flags & 0x07u8 != 0 ==> r == Ok::<Option<bool>, CdromError>(None)
            && *final(state) == *old(state) && *final(cs) == *old(cs),
        r matches Ok(Some(finished)) ==> old(state).response.contents().len() == 0 && final(state).parameter.contents().len() == 0 && (finished ==> final(cs).command_index is None),
        old(state).int_flag.flags & 0x07u8 == 0 && spec_pump_quiet(*old(state), *old(cs))
            && spec_effective_command(*old(state), *old(cs)) is None ==> r == Ok::<
            Option<bool>,
            CdromError,
        >(None) && final(state).parameter == old(state).parameter && final(state).response == old(state).response && final(state).data == old(state).data && *final(cs) == *old(cs),
        old(state).int_flag.flags & 0x07u8 == 0 && spec_pump_quiet(*old(state), *old(cs))
            && spec_effective_command(*old(state), *old(cs)) is Some ==> ({
            let pair = spec_effective_command(*old(state), *old(cs))->0;
            let c = pair.0;
            let i = pair.1;
            let params = old(state).parameter.contents();
            match get_handler_spec(c) {
                None => r == Err::<Option<bool>, CdromError>(CdromError::UnknownCommand(c)),
                Some(command) => {
                    &&& (params.len() < spec_command_parameter_length(command) ==> r == Ok::<
                        Option<bool>,
                        CdromError,
                    >(None) && final(state).parameter == old(state).parameter && final(state).response == old(state).response)
                    &&& (params.len() == spec_command_parameter_length(command) && old(state).response.contents().len() > 0 ==> r == Err::<Option<bool>, CdromError>(
                        CdromError::ResponseResidue,
                    ))
                    &&& (params.len() == spec_command_parameter_length(command) && old(state).response.contents().len() == 0 && spec_command_phase_ok(command, i)
                        && spec_command_accepts(command, i, params, *disc) ==> r == Ok::<
                        Option<bool>,
                        CdromError,
                    >(Some(spec_command_finished(command, i))) && final(state).response.contents()
                        == spec_command_response(command, i) && final(state).int_flag.flags & 0x07u8
                        == spec_command_int(command, i) && *final(intc_stat) == old(intc_stat).spec_assert_line(Line::Cdrom) && final(state).parameter.contents().len() == 0
                        && (spec_command_finished(command, i) ==> final(cs).command_index is None)
                        && (!spec_command_finished(command, i) ==> final(cs).command_index == Some(c) && final(cs).command_iteration == i + 1) && (command == CdromCommand::ReadN
                        ==> final(cs).reading))
                },
            }
        }),
{
    if state.int_flag.read() & 0x07 != 0 {
        return Ok(None);
    }

    let pumped = handle_reading(state, cs, disc, intc_stat)?;
    if pumped {
        return Ok(None);
    }

    if cs.command_index.is_none() {
        state.status.write_u8(state.status.read_u8() & 0x7F);
        match state.command {
            None => {
                return Ok(None);
            },
            Some(value) => {
                state.status.write_u8(state.status.read_u8() | 0x80);
                state.command = None;
                cs.command_index = Some(value);
                cs.command_iteration = 0;
            },
        }
    }

    let command_value = match cs.command_index {
        Some(v) => v,
        None => 0,
    };
    let command = match get_handler_fn(command_value) {
        Some(c) => c,
        None => {
            return Err(CdromError::UnknownCommand(command_value));
        },
    };

    let needed = command_parameter_length(command, cs.command_iteration);
    if state.parameter.read_available() < needed {
        return Ok(None);
    }

    if !state.response.is_empty() {
        return Err(CdromError::ResponseResidue);
    }

    let iteration = cs.command_iteration;
    let phase_ok = match command {
        CdromCommand::GetStat => iteration == 0,
        CdromCommand::Setloc => iteration == 0,
        CdromCommand::ReadN => iteration == 0,
        CdromCommand::Setmode => iteration == 0,
        CdromCommand::SeekL => iteration <= 1,
        CdromCommand::Test => iteration == 0,
        CdromCommand::GetId => iteration <= 1,
    };
    if !phase_ok {
        return Err(CdromError::UnknownCommand(command_value));
    }

    let finished = match command {
        CdromCommand::GetStat => command_01(state, cs, disc, intc_stat, iteration)?,
        CdromCommand::Setloc => command_02(state, cs, disc, intc_stat, iteration)?,
        CdromCommand::ReadN => command_06(state, cs, disc, intc_stat, iteration)?,
        CdromCommand::Setmode => command_0e(state, cs, disc, intc_stat, iteration)?,
        CdromCommand::SeekL => command_15(state, cs, disc, intc_stat, iteration)?,
        CdromCommand::Test => command_19(state, cs, disc, intc_stat, iteration)?,
        CdromCommand::GetId => command_1a(state, cs, disc, intc_stat, iteration)?,
    };

    if !finished {
        // Only the first phase is ever distinguished, so the counter may
        // saturate harmlessly.
        if cs.command_iteration < 0xFFFF_FFFF {
            cs.command_iteration = cs.command_iteration + 1;
        }
    } else {
        cs.command_index = None;
    }

    if !state.parameter.is_empty() {
        return Err(CdromError::ParameterResidue);
    }

    proof {
        lemma_int_code_lands(old(state).int_flag.flags, 1u8);
        lemma_int_code_lands(old(state).int_flag.flags, 2u8);
        lemma_int_code_lands(old(state).int_flag.flags, 3u8);
        match command {
            CdromCommand::GetStat => {
                assert(state.response.contents() =~= spec_command_response(command, iteration));
            },
            CdromCommand::Setloc => {
                assert(state.response.contents() =~= spec_command_response(command, iteration));
            },
            CdromCommand::ReadN => {
                assert(state.response.contents() =~= spec_command_response(command, iteration));
            },
            CdromCommand::Setmode => {
                assert(state.response.contents() =~= spec_command_response(command, iteration));
            },
            CdromCommand::SeekL => {
                assert(state.response.contents() =~= spec_command_response(command, iteration));
            },
            CdromCommand::Test => {
                assert(state.response.contents() =~= spec_command_response(command, iteration));
            },
            CdromCommand::GetId => {
                assert(state.response.contents() =~= spec_command_response(command, iteration));
            },
        }
    }
    Ok(Some(finished))
}


/// An interrupt code lands in the low three bits whatever was there.
proof fn lemma_int_code_lands(flags: u8, code: u8)
    by (bit_vector)
    requires
        flags & 0x07u8 == 0,
        code < 8,
    ensures
        ((flags & 0xF8u8) | code) & 0x07u8 == code,
{
}

/// The FIFO levels a trace of the drive records.
#[derive(Clone, Copy, PartialEq, Eq, Structural, Debug)]
pub struct FifoFlags {
    pub parameter_empty: bool,
    pub parameter_full: bool,
    pub response_empty: bool,
    pub response_full: bool,
}

/// Snapshots the parameter and response FIFO levels for diagnostics.
pub fn trace_cdrom(state: &State) -> (r: FifoFlags)
    requires
        state.wf(),
    ensures
        r.parameter_empty == (state.parameter.contents().len() == 0),
        r.parameter_full == (state.parameter.contents().len() == state.parameter.capacity()),
        r.response_empty == (state.response.contents().len() == 0),
        r.response_full == (state.response.contents().len() == state.response.capacity()),
{
    FifoFlags {
        parameter_empty: state.parameter.is_empty(),
        parameter_full: state.parameter.is_full(),
        response_empty: state.response.is_empty(),
        response_full: state.response.is_full(),
    }
}


/// Mirrors the parameter FIFO's levels into the status register: bit 3 is
/// parameter-empty, bit 4 parameter-ready (not full).
pub fn handle_parameter_fifo(state: &mut State)
    requires
        old(state).wf(),
    ensures
        final(state).wf(),
        final(state).status.value & 0x08u8 == (if old(state).parameter.contents().len() == 0 {
            0x08u8
        } else {
            0u8
        }),
        final(state).status.value & 0x10u8 == (if old(state).parameter.contents().len() < old(state).parameter.capacity() {
            0x10u8
        } else {
            0u8
        }),
        final(state).parameter == old(state).parameter,
        final(state).response == old(state).response,
        final(state).data == old(state).data,
        final(state).int_flag == old(state).int_flag,
{
    proof {
        crate::fifo::lemma_available_sums_to_capacity(&state.parameter);
    }
    let value = state.status.read_u8();
    let empty = state.parameter.is_empty();
    let ready = !state.parameter.is_full();
    let with_empty: u8 = if empty {
        value | 0x08
    } else {
        value & !0x08
    };
    let with_ready: u8 = if ready {
        with_empty | 0x10
    } else {
        with_empty & !0x10
    };
    state.status.write_u8(with_ready);
    proof {
        lemma_status_bits(value, empty, ready);
    }
}

/// Mirrors the response FIFO's level into the status register: bit 5 is
/// response-ready (not empty).
pub fn handle_response_fifo(state: &mut State)
    requires
        old(state).wf(),
    ensures
        final(state).wf(),
        final(state).status.value & 0x20u8 == (if old(state).response.contents().len() > 0 {
            0x20u8
        } else {
            0u8
        }),
        final(state).status.value & 0x08u8 == old(state).status.value & 0x08u8,
        final(state).status.value & 0x10u8 == old(state).status.value & 0x10u8,
        final(state).status.value & 0x40u8 == old(state).status.value & 0x40u8,
        final(state).parameter == old(state).parameter,
        final(state).response == old(state).response,
        final(state).data == old(state).data,
        final(state).int_flag == old(state).int_flag,
{
    let value = state.status.read_u8();
    let ready = !state.response.is_empty();
    let updated: u8 = if ready {
        value | 0x20
    } else {
        value & !0x20
    };
    state.status.write_u8(updated);
    proof {
        lemma_status_bit_20(value, ready);
    }
}

/// Mirrors the data FIFO's level into the status register: bit 6 is the
/// data-request flag. It follows the data FIFO; deriving it from the
/// response FIFO instead does not match what boot ROMs observe.
pub fn handle_data_fifo(state: &mut State)
    requires
        old(state).wf(),
    ensures
        final(state).wf(),
        final(state).status.value & 0x40u8 == (if old(state).data.contents().len() > 0 {
            0x40u8
        } else {
            0u8
        }),
        final(state).status.value & 0x08u8 == old(state).status.value & 0x08u8,
        final(state).status.value & 0x10u8 == old(state).status.value & 0x10u8,
        final(state).status.value & 0x20u8 == old(state).status.value & 0x20u8,
        final(state).parameter == old(state).parameter,
        final(state).response == old(state).response,
        final(state).data == old(state).data,
        final(state).int_flag == old(state).int_flag,
{
    let value = state.status.read_u8();
    let ready = !state.data.is_empty();
    let updated: u8 = if ready {
        value | 0x40
    } else {
        value & !0x40
    };
    state.status.write_u8(updated);
    proof {
        lemma_status_bit_40(value, ready);
    }
}

proof fn lemma_status_bits(value: u8, empty: bool, ready: bool)
    by (bit_vector)
    ensures
        ({
            let with_empty: u8 = if empty {
                value | 0x08u8
            } else {
                value & !0x08u8
            };
            let with_ready: u8 = if ready {
                with_empty | 0x10u8
            } else {
                with_empty & !0x10u8
            };
            &&& with_ready & 0x08u8 == (if empty {
                0x08u8
            } else {
                0u8
            })
            &&& with_ready & 0x10u8 == (if ready {
                0x10u8
            } else {
                0u8
            })
        }),
{
}

proof fn lemma_status_bit_20(value: u8, ready: bool)
    by (bit_vector)
    ensures
        (if ready {
            value | 0x20u8
        } else {
            value & !0x20u8
        }) & 0x20u8 == (if ready {
            0x20u8
        } else {
            0u8
        }),
        (if ready {
            value | 0x20u8
        } else {
            value & !0x20u8
        }) & 0x08u8 == value & 0x08u8,
        (if ready {
            value | 0x20u8
        } else {
            value & !0x20u8
        }) & 0x10u8 == value & 0x10u8,
        (if ready {
            value | 0x20u8
        } else {
            value & !0x20u8
        }) & 0x40u8 == value & 0x40u8,
{
}

proof fn lemma_status_bit_40(value: u8, ready: bool)
    by (bit_vector)
    ensures
        (if ready {
            value | 0x40u8
        } else {
            value & !0x40u8
        }) & 0x40u8 == (if ready {
            0x40u8
        } else {
            0u8
        }),
        (if ready {
            value | 0x40u8
        } else {
            value & !0x40u8
        }) & 0x08u8 == value & 0x08u8,
        (if ready {
            value | 0x40u8
        } else {
            value & !0x40u8
        }) & 0x10u8 == value & 0x10u8,
        (if ready {
            value | 0x40u8
        } else {
            value & !0x40u8
        }) & 0x20u8 == value & 0x20u8,
{
}

/// One drive tick: applies a pending interrupt acknowledge, runs at most
/// one of command dispatch and the sector pump (and neither while an
/// interrupt is unacknowledged), then refreshes the guest-visible FIFO
/// status bits from the final FIFO levels.
pub fn handle_tick(
    state: &mut State,
    cs: &mut ControllerState,
    disc: &Disc,
    intc_stat: &mut Stat,
) -> (r: Result<Option<bool>, CdromError>)
    requires
        old(state).wf(),
        old(cs).wf(),
        disc.wf(),
        disc.sectors.len() <= 0x10_0000,
    ensures
        final(state).wf(),
        final(cs).wf(),
        final(state).status.value & 0x08u8 == (if final(state).parameter.contents().len() == 0 {
            0x08u8
        } else {
            0u8
        }),
        final(state).status.value & 0x10u8 == (if final(state).parameter.contents().len() < final(state).parameter.capacity() {
            0x10u8
        } else {
            0u8
        }),
        final(state).status.value & 0x20u8 == (if final(state).response.contents().len() > 0 {
            0x20u8
        } else {
            0u8
        }),
        final(state).status.value & 0x40u8 == (if final(state).data.contents().len() > 0 {
            0x40u8
        } else {
            0u8
        }),
        old(state).int_flag.written is None && old(state).int_flag.flags & 0x07u8 != 0 ==> r
            == Ok::<Option<bool>, CdromError>(None) && final(state).parameter == old(state).parameter && final(state).response == old(state).response && final(state).data == old(state).data && *final(cs) == *old(cs),
        r matches Ok(Some(finished)) ==> final(state).parameter.contents().len() == 0 && (finished
            ==> final(cs).command_index is None),
{
    handle_interrupt_flags(state);
    let r = handle_command(state, cs, disc, intc_stat);
    handle_parameter_fifo(state);
    handle_response_fifo(state);
    handle_data_fifo(state);
    r
}

} // verus!
