//! CPU-side control state: the program counter with its branch-delay
//! slot, the pipeline-hazard retry protocol, and exception entry. The
//! per-opcode execute tables are a separate subsystem; the step logic here
//! brackets whatever they do with the fetch bookkeeping and the rollback
//! that makes hazards retryable.

use vstd::prelude::*;
use crate::bitfield::Bitfield;
use crate::cp0::{Cause, spec_status_push_exception, status_push_exception};
use crate::memory::{B8Memory, word_at};
use crate::mips::Register;

verus! {

/// A retryable pipeline hazard: the instruction could not complete and
/// must run again next tick, after the bus or the peripheral has
/// progressed.
#[derive(Clone, Copy, PartialEq, Eq, Structural, Debug)]
pub enum Hazard {
    BusLockedMemoryRead(u32),
    BusLockedMemoryWrite(u32),
    MemoryRead(u32),
    MemoryWrite(u32),
}

pub type InstResult = Result<(), Hazard>;

/// The branch-delay slot: a branch target waiting out its delay
/// instruction.
#[derive(Clone, Copy, PartialEq, Eq, Structural, Debug)]
pub struct BranchDelaySlot {
    pub target: Option<u32>,
    pub counter: u32,
}

impl BranchDelaySlot {
    pub fn new() -> (r: BranchDelaySlot)
        ensures
            r.target is None,
            r.counter == 0u32,
    {
        BranchDelaySlot { target: None, counter: 0 }
    }

    /// A branch is in flight.
    pub open spec fn spec_branching(&self) -> bool {
        self.target is Some
    }

    pub fn branching(&self) -> (r: bool)
        ensures
            r == self.spec_branching(),
    {
        self.target.is_some()
    }

    /// A taken branch arms the slot: the target lands after one delay
    /// instruction.
    pub fn set(&mut self, target: u32)
        ensures
            final(self).target == Some(target),
            final(self).counter == 1u32,
    {
        self.target = Some(target);
        self.counter = 1;
    }

    /// Advances the slot one instruction; when the delay has elapsed the
    /// target comes out and the slot clears.
    pub fn advance(&mut self) -> (r: Option<u32>)
        ensures
            old(self).target is None ==> r is None && *final(self) == *old(self),
            old(self).target is Some && old(self).counter == 0 ==> r == Some(old(self).target->0)
                && final(self).target is None,
            old(self).target is Some && old(self).counter > 0 ==> r is None && final(self).target
                == old(self).target && final(self).counter == old(self).counter - 1,
    {
        match self.target {
            None => None,
            Some(t) => {
                if self.counter == 0 {
                    self.target = None;
                    Some(t)
                } else {
                    self.counter = self.counter - 1;
                    None
                }
            },
        }
    }
}

/// The CPU's register state: program counter, branch-delay slot, and the
/// general-purpose, multiply and divide registers the execute tables work
/// on.
pub struct State {
    pub pc: Register,
    pub branch_delay: BranchDelaySlot,
    pub gpr: Vec<Register>,
    pub hi: Register,
    pub lo: Register,
}

impl State {
    pub open spec fn wf(&self) -> bool {
        self.gpr.len() == 32
    }

    pub fn new() -> (r: State)
        ensures
            r.wf(),
            r.pc.value == 0u32,
            r.branch_delay.target is None,
    {
        let mut gpr: Vec<Register> = Vec::new();
        let mut i: usize = 0;
        while i < 32
            invariant
                i <= 32,
                gpr.len() == i,
            decreases 32 - i,
        {
            gpr.push(Register::new());
            i += 1;
        }
        State { pc: Register::new(), branch_delay: BranchDelaySlot::new(), gpr, hi: Register::new(), lo: Register::new() }
    }
}

/// The system-control registers the exception path touches.
pub struct Cp0State {
    pub status: Register,
    pub cause: Cause,
    pub epc: Register,
}

impl Cp0State {
    pub fn new() -> (r: Cp0State)
        ensures
            r.status.value == 0u32,
            r.cause.register.value == 0u32,
            !r.cause.intc_pending,
            r.epc.value == 0u32,
    {
        Cp0State { status: Register::new(), cause: Cause::new(), epc: Register::new() }
    }
}

/// The program counter an exception records: the faulting instruction, or
/// the branch it sat in the delay slot of.
pub open spec fn spec_exception_epc(pc: u32, branching: bool) -> u32 {
    if branching {
        (pc - 4) as u32
    } else {
        pc
    }
}

/// The exception vector: the general vector, from the bootstrap base when
/// the bootstrap-vectors bit is set.
pub open spec fn spec_exception_vector(status: u32) -> u32 {
    if status & 0x0040_0000u32 != 0 {
        0xBFC0_0180u32
    } else {
        0x8000_0080u32
    }
}

/// Enters an exception: pushes the interrupt-enable/mode stack, records
/// the cause code and the faulting program counter (flagging a fault in a
/// branch-delay slot), and vectors to the handler. Only the interrupt and
/// system-call codes are raised here.
pub fn set_exception(r3000: &mut State, cp0: &mut Cp0State, exccode: u32)
    requires
        old(r3000).wf(),
        exccode == 0 || exccode == 8,
        old(r3000).branch_delay.spec_branching() ==> old(r3000).pc.value >= 4,
    ensures
        final(r3000).wf(),
        final(r3000).gpr == old(r3000).gpr,
        final(cp0).status.value == spec_status_push_exception(old(cp0).status.value),
        final(cp0).epc.value == spec_exception_epc(
            old(r3000).pc.value,
            old(r3000).branch_delay.spec_branching(),
        ),
        final(r3000).pc.value == spec_exception_vector(old(cp0).status.value),
        old(r3000).branch_delay.spec_branching() ==> (Bitfield {
            start: 31,
            length: 1,
        }).spec_extract(final(cp0).cause.register.value) == 1,
        (Bitfield { start: 2, length: 5 }).spec_extract(final(cp0).cause.register.value)
            == exccode,
        final(r3000).branch_delay == old(r3000).branch_delay,
{
    let mut pc_value = r3000.pc.read_u32();

    if r3000.branch_delay.branching() {
        cp0.cause.register.write_bitfield(Bitfield::new(31, 1), 1);
        pc_value = pc_value - 4;
    }

    let status_value = status_push_exception(cp0.status.read_u32());
    let bev = cp0.status.read_u32() & 0x0040_0000 != 0;
    cp0.status.write_u32(status_value);

    cp0.cause.register.write_bitfield(Bitfield::new(2, 5), exccode);

    cp0.epc.write_u32(pc_value);

    let vector: u32 = if bev {
        0xBFC0_0180
    } else {
        0x8000_0080
    };
    r3000.pc.write_u32(vector);

    proof {
        let mid: u32 = if old(r3000).branch_delay.spec_branching() {
            (Bitfield { start: 31, length: 1 }).spec_insert(old(cp0).cause.register.value, 1u32)
        } else {
            old(cp0).cause.register.value
        };
        assert(exccode & crate::bitfield::low_mask(5) == exccode) by (bit_vector)
            requires
                exccode == 0u32 || exccode == 8u32,
        ;
        crate::bitfield::lemma_insert_extract_round_trip(2, 5, mid, exccode);
        if old(r3000).branch_delay.spec_branching() {
            crate::bitfield::lemma_disjoint_ranges_commute(2, 5, 31, 1, mid, exccode);
            assert(1u32 & crate::bitfield::low_mask(1) == 1u32) by (bit_vector);
            crate::bitfield::lemma_insert_extract_round_trip(
                31,
                1,
                old(cp0).cause.register.value,
                1u32,
            );
        }
    }
}

/// Whether an interrupt is due: interrupts enabled, and some line both
/// pending in the cause register and unmasked in the status register.
pub open spec fn spec_interrupt_due(status: u32, cause: u32) -> bool {
    &&& status & 1u32 != 0
    &&& ((status >> 8u32) & 0xFFu32) & ((cause >> 8u32) & 0xFFu32) != 0
}

/// Checks for a due interrupt and enters the interrupt exception when one
/// is found.
pub fn handle_interrupts(r3000: &mut State, cp0: &mut Cp0State)
    requires
        old(r3000).wf(),
        old(r3000).branch_delay.spec_branching() ==> old(r3000).pc.value >= 4,
    ensures
        final(r3000).wf(),
        !spec_interrupt_due(old(cp0).status.value, old(cp0).cause.register.value) ==> *final(r3000)
            == *old(r3000) && *final(cp0) == *old(cp0),
        spec_interrupt_due(old(cp0).status.value, old(cp0).cause.register.value) ==> final(r3000).pc.value == spec_exception_vector(old(cp0).status.value) && final(cp0).status.value
            == spec_status_push_exception(old(cp0).status.value) && final(cp0).epc.value
            == spec_exception_epc(
            old(r3000).pc.value,
            old(r3000).branch_delay.spec_branching(),
        ),
{
    let status = cp0.status.read_u32();
    if status & 1 == 0 {
        return ;
    }

    let im = (status >> 8u32) & 0xFF;
    let ip = (cp0.cause.register.read_u32() >> 8u32) & 0xFF;
    if (im & ip) != 0 {
        set_exception(r3000, cp0, 0);
    }
}

/// Closes an instruction step. A hazard rolls the program counter and the
/// branch-delay slot back to their pre-instruction values, so the
/// instruction runs again next tick; a completed instruction leaves the
/// advanced state in place.
pub fn finish_instruction(
    r3000: &mut State,
    pre_pc: u32,
    pre_branch_delay: BranchDelaySlot,
    result: &InstResult,
)
    requires
        old(r3000).wf(),
    ensures
        final(r3000).wf(),
        result is Err ==> final(r3000).pc.value == pre_pc && final(r3000).branch_delay
            == pre_branch_delay,
        result is Ok ==> *final(r3000) == *old(r3000),
        final(r3000).gpr == old(r3000).gpr,
        final(r3000).hi == old(r3000).hi,
        final(r3000).lo == old(r3000).lo,
{
    if result.is_err() {
        r3000.pc.write_u32(pre_pc);
        r3000.branch_delay = pre_branch_delay;
    }
}


/// The program-counter snapshot a trace records: the counter itself and
/// the kernel-user and interrupt-enable status bits.
pub fn trace_pc(r3000: &State, cp0: &Cp0State) -> (r: (u32, u32, u32))
    ensures
        r.0 == r3000.pc.value,
        r.1 == (cp0.status.value >> 1u32) & 1u32,
        r.2 == cp0.status.value & 1u32,
{
    let pc = r3000.pc.read_u32();
    let status = cp0.status.read_u32();
    (pc, (status >> 1u32) & 1, status & 1)
}

/// Whether a hazard deserves a warning: bus locking is normal and
/// expected occasionally, but a plain memory hazard means a peripheral
/// could not serve the access.
pub fn trace_hazard(hazard: &Hazard) -> (r: bool)
    ensures
        r == (hazard matches Hazard::MemoryRead(_) || hazard matches Hazard::MemoryWrite(_)),
{
    match hazard {
        Hazard::MemoryRead(_) => true,
        Hazard::MemoryWrite(_) => true,
        Hazard::BusLockedMemoryRead(_) => false,
        Hazard::BusLockedMemoryWrite(_) => false,
    }
}


/// Where the translated program counter falls, and the word found there.
pub open spec fn spec_fetch_word(pc: u32, ram: Seq<u8>, bios: Seq<u8>) -> Option<u32> {
    let pa = crate::memory::spec_translate_address(pc);
    if pa + 4 <= crate::memory::spec_main_memory_size() {
        Some(word_at(ram, pa as int))
    } else if 0x1FC0_0000u32 <= pa && pa + 4 <= 0x1FC0_0000 + crate::memory::spec_bios_size() {
        Some(word_at(bios, pa - 0x1FC0_0000))
    } else {
        None
    }
}

/// One fetch step of the CPU: advances the branch-delay slot (landing a
/// fired branch in the program counter), translates the counter, and reads
/// the instruction word from main memory or the boot ROM, incrementing the
/// counter past it. A counter outside both windows yields nothing and the
/// registers keep the post-branch state for the driver to fault on.
pub fn fetch_instruction(
    r3000: &mut State,
    ram: &B8Memory,
    bios: &B8Memory,
) -> (r: Option<u32>)
    requires
        old(r3000).wf(),
        ram.view().len() == crate::memory::spec_main_memory_size(),
        bios.view().len() == crate::memory::spec_bios_size(),
    ensures
        final(r3000).wf(),
        final(r3000).gpr == old(r3000).gpr,
        final(r3000).hi == old(r3000).hi,
        final(r3000).lo == old(r3000).lo,
        ({
            // The counter the fetch sees: the branch target if the delay
            // slot fired on this step, else the old counter.
            let fetch_pc = if old(r3000).branch_delay.target is Some && old(
                r3000,
            ).branch_delay.counter == 0 {
                old(r3000).branch_delay.target->0
            } else {
                old(r3000).pc.value
            };
            &&& r == spec_fetch_word(fetch_pc, ram.view(), bios.view())
            &&& (r is Some ==> final(r3000).pc.value == ((fetch_pc + 4) as u32))
            &&& (r is None ==> final(r3000).pc.value == fetch_pc)
        }),
{
    match r3000.branch_delay.advance() {
        Some(target) => {
            r3000.pc.write_u32(target);
        },
        None => {},
    }

    let pc = r3000.pc.read_u32();
    let pa = crate::memory::translate_address(pc);

    let word = if pa <= 0x20_0000 - 4 {
        ram.read_u32(pa)
    } else if 0x1FC0_0000 <= pa && pa <= 0x1FC0_0000 + 0x8_0000 - 4 {
        bios.read_u32(pa - 0x1FC0_0000)
    } else {
        return None;
    };

    r3000.pc.write_u32(pc + 4);
    Some(word)
}

} // verus!
