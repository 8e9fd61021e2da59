//! System coprocessor state touched by the interrupt path: the cause
//! register with its externally driven interrupt-pending pin, and the
//! status-stack manipulation used on exception entry and exit.

use vstd::prelude::*;
use crate::bitfield::Bitfield;
use crate::mips::Register;

verus! {

/// The interrupt request pins into the CPU. The interrupt controller owns
/// the only one wired up.
#[derive(Clone, Copy, PartialEq, Eq, Structural, Debug)]
pub enum IrqLine {
    Intc,
}

/// The CP0 cause register plus the asynchronous interrupt-pending pin that
/// peripherals drive between instruction steps.
#[derive(Clone, Copy, PartialEq, Eq, Structural, Debug)]
pub struct Cause {
    pub register: Register,
    pub intc_pending: bool,
}

impl Cause {
    pub fn new() -> (r: Cause)
        ensures
            r.register.value == 0u32,
            !r.intc_pending,
    {
        Cause { register: Register::new(), intc_pending: false }
    }

    pub fn assert_line(&mut self, irq_line: IrqLine)
        ensures
            final(self).intc_pending,
            final(self).register == old(self).register,
    {
        match irq_line {
            IrqLine::Intc => self.intc_pending = true,
        }
    }

    pub fn deassert_line(&mut self, irq_line: IrqLine)
        ensures
            !final(self).intc_pending,
            final(self).register == old(self).register,
    {
        match irq_line {
            IrqLine::Intc => self.intc_pending = false,
        }
    }

    /// Copies the pin into the interrupt-pending field of the register
    /// (bit 10, the line the interrupt controller drives).
    pub fn update_ip_field(&mut self)
        ensures
            final(self).register.value == (Bitfield { start: 10, length: 1 }).spec_insert(
                old(self).register.value,
                if old(self).intc_pending {
                    1u32
                } else {
                    0u32
                },
            ),
            final(self).intc_pending == old(self).intc_pending,
    {
        let flag: u32 = if self.intc_pending {
            1
        } else {
            0
        };
        self.register.write_bitfield(Bitfield::new(10, 1), flag);
    }

    /// Clears the pin and the whole eight-bit interrupt-pending field
    /// (bits 8..16).
    pub fn clear_ip_field(&mut self)
        ensures
            !final(self).intc_pending,
            final(self).register.value == (Bitfield { start: 8, length: 8 }).spec_insert(
                old(self).register.value,
                0u32,
            ),
    {
        self.intc_pending = false;
        self.register.write_bitfield(Bitfield::new(8, 8), 0);
    }
}

/// Exception entry: pushes the interrupt-enable / kernel-user two-bit stack
/// held in the low six status bits. The current pair moves to previous, the
/// previous to old, and the new current pair is zero (interrupts off, kernel
/// mode).
pub open spec fn spec_status_push_exception(status: u32) -> u32 {
    (status & !0x3Fu32) | ((status << 2u32) & 0x3Cu32)
}

pub fn status_push_exception(status: u32) -> (r: u32)
    ensures
        r == spec_status_push_exception(status),
        r & 0x3u32 == 0u32,
{
    let r = (status & !0x3Fu32) | ((status << 2) & 0x3Cu32);
    proof {
        lemma_status_push_clears_current(status);
    }
    r
}

/// Exception exit: pops the two-bit stack; the old pair stays in place, as
/// on real hardware.
pub open spec fn spec_status_pop_exception(status: u32) -> u32 {
    (status & !0xFu32) | ((status >> 2u32) & 0xFu32)
}

pub fn status_pop_exception(status: u32) -> (r: u32)
    ensures
        r == spec_status_pop_exception(status),
{
    (status & !0xFu32) | ((status >> 2) & 0xFu32)
}

/// Pushing the status stack masks interrupts and enters kernel mode: the
/// current-pair bits come out zero, and bits outside the six-bit stack are
/// untouched.
pub proof fn lemma_status_push_clears_current(status: u32)
    by (bit_vector)
    ensures
        spec_status_push_exception(status) & 0x3u32 == 0u32,
        spec_status_push_exception(status) & !0x3Fu32 == status & !0x3Fu32,
{
}

/// Round trip: popping right after pushing restores the current and
/// previous pairs (the old pair is duplicated into previous, as on real
/// hardware after a double pop).
pub proof fn lemma_status_push_pop_restores(status: u32)
    by (bit_vector)
    ensures
        spec_status_pop_exception(spec_status_push_exception(status)) & 0xFu32 == status & 0xFu32,
{
}

} // verus!
