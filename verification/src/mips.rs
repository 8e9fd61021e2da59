//! MIPS-side primitives: the general-purpose register word and the raw
//! instruction word.

use vstd::prelude::*;
use crate::bitfield::Bitfield;
use crate::register::{byte_of, with_byte, half_of, with_half};

verus! {

/// A CPU register: a 32-bit word with byte, halfword and bit-range views.
#[derive(Clone, Copy, PartialEq, Eq, Structural, Debug)]
pub struct Register {
    pub value: u32,
}

impl Register {
    pub fn new() -> (r: Register)
        ensures
            r.value == 0u32,
    {
        Register { value: 0 }
    }

    pub fn read_u8(&self, offset: u32) -> (r: u8)
        requires
            offset < 4,
        ensures
            r == byte_of(self.value, offset),
    {
        let shift: u32 = 8 * offset;
        ((self.value >> shift) & 0xFF) as u8
    }

    pub fn write_u8(&mut self, offset: u32, value: u8)
        requires
            offset < 4,
        ensures
            final(self).value == with_byte(old(self).value, offset, value),
    {
        let shift: u32 = 8 * offset;
        self.value = (self.value & !(0xFFu32 << shift)) | ((value as u32) << shift);
    }

    pub fn read_u16(&self, offset: u32) -> (r: u16)
        requires
            offset < 2,
        ensures
            r == half_of(self.value, offset),
    {
        let shift: u32 = 16 * offset;
        ((self.value >> shift) & 0xFFFF) as u16
    }

    pub fn write_u16(&mut self, offset: u32, value: u16)
        requires
            offset < 2,
        ensures
            final(self).value == with_half(old(self).value, offset, value),
    {
        let shift: u32 = 16 * offset;
        self.value = (self.value & !(0xFFFFu32 << shift)) | ((value as u32) << shift);
    }

    pub fn read_u32(&self) -> (r: u32)
        ensures
            r == self.value,
    {
        self.value
    }

    pub fn write_u32(&mut self, value: u32)
        ensures
            final(self).value == value,
    {
        self.value = value;
    }

    pub fn read_bitfield(&self, bitfield: Bitfield) -> (r: u32)
        requires
            bitfield.wf(),
        ensures
            r == bitfield.spec_extract(self.value),
    {
        bitfield.extract_from(self.value)
    }

    pub fn write_bitfield(&mut self, bitfield: Bitfield, value: u32)
        requires
            bitfield.wf(),
        ensures
            final(self).value == bitfield.spec_insert(old(self).value, value),
    {
        self.value = bitfield.insert_into(self.value, value);
    }
}

/// A raw 32-bit instruction word.
#[derive(Clone, Copy, PartialEq, Eq, Structural, Debug)]
pub struct Instruction {
    pub value: u32,
}

impl Instruction {
    pub fn new(value: u32) -> (r: Instruction)
        ensures
            r.value == value,
    {
        Instruction { value }
    }
}

} // verus!
