//! Level registers: plain 8/16/32-bit words with typed byte, halfword and
//! bit-range accessors. All views alias one little-endian value.

use vstd::prelude::*;
use crate::bitfield::{Bitfield, extract_bits, insert_bits};

verus! {

/// Shift amount of the byte at `offset` inside a 32-bit word.
pub open spec fn byte_shift(offset: u32) -> u32 {
    if offset == 0 {
        0u32
    } else if offset == 1 {
        8u32
    } else if offset == 2 {
        16u32
    } else {
        24u32
    }
}

/// Shift amount of the halfword at `offset` inside a 32-bit word.
pub open spec fn half_shift(offset: u32) -> u32 {
    if offset == 0 {
        0u32
    } else {
        16u32
    }
}

/// The byte at `offset` of the little-endian 32-bit word `value`.
pub open spec fn byte_of(value: u32, offset: u32) -> u8 {
    ((value >> byte_shift(offset)) & 0xFFu32) as u8
}

/// `value` with the byte at `offset` replaced by `b`.
pub open spec fn with_byte(value: u32, offset: u32, b: u8) -> u32 {
    (value & !(0xFFu32 << byte_shift(offset))) | ((b as u32) << byte_shift(offset))
}

/// The halfword at `offset` of the little-endian 32-bit word `value`.
pub open spec fn half_of(value: u32, offset: u32) -> u16 {
    ((value >> half_shift(offset)) & 0xFFFFu32) as u16
}

/// `value` with the halfword at `offset` replaced by `h`.
pub open spec fn with_half(value: u32, offset: u32, h: u16) -> u32 {
    (value & !(0xFFFFu32 << half_shift(offset))) | ((h as u32) << half_shift(offset))
}

/// Writing one byte changes exactly that byte of the word.
pub proof fn lemma_byte_write_read(value: u32, o1: u32, o2: u32, b: u8)
    by (bit_vector)
    requires
        o1 < 4,
        o2 < 4,
    ensures
        byte_of(with_byte(value, o1, b), o2) == if o1 == o2 {
            b
        } else {
            byte_of(value, o2)
        },
{
}

/// Writing one halfword changes exactly that halfword of the word.
pub proof fn lemma_half_write_read(value: u32, o1: u32, o2: u32, h: u16)
    by (bit_vector)
    requires
        o1 < 2,
        o2 < 2,
    ensures
        half_of(with_half(value, o1, h), o2) == if o1 == o2 {
            h
        } else {
            half_of(value, o2)
        },
{
}

/// Little-endian aliasing: a halfword view is composed of its two byte
/// views, low byte first.
pub proof fn lemma_half_is_two_bytes(value: u32, offset: u32)
    by (bit_vector)
    requires
        offset < 2,
    ensures
        half_of(value, offset) == (byte_of(value, mul2(offset)) as u16) | (
        (byte_of(value, add1(mul2(offset))) as u16) << 8u16),
{
}

/// Doubling, named so that bit-vector statements stay first-order.
pub open spec fn mul2(x: u32) -> u32 {
    (2 * x) as u32
}

/// Increment, named so that bit-vector statements stay first-order.
pub open spec fn add1(x: u32) -> u32 {
    (x + 1) as u32
}

/// A 32-bit level register: reads and writes observe the current value, with
/// no history kept.
#[derive(Clone, Copy, PartialEq, Eq, Structural, Debug)]
pub struct B32LevelRegister {
    pub value: u32,
}

impl B32LevelRegister {
    pub fn new() -> (r: B32LevelRegister)
        ensures
            r.value == 0u32,
    {
        B32LevelRegister { value: 0 }
    }

    pub fn read_u8(&self, offset: u32) -> (r: u8)
        requires
            offset < 4,
        ensures
            r == byte_of(self.value, offset),
    {
        let shift: u32 = 8 * offset;
        ((self.value >> shift) & 0xFF) as u8
    }

    pub fn write_u8(&mut self, offset: u32, value: u8)
        requires
            offset < 4,
        ensures
            final(self).value == with_byte(old(self).value, offset, value),
    {
        let shift: u32 = 8 * offset;
        self.value = (self.value & !(0xFFu32 << shift)) | ((value as u32) << shift);
    }

    pub fn read_u16(&self, offset: u32) -> (r: u16)
        requires
            offset < 2,
        ensures
            r == half_of(self.value, offset),
    {
        let shift: u32 = 16 * offset;
        ((self.value >> shift) & 0xFFFF) as u16
    }

    pub fn write_u16(&mut self, offset: u32, value: u16)
        requires
            offset < 2,
        ensures
            final(self).value == with_half(old(self).value, offset, value),
    {
        let shift: u32 = 16 * offset;
        self.value = (self.value & !(0xFFFFu32 << shift)) | ((value as u32) << shift);
    }

    pub fn read_u32(&self) -> (r: u32)
        ensures
            r == self.value,
    {
        self.value
    }

    pub fn write_u32(&mut self, value: u32)
        ensures
            final(self).value == value,
    {
        self.value = value;
    }

    pub fn read_bitfield(&self, bitfield: Bitfield) -> (r: u32)
        requires
            bitfield.wf(),
        ensures
            r == bitfield.spec_extract(self.value),
    {
        bitfield.extract_from(self.value)
    }

    pub fn write_bitfield(&mut self, bitfield: Bitfield, value: u32)
        requires
            bitfield.wf(),
        ensures
            final(self).value == bitfield.spec_insert(old(self).value, value),
    {
        self.value = bitfield.insert_into(self.value, value);
    }
}

/// A 16-bit level register. Bit-range accesses use the low half of the
/// 32-bit bit-range primitives.
#[derive(Clone, Copy, PartialEq, Eq, Structural, Debug)]
pub struct B16LevelRegister {
    pub value: u16,
}

impl B16LevelRegister {
    pub fn new() -> (r: B16LevelRegister)
        ensures
            r.value == 0u16,
    {
        B16LevelRegister { value: 0 }
    }

    pub fn read_u8(&self, offset: u32) -> (r: u8)
        requires
            offset < 2,
        ensures
            r == byte_of(self.value as u32, offset),
    {
        let shift: u32 = 8 * offset;
        (((self.value as u32) >> shift) & 0xFF) as u8
    }

    pub fn write_u8(&mut self, offset: u32, value: u8)
        requires
            offset < 2,
        ensures
            final(self).value == with_byte(old(self).value as u32, offset, value) as u16,
    {
        let shift: u32 = 8 * offset;
        let wide: u32 = self.value as u32;
        let updated: u32 = (wide & !(0xFFu32 << shift)) | ((value as u32) << shift);
        proof {
            lemma_byte_update_u16_fits(wide, shift, value);
        }
        self.value = updated as u16;
    }

    pub fn read_u16(&self) -> (r: u16)
        ensures
            r == self.value,
    {
        self.value
    }

    pub fn write_u16(&mut self, value: u16)
        ensures
            final(self).value == value,
    {
        self.value = value;
    }

    pub fn read_bitfield(&self, bitfield: Bitfield) -> (r: u16)
        requires
            bitfield.wf(),
            bitfield.start + bitfield.length <= 16,
        ensures
            r == extract_bits(bitfield.start, bitfield.length, self.value as u32) as u16,
    {
        let r = bitfield.extract_from(self.value as u32);
        proof {
            lemma_extract_u16_fits(bitfield.start, bitfield.length, self.value);
        }
        r as u16
    }

    pub fn write_bitfield(&mut self, bitfield: Bitfield, value: u16)
        requires
            bitfield.wf(),
            bitfield.start + bitfield.length <= 16,
        ensures
            final(self).value == insert_bits(
                bitfield.start,
                bitfield.length,
                old(self).value as u32,
                value as u32,
            ) as u16,
    {
        let updated = bitfield.insert_into(self.value as u32, value as u32);
        proof {
            lemma_insert_u16_fits(bitfield.start, bitfield.length, self.value, value);
        }
        self.value = updated as u16;
    }
}

/// An 8-bit level register.
#[derive(Clone, Copy, PartialEq, Eq, Structural, Debug)]
pub struct B8LevelRegister {
    pub value: u8,
}

impl B8LevelRegister {
    pub fn new() -> (r: B8LevelRegister)
        ensures
            r.value == 0u8,
    {
        B8LevelRegister { value: 0 }
    }

    pub fn read_u8(&self) -> (r: u8)
        ensures
            r == self.value,
    {
        self.value
    }

    pub fn write_u8(&mut self, value: u8)
        ensures
            final(self).value == value,
    {
        self.value = value;
    }
}

/// Updating a byte of a value that fits in 16 bits stays within 16 bits.
proof fn lemma_byte_update_u16_fits(wide: u32, shift: u32, value: u8)
    by (bit_vector)
    requires
        wide <= 0xFFFF,
        shift == 0 || shift == 8,
    ensures
        ((wide & !(0xFFu32 << shift)) | ((value as u32) << shift)) <= 0xFFFF,
        ((wide & !(0xFFu32 << shift)) | ((value as u32) << shift)) as u16 as u32 == ((wide & !(
        0xFFu32 << shift)) | ((value as u32) << shift)),
{
}

/// A bit-range wholly below bit 16 extracts to a value that fits in 16 bits.
proof fn lemma_extract_u16_fits(start: u32, length: u32, value: u16)
    by (bit_vector)
    requires
        1 <= length,
        start + length <= 16,
    ensures
        extract_bits(start, length, value as u32) <= 0xFFFF,
{
}

/// Inserting into a bit-range wholly below bit 16 of a 16-bit value stays
/// within 16 bits.
proof fn lemma_insert_u16_fits(start: u32, length: u32, value: u16, field: u16)
    by (bit_vector)
    requires
        1 <= length,
        start + length <= 16,
    ensures
        insert_bits(start, length, value as u32, field as u32) <= 0xFFFF,
{
}

} // verus!
