//! Flat byte memories (main RAM, BIOS ROM, scratchpad) with typed
//! little-endian accessors, and the virtual-to-physical address translation
//! that strips the cached/uncached segment aliases.

use vstd::prelude::*;
use crate::register::B32LevelRegister;

verus! {

/// A typed read found nothing to read.
#[derive(Clone, Copy, PartialEq, Eq, Structural, Debug)]
pub enum ReadErrorKind {
    Empty,
}

pub type ReadResult<T> = Result<T, ReadErrorKind>;

/// A typed write found no room.
#[derive(Clone, Copy, PartialEq, Eq, Structural, Debug)]
pub enum WriteErrorKind {
    Full,
}

pub type WriteResult = Result<(), WriteErrorKind>;

/// A 32-bit word assembled from four bytes, low byte first.
pub open spec fn word_from_bytes(b0: u8, b1: u8, b2: u8, b3: u8) -> u32 {
    (b0 as u32) | ((b1 as u32) << 8u32) | ((b2 as u32) << 16u32) | ((b3 as u32) << 24u32)
}

/// A 16-bit halfword assembled from two bytes, low byte first.
pub open spec fn half_from_bytes(b0: u8, b1: u8) -> u16 {
    (b0 as u16) | ((b1 as u16) << 8u16)
}

/// The little-endian 32-bit word starting at address `a` of `mem`.
pub open spec fn word_at(mem: Seq<u8>, a: int) -> u32
    recommends
        0 <= a,
        a + 4 <= mem.len(),
{
    word_from_bytes(mem[a], mem[a + 1], mem[a + 2], mem[a + 3])
}

/// The little-endian 16-bit halfword starting at address `a` of `mem`.
pub open spec fn half_at(mem: Seq<u8>, a: int) -> u16
    recommends
        0 <= a,
        a + 2 <= mem.len(),
{
    half_from_bytes(mem[a], mem[a + 1])
}

/// A flat byte memory of fixed size.
pub struct B8Memory {
    memory: Vec<u8>,
}

impl B8Memory {
    /// The bytes held, as a sequence indexed by address.
    pub closed spec fn view(&self) -> Seq<u8> {
        self.memory@
    }

    pub fn new(size: usize) -> (r: B8Memory)
        ensures
            r.view().len() == size,
            forall|i: int| 0 <= i < size ==> r.view()[i] == 0u8,
    {
        let mut memory: Vec<u8> = Vec::new();
        let mut i: usize = 0;
        while i < size
            invariant
                i <= size,
                memory.len() == i,
                forall|j: int| 0 <= j < i ==> memory@[j] == 0u8,
            decreases size - i,
        {
            memory.push(0);
            i += 1;
        }
        B8Memory { memory }
    }

    pub fn len(&self) -> (r: usize)
        ensures
            r == self.view().len(),
    {
        self.memory.len()
    }

    pub fn read_u8(&self, offset: u32) -> (r: u8)
        requires
            offset < self.view().len(),
        ensures
            r == self.view()[offset as int],
    {
        self.memory[offset as usize]
    }

    pub fn write_u8(&mut self, offset: u32, value: u8)
        requires
            offset < old(self).view().len(),
        ensures
            final(self).view() == old(self).view().update(offset as int, value),
    {
        self.memory.set(offset as usize, value);
    }

    pub fn read_u16(&self, offset: u32) -> (r: u16)
        requires
            offset + 2 <= self.view().len(),
        ensures
            r == half_at(self.view(), offset as int),
    {
        let _n = self.memory.len();
        let b0 = self.memory[offset as usize];
        let b1 = self.memory[offset as usize + 1];
        (b0 as u16) | ((b1 as u16) << 8u16)
    }

    pub fn write_u16(&mut self, offset: u32, value: u16)
        requires
            offset + 2 <= old(self).view().len(),
        ensures
            final(self).view().len() == old(self).view().len(),
            half_at(final(self).view(), offset as int) == value,
            forall|i: int|
                0 <= i < old(self).view().len() && !(offset <= i < offset + 2) ==> final(self).view()[i] == old(self).view()[i],
    {
        let _n = self.memory.len();
        self.memory.set(offset as usize, (value & 0xFF) as u8);
        self.memory.set(offset as usize + 1, ((value >> 8u16) & 0xFF) as u8);
        proof {
            lemma_half_bytes_round_trip(value);
        }
    }

    pub fn read_u32(&self, offset: u32) -> (r: u32)
        requires
            offset + 4 <= self.view().len(),
        ensures
            r == word_at(self.view(), offset as int),
    {
        let _n = self.memory.len();
        let b0 = self.memory[offset as usize];
        let b1 = self.memory[offset as usize + 1];
        let b2 = self.memory[offset as usize + 2];
        let b3 = self.memory[offset as usize + 3];
        (b0 as u32) | ((b1 as u32) << 8u32) | ((b2 as u32) << 16u32) | ((b3 as u32) << 24u32)
    }

    pub fn write_u32(&mut self, offset: u32, value: u32)
        requires
            offset + 4 <= old(self).view().len(),
        ensures
            final(self).view().len() == old(self).view().len(),
            word_at(final(self).view(), offset as int) == value,
            forall|i: int|
                0 <= i < old(self).view().len() && !(offset <= i < offset + 4) ==> final(self).view()[i] == old(self).view()[i],
    {
        let _n = self.memory.len();
        self.memory.set(offset as usize, (value & 0xFF) as u8);
        self.memory.set(offset as usize + 1, ((value >> 8u32) & 0xFF) as u8);
        self.memory.set(offset as usize + 2, ((value >> 16u32) & 0xFF) as u8);
        self.memory.set(offset as usize + 3, ((value >> 24u32) & 0xFF) as u8);
        proof {
            lemma_word_bytes_round_trip(value);
        }
    }

    /// Copies `data` into the memory starting at `offset`; everything
    /// outside the copied window is untouched.
    pub fn write_raw(&mut self, offset: u32, data: &[u8])
        requires
            offset + data@.len() <= old(self).view().len(),
        ensures
            final(self).view().len() == old(self).view().len(),
            forall|i: int|
                offset <= i < offset + data@.len() ==> final(self).view()[i] == data@[i - offset],
            forall|i: int|
                0 <= i < old(self).view().len() && !(offset <= i < offset + data@.len())
                    ==> final(self).view()[i] == old(self).view()[i],
    {
        let n = self.memory.len();
        let mut i: usize = 0;
        let count = data.len();
        while i < count
            invariant
                i <= count,
                n == self.view().len(),
                offset + count <= old(self).view().len(),
                count == data@.len(),
                self.view().len() == old(self).view().len(),
                forall|j: int| offset <= j < offset + i ==> self.view()[j] == data@[j - offset],
                forall|j: int|
                    0 <= j < old(self).view().len() && !(offset <= j < offset + i) ==> self.view()[j]
                        == old(self).view()[j],
            decreases count - i,
        {
            let b = data[i];
            self.memory.set(offset as usize + i, b);
            i += 1;
        }
    }
}

/// A word written byte by byte reads back as itself.
pub proof fn lemma_word_bytes_round_trip(value: u32)
    by (bit_vector)
    ensures
        word_from_bytes(
            (value & 0xFFu32) as u8,
            ((value >> 8u32) & 0xFFu32) as u8,
            ((value >> 16u32) & 0xFFu32) as u8,
            ((value >> 24u32) & 0xFFu32) as u8,
        ) == value,
{
}

/// A halfword written byte by byte reads back as itself.
pub proof fn lemma_half_bytes_round_trip(value: u16)
    by (bit_vector)
    ensures
        half_from_bytes((value & 0xFFu16) as u8, ((value >> 8u16) & 0xFFu16) as u8) == value,
{
}

/// Virtual-to-physical translation: the two low 512 MiB segment aliases
/// (cached at `0x8000_0000`, uncached at `0xA000_0000`) map down to the
/// physical window; everything else passes through unchanged.
pub open spec fn spec_translate_address(va: u32) -> u32 {
    if 0x8000_0000u32 <= va < 0xA000_0000u32 {
        (va - 0x8000_0000u32) as u32
    } else if 0xA000_0000u32 <= va < 0xC000_0000u32 {
        (va - 0xA000_0000u32) as u32
    } else {
        va
    }
}

pub fn translate_address(va: u32) -> (r: u32)
    ensures
        r == spec_translate_address(va),
{
    if 0x8000_0000 <= va && va < 0xA000_0000 {
        va - 0x8000_0000
    } else if 0xA000_0000 <= va && va < 0xC000_0000 {
        va - 0xA000_0000
    } else {
        va
    }
}

/// For every address in either segment alias, translation is exactly the
/// 29-bit physical address.
pub proof fn lemma_translate_kseg_aliases(va: u32)
    by (bit_vector)
    requires
        0x8000_0000u32 <= va < 0xC000_0000u32,
    ensures
        spec_translate_address(va) == va & 0x1FFF_FFFFu32,
{
}

/// The bus-control registers of the memory subsystem, plus the cache
/// control window.
pub struct State {
    pub expansion_1_base_address: B32LevelRegister,
    pub expansion_2_base_address: B32LevelRegister,
    pub expansion_1_delay: B32LevelRegister,
    pub expansion_3_delay: B32LevelRegister,
    pub bios_rom_control: B32LevelRegister,
    pub spu_delay: B32LevelRegister,
    pub cdrom_delay: B32LevelRegister,
    pub expansion_2_delay: B32LevelRegister,
    pub common_delay_control: B32LevelRegister,
    pub ram_size_control: B32LevelRegister,
    pub cache_control: B8Memory,
    pub main_memory: B8Memory,
    pub bios: B8Memory,
}

/// Main RAM size: 2 MiB.
pub open spec fn spec_main_memory_size() -> int {
    0x20_0000
}

/// BIOS ROM size: 512 KiB.
pub open spec fn spec_bios_size() -> int {
    0x8_0000
}

impl State {
    pub fn new() -> (r: State)
        ensures
            r.main_memory.view().len() == spec_main_memory_size(),
            r.bios.view().len() == spec_bios_size(),
            r.cache_control.view().len() == 0x2_0000,
    {
        State {
            expansion_1_base_address: B32LevelRegister::new(),
            expansion_2_base_address: B32LevelRegister::new(),
            expansion_1_delay: B32LevelRegister::new(),
            expansion_3_delay: B32LevelRegister::new(),
            bios_rom_control: B32LevelRegister::new(),
            spu_delay: B32LevelRegister::new(),
            cdrom_delay: B32LevelRegister::new(),
            expansion_2_delay: B32LevelRegister::new(),
            common_delay_control: B32LevelRegister::new(),
            ram_size_control: B32LevelRegister::new(),
            cache_control: B8Memory::new(0x2_0000),
            main_memory: B8Memory::new(0x20_0000),
            bios: B8Memory::new(0x8_0000),
        }
    }
}

/// Memory-subsystem initialisation: the bus-control registers power up
/// holding zero already, so there is nothing further to set.
pub fn initialize(state: &mut State)
    ensures
        *final(state) == *old(state),
{
}


/// The peripheral a physical address belongs to, per the guest memory map.
#[derive(Clone, Copy, PartialEq, Eq, Structural, Debug)]
pub enum MappedDevice {
    MainRam,
    Expansion1,
    Scratchpad,
    MemoryControl,
    Padmc,
    Intc,
    Dmac,
    Timers,
    Cdrom,
    Gpu,
    Spu,
    Expansion2,
    Bios,
    CacheControl,
}

/// The physical-address map: each window of the bus routed to its device,
/// with everything else unmapped.
pub open spec fn spec_resolve_address(pa: u32) -> Option<MappedDevice> {
    if pa < 0x20_0000 {
        Some(MappedDevice::MainRam)
    } else if 0x1F00_0000 <= pa < 0x1F08_0000 {
        Some(MappedDevice::Expansion1)
    } else if 0x1F80_0000 <= pa < 0x1F80_0400 {
        Some(MappedDevice::Scratchpad)
    } else if 0x1F80_1000 <= pa < 0x1F80_1040 {
        Some(MappedDevice::MemoryControl)
    } else if 0x1F80_1040 <= pa < 0x1F80_1050 {
        Some(MappedDevice::Padmc)
    } else if 0x1F80_1060 <= pa < 0x1F80_1064 {
        Some(MappedDevice::MemoryControl)
    } else if 0x1F80_1070 <= pa < 0x1F80_1078 {
        Some(MappedDevice::Intc)
    } else if 0x1F80_1080 <= pa < 0x1F80_1100 {
        Some(MappedDevice::Dmac)
    } else if 0x1F80_1100 <= pa < 0x1F80_1130 {
        Some(MappedDevice::Timers)
    } else if 0x1F80_1800 <= pa < 0x1F80_1804 {
        Some(MappedDevice::Cdrom)
    } else if 0x1F80_1810 <= pa < 0x1F80_1818 {
        Some(MappedDevice::Gpu)
    } else if 0x1F80_1C00 <= pa < 0x1F80_2000 {
        Some(MappedDevice::Spu)
    } else if 0x1F80_2000 <= pa < 0x1F80_2080 {
        Some(MappedDevice::Expansion2)
    } else if 0x1FC0_0000 <= pa < 0x1FC8_0000 {
        Some(MappedDevice::Bios)
    } else if 0xFFFE_0130 <= pa < 0xFFFE_0134 {
        Some(MappedDevice::CacheControl)
    } else {
        None
    }
}

/// Routes a physical address to its device; an unmapped address yields
/// nothing and the caller surfaces the access as a fault.
pub fn resolve_address(pa: u32) -> (r: Option<MappedDevice>)
    ensures
        r == spec_resolve_address(pa),
{
    if pa < 0x20_0000 {
        Some(MappedDevice::MainRam)
    } else if 0x1F00_0000 <= pa && pa < 0x1F08_0000 {
        Some(MappedDevice::Expansion1)
    } else if 0x1F80_0000 <= pa && pa < 0x1F80_0400 {
        Some(MappedDevice::Scratchpad)
    } else if 0x1F80_1000 <= pa && pa < 0x1F80_1040 {
        Some(MappedDevice::MemoryControl)
    } else if 0x1F80_1040 <= pa && pa < 0x1F80_1050 {
        Some(MappedDevice::Padmc)
    } else if 0x1F80_1060 <= pa && pa < 0x1F80_1064 {
        Some(MappedDevice::MemoryControl)
    } else if 0x1F80_1070 <= pa && pa < 0x1F80_1078 {
        Some(MappedDevice::Intc)
    } else if 0x1F80_1080 <= pa && pa < 0x1F80_1100 {
        Some(MappedDevice::Dmac)
    } else if 0x1F80_1100 <= pa && pa < 0x1F80_1130 {
        Some(MappedDevice::Timers)
    } else if 0x1F80_1800 <= pa && pa < 0x1F80_1804 {
        Some(MappedDevice::Cdrom)
    } else if 0x1F80_1810 <= pa && pa < 0x1F80_1818 {
        Some(MappedDevice::Gpu)
    } else if 0x1F80_1C00 <= pa && pa < 0x1F80_2000 {
        Some(MappedDevice::Spu)
    } else if 0x1F80_2000 <= pa && pa < 0x1F80_2080 {
        Some(MappedDevice::Expansion2)
    } else if 0x1FC0_0000 <= pa && pa < 0x1FC8_0000 {
        Some(MappedDevice::Bios)
    } else if 0xFFFE_0130 <= pa && pa < 0xFFFE_0134 {
        Some(MappedDevice::CacheControl)
    } else {
        None
    }
}

} // verus!
