//! Geometry coprocessor instruction decode: field accessors over the raw
//! instruction word. The arithmetic pipeline behind them is a separate
//! subsystem and is not modelled here.

use vstd::prelude::*;
use crate::mips::Instruction;

verus! {

/// Which matrix a multiply-vector-matrix-add operation names.
#[derive(Clone, Copy, PartialEq, Eq, Structural, Debug)]
pub enum MultiplyMatrix {
    Rotation,
    Light,
    Color,
    Reserved,
}

/// Which vector a multiply-vector-matrix-add operation names.
#[derive(Clone, Copy, PartialEq, Eq, Structural, Debug)]
pub enum MultiplyVector {
    V0,
    V1,
    V2,
    IR,
}

/// Which translation vector a multiply-vector-matrix-add operation names.
#[derive(Clone, Copy, PartialEq, Eq, Structural, Debug)]
pub enum TranslationVector {
    TR,
    BK,
    FC,
    Absent,
}

/// A geometry coprocessor instruction and its field decode.
#[derive(Clone, Copy, PartialEq, Eq, Structural, Debug)]
pub struct GteInstruction {
    pub instruction: Instruction,
}

impl GteInstruction {
    pub fn new(instruction: Instruction) -> (r: GteInstruction)
        ensures
            r.instruction == instruction,
    {
        GteInstruction { instruction }
    }

    /// Bits 20..25: the fake/identity field some titles write.
    pub fn fake(&self) -> (r: u32)
        ensures
            r == (self.instruction.value >> 20u32) & 0x1Fu32,
    {
        (self.instruction.value >> 20) & 0x1F
    }

    /// Bit 19: shift the accumulators by 12 fractional bits.
    pub fn sf(&self) -> (r: bool)
        ensures
            r == ((self.instruction.value >> 19u32) & 0x1u32 > 0),
    {
        ((self.instruction.value >> 19) & 0x1) > 0
    }

    /// Bits 17..19: matrix selector.
    pub fn mvmva_mm(&self) -> (r: MultiplyMatrix)
        ensures
            r == (match (self.instruction.value >> 17u32) & 0x3u32 {
                0u32 => MultiplyMatrix::Rotation,
                1u32 => MultiplyMatrix::Light,
                2u32 => MultiplyMatrix::Color,
                _ => MultiplyMatrix::Reserved,
            }),
    {
        match (self.instruction.value >> 17) & 0x3 {
            0 => MultiplyMatrix::Rotation,
            1 => MultiplyMatrix::Light,
            2 => MultiplyMatrix::Color,
            _ => MultiplyMatrix::Reserved,
        }
    }

    /// Bits 15..17: vector selector.
    pub fn mvmva_mv(&self) -> (r: MultiplyVector)
        ensures
            r == (match (self.instruction.value >> 15u32) & 0x3u32 {
                0u32 => MultiplyVector::V0,
                1u32 => MultiplyVector::V1,
                2u32 => MultiplyVector::V2,
                _ => MultiplyVector::IR,
            }),
    {
        match (self.instruction.value >> 15) & 0x3 {
            0 => MultiplyVector::V0,
            1 => MultiplyVector::V1,
            2 => MultiplyVector::V2,
            _ => MultiplyVector::IR,
        }
    }

    /// Bits 13..15: translation vector selector.
    pub fn mvmva_tv(&self) -> (r: TranslationVector)
        ensures
            r == (match (self.instruction.value >> 13u32) & 0x3u32 {
                0u32 => TranslationVector::TR,
                1u32 => TranslationVector::BK,
                2u32 => TranslationVector::FC,
                _ => TranslationVector::Absent,
            }),
    {
        match (self.instruction.value >> 13) & 0x3 {
            0 => TranslationVector::TR,
            1 => TranslationVector::BK,
            2 => TranslationVector::FC,
            _ => TranslationVector::Absent,
        }
    }

    /// Bit 10: saturate negative results to zero.
    pub fn lm(&self) -> (r: bool)
        ensures
            r == ((self.instruction.value >> 10u32) & 0x1u32 > 0),
    {
        ((self.instruction.value >> 10) & 0x1) > 0
    }

    /// Bits 0..5: the real command number.
    pub fn cmd(&self) -> (r: u32)
        ensures
            r == self.instruction.value & 0x1Fu32,
    {
        self.instruction.value & 0x1F
    }
}

} // verus!
