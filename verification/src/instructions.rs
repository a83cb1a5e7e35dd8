use vstd::prelude::*;

use crate::bitrange::BitRange;
use vstd::arithmetic::power2::{lemma2_to64, pow2};

verus! {

/// A general-purpose register index (one nibble, 0-15 when well formed).
pub type GPR = u8;

/// A 12-bit memory address operand.
pub type Address = u16;

/// An 8-bit immediate operand.
pub type HalfWord = u8;

/// The decoded, typed representation of a 16-bit opcode.
#[derive(Debug, PartialEq, Eq, Structural, Clone, Copy)]
pub enum Instruction {
    ClearDisplay,
    Return,
    JumpToAddress(Address),
    CallSubroutine(Address),
    SkipIfEqual(GPR, HalfWord),
    SkipIfNotEqual(GPR, HalfWord),
    SkipIfEqualRegister(GPR, HalfWord),
    LoadConst(GPR, HalfWord),
    AddConst(GPR, HalfWord),
    AssignValue(GPR, GPR),
    SetOr(GPR, GPR),
    SetAnd(GPR, GPR),
    SetXor(GPR, GPR),
    Add(GPR, GPR),
    Subtract(GPR, GPR),
    ShiftRight(GPR, GPR),
    Reduce(GPR, GPR),
    ShiftLeft(GPR, GPR),
    SkipIfNotEqualRegister(GPR, GPR),
    SetMemoryAddress(Address),
    JumpToV0Address(Address),
    BitwiseRandom(GPR, HalfWord),
    DrawSprite(GPR, GPR, HalfWord),
    SkipIfPressed(GPR),
    SkipIfNotPressed(GPR),
    LoadDelay(GPR),
    WaitForPress(GPR),
    SetDelay(GPR),
    SetSound(GPR),
    AddOffset(GPR),
    SetMemoryForFont(GPR),
    SetBCD(GPR),
    DumpReg(GPR),
    LoadReg(GPR),
}

/// Bits 12-15 of an opcode: the primary dispatch nibble.
pub open spec fn spec_first(w: u16) -> u8 {
    (w / 0x1000) as u8
}

/// Bits 8-11 of an opcode: usually the register index X.
pub open spec fn spec_second(w: u16) -> u8 {
    ((w / 0x100) % 0x10) as u8
}

/// Bits 4-7 of an opcode: usually the register index Y.
pub open spec fn spec_third(w: u16) -> u8 {
    ((w / 0x10) % 0x10) as u8
}

/// Bits 0-3 of an opcode: a sub-opcode or a sprite height.
pub open spec fn spec_last(w: u16) -> u8 {
    (w % 0x10) as u8
}

/// Bits 0-7 of an opcode: an 8-bit immediate or a sub-opcode.
pub open spec fn spec_last_two(w: u16) -> u8 {
    (w % 0x100) as u8
}

/// Bits 0-11 of an opcode: a 12-bit address.
pub open spec fn spec_last_three(w: u16) -> u16 {
    w % 0x1000
}

/// The inclusive bit ranges handed to `BitRange` extract exactly the
/// nibble and byte fields that the opcode table dispatches on.
proof fn lemma_opcode_fields(w: u16)
    ensures
        w as nat / pow2(12) % pow2(4) % 0x100 == spec_first(w),
        w as nat / pow2(8) % pow2(4) % 0x100 == spec_second(w),
        w as nat / pow2(4) % pow2(4) % 0x100 == spec_third(w),
        w as nat / pow2(0) % pow2(4) % 0x100 == spec_last(w),
        w as nat / pow2(0) % pow2(8) % 0x100 == spec_last_two(w),
        w as nat / pow2(0) % pow2(12) % 0x10000 == spec_last_three(w),
{
    lemma2_to64();
    assert(w as nat / 0x1000 < 0x10) by (nonlinear_arith)
        requires
            w <= 0xFFFF,
    ;
    assert(w as nat / 0x100 % 0x10 < 0x10);
    assert(w as nat / 0x10 % 0x10 < 0x10);
    assert(w as nat / 1 == w as nat);
}

pub fn first(value: &u16) -> (r: u8)
    ensures
        r == spec_first(*value),
{
    proof {
        lemma_opcode_fields(*value);
    }
    value.range_u8(12..15)
}

pub fn second(value: &u16) -> (r: u8)
    ensures
        r == spec_second(*value),
{
    proof {
        lemma_opcode_fields(*value);
    }
    value.range_u8(8..11)
}

pub fn third(value: &u16) -> (r: u8)
    ensures
        r == spec_third(*value),
{
    proof {
        lemma_opcode_fields(*value);
    }
    value.range_u8(4..7)
}

pub fn last(value: &u16) -> (r: u8)
    ensures
        r == spec_last(*value),
{
    proof {
        lemma_opcode_fields(*value);
    }
    value.range_u8(0..3)
}

pub fn last_two(value: &u16) -> (r: u8)
    ensures
        r == spec_last_two(*value),
{
    proof {
        lemma_opcode_fields(*value);
    }
    value.range_u8(0..7)
}

pub fn last_three(value: &u16) -> (r: u16)
    ensures
        r == spec_last_three(*value),
{
    proof {
        lemma_opcode_fields(*value);
    }
    value.range_u16(0..11)
}

/// The decode table: the instruction denoted by a 16-bit opcode, or `None`
/// where no instruction is defined for it.
pub open spec fn spec_decode(w: u16) -> Option<Instruction> {
    let x = spec_second(w);
    let y = spec_third(w);
    let n = spec_last(w);
    let kk = spec_last_two(w);
    let nnn = spec_last_three(w);
    let f = spec_first(w);
    if f == 0x0 {
        if kk == 0xE0 {
            Some(Instruction::ClearDisplay)
        } else if kk == 0xEE {
            Some(Instruction::Return)
        } else {
            None
        }
    } else if f == 0x1 {
        Some(Instruction::JumpToAddress(nnn))
    } else if f == 0x2 {
        Some(Instruction::CallSubroutine(nnn))
    } else if f == 0x3 {
        Some(Instruction::SkipIfEqual(x, kk))
    } else if f == 0x4 {
        Some(Instruction::SkipIfNotEqual(x, kk))
    } else if f == 0x5 {
        Some(Instruction::SkipIfEqualRegister(x, y))
    } else if f == 0x6 {
        Some(Instruction::LoadConst(x, kk))
    } else if f == 0x7 {
        Some(Instruction::AddConst(x, kk))
    } else if f == 0x8 {
        if n == 0x0 {
            Some(Instruction::AssignValue(x, y))
        } else if n == 0x1 {
            Some(Instruction::SetOr(x, y))
        } else if n == 0x2 {
            Some(Instruction::SetAnd(x, y))
        } else if n == 0x3 {
            Some(Instruction::SetXor(x, y))
        } else if n == 0x4 {
            Some(Instruction::Add(x, y))
        } else if n == 0x5 {
            Some(Instruction::Subtract(x, y))
        } else if n == 0x6 {
            Some(Instruction::ShiftRight(x, y))
        } else if n == 0x7 {
            Some(Instruction::Reduce(x, y))
        } else if n == 0xE {
            Some(Instruction::ShiftLeft(x, y))
        } else {
            None
        }
    } else if f == 0x9 {
        Some(Instruction::SkipIfNotEqualRegister(x, y))
    } else if f == 0xA {
        Some(Instruction::SetMemoryAddress(nnn))
    } else if f == 0xB {
        Some(Instruction::JumpToV0Address(nnn))
    } else if f == 0xC {
        Some(Instruction::BitwiseRandom(x, kk))
    } else if f == 0xD {
        Some(Instruction::DrawSprite(x, y, n))
    } else if f == 0xE {
        if kk == 0x9E {
            Some(Instruction::SkipIfPressed(x))
        } else if kk == 0xA1 {
            Some(Instruction::SkipIfNotPressed(x))
        } else {
            None
        }
    } else if f == 0xF {
        if kk == 0x07 {
            Some(Instruction::LoadDelay(x))
        } else if kk == 0x0A {
            Some(Instruction::WaitForPress(x))
        } else if kk == 0x15 {
            Some(Instruction::SetDelay(x))
        } else if kk == 0x18 {
            Some(Instruction::SetSound(x))
        } else if kk == 0x1E {
            Some(Instruction::AddOffset(x))
        } else if kk == 0x29 {
            Some(Instruction::SetMemoryForFont(x))
        } else if kk == 0x33 {
            Some(Instruction::SetBCD(x))
        } else if kk == 0x55 {
            Some(Instruction::DumpReg(x))
        } else if kk == 0x65 {
            Some(Instruction::LoadReg(x))
        } else {
            None
        }
    } else {
        None
    }
}

impl Instruction {
    /// Decode a 16-bit opcode. Pure: the result is a function of the word
    /// alone, and a word with no defined mapping yields `None`.
    pub fn from_u16(value: &u16) -> (r: Option<Instruction>)
        ensures
            r == spec_decode(*value),
    {
        match first(value) {
            0x0 => match last_two(value) {
                0xE0 => Some(Instruction::ClearDisplay),
                0xEE => Some(Instruction::Return),
                _ => None,
            },
            0x1 => Some(Instruction::JumpToAddress(last_three(value))),
            0x2 => Some(Instruction::CallSubroutine(last_three(value))),
            0x3 => Some(Instruction::SkipIfEqual(second(value), last_two(value))),
            0x4 => Some(Instruction::SkipIfNotEqual(second(value), last_two(value))),
            0x5 => Some(Instruction::SkipIfEqualRegister(second(value), third(value))),
            0x6 => Some(Instruction::LoadConst(second(value), last_two(value))),
            0x7 => Some(Instruction::AddConst(second(value), last_two(value))),
            0x8 => match last(value) {
                0x0 => Some(Instruction::AssignValue(second(value), third(value))),
                0x1 => Some(Instruction::SetOr(second(value), third(value))),
                0x2 => Some(Instruction::SetAnd(second(value), third(value))),
                0x3 => Some(Instruction::SetXor(second(value), third(value))),
                0x4 => Some(Instruction::Add(second(value), third(value))),
                0x5 => Some(Instruction::Subtract(second(value), third(value))),
                0x6 => Some(Instruction::ShiftRight(second(value), third(value))),
                0x7 => Some(Instruction::Reduce(second(value), third(value))),
                0xE => Some(Instruction::ShiftLeft(second(value), third(value))),
                _ => None,
            },
            0x9 => Some(Instruction::SkipIfNotEqualRegister(second(value), third(value))),
            0xA => Some(Instruction::SetMemoryAddress(last_three(value))),
            0xB => Some(Instruction::JumpToV0Address(last_three(value))),
            0xC => Some(Instruction::BitwiseRandom(second(value), last_two(value))),
            0xD => Some(Instruction::DrawSprite(second(value), third(value), last(value))),
            0xE => match last_two(value) {
                0x9E => Some(Instruction::SkipIfPressed(second(value))),
                0xA1 => Some(Instruction::SkipIfNotPressed(second(value))),
                _ => None,
            },
            0xF => match last_two(value) {
                0x07 => Some(Instruction::LoadDelay(second(value))),
                0x0A => Some(Instruction::WaitForPress(second(value))),
                0x15 => Some(Instruction::SetDelay(second(value))),
                0x18 => Some(Instruction::SetSound(second(value))),
                0x1E => Some(Instruction::AddOffset(second(value))),
                0x29 => Some(Instruction::SetMemoryForFont(second(value))),
                0x33 => Some(Instruction::SetBCD(second(value))),
                0x55 => Some(Instruction::DumpReg(second(value))),
                0x65 => Some(Instruction::LoadReg(second(value))),
                _ => None,
            },
            _ => None,
        }
    }
}

/// Operand ranges under which an instruction is encodable: register indices
/// and sub-fields fit in a nibble, addresses fit in 12 bits.
pub open spec fn wf_instruction(i: Instruction) -> bool {
    match i {
        Instruction::ClearDisplay => true,
        Instruction::Return => true,
        Instruction::JumpToAddress(a) => a < 0x1000,
        Instruction::CallSubroutine(a) => a < 0x1000,
        Instruction::SkipIfEqual(x, _) => x < 0x10,
        Instruction::SkipIfNotEqual(x, _) => x < 0x10,
        Instruction::SkipIfEqualRegister(x, y) => x < 0x10 && y < 0x10,
        Instruction::LoadConst(x, _) => x < 0x10,
        Instruction::AddConst(x, _) => x < 0x10,
        Instruction::AssignValue(x, y) => x < 0x10 && y < 0x10,
        Instruction::SetOr(x, y) => x < 0x10 && y < 0x10,
        Instruction::SetAnd(x, y) => x < 0x10 && y < 0x10,
        Instruction::SetXor(x, y) => x < 0x10 && y < 0x10,
        Instruction::Add(x, y) => x < 0x10 && y < 0x10,
        Instruction::Subtract(x, y) => x < 0x10 && y < 0x10,
        Instruction::ShiftRight(x, y) => x < 0x10 && y < 0x10,
        Instruction::Reduce(x, y) => x < 0x10 && y < 0x10,
        Instruction::ShiftLeft(x, y) => x < 0x10 && y < 0x10,
        Instruction::SkipIfNotEqualRegister(x, y) => x < 0x10 && y < 0x10,
        Instruction::SetMemoryAddress(a) => a < 0x1000,
        Instruction::JumpToV0Address(a) => a < 0x1000,
        Instruction::BitwiseRandom(x, _) => x < 0x10,
        Instruction::DrawSprite(x, y, n) => x < 0x10 && y < 0x10 && n < 0x10,
        Instruction::SkipIfPressed(x) => x < 0x10,
        Instruction::SkipIfNotPressed(x) => x < 0x10,
        Instruction::LoadDelay(x) => x < 0x10,
        Instruction::WaitForPress(x) => x < 0x10,
        Instruction::SetDelay(x) => x < 0x10,
        Instruction::SetSound(x) => x < 0x10,
        Instruction::AddOffset(x) => x < 0x10,
        Instruction::SetMemoryForFont(x) => x < 0x10,
        Instruction::SetBCD(x) => x < 0x10,
        Instruction::DumpReg(x) => x < 0x10,
        Instruction::LoadReg(x) => x < 0x10,
    }
}

/// One opcode for each instruction, taken row by row from the decode table.
pub open spec fn spec_encode(i: Instruction) -> u16 {
    match i {
        Instruction::ClearDisplay => 0x00E0,
        Instruction::Return => 0x00EE,
        Instruction::JumpToAddress(a) => (0x1000 + a) as u16,
        Instruction::CallSubroutine(a) => (0x2000 + a) as u16,
        Instruction::SkipIfEqual(x, kk) => (0x3000 + x * 0x100 + kk) as u16,
        Instruction::SkipIfNotEqual(x, kk) => (0x4000 + x * 0x100 + kk) as u16,
        Instruction::SkipIfEqualRegister(x, y) => (0x5000 + x * 0x100 + y * 0x10) as u16,
        Instruction::LoadConst(x, kk) => (0x6000 + x * 0x100 + kk) as u16,
        Instruction::AddConst(x, kk) => (0x7000 + x * 0x100 + kk) as u16,
        Instruction::AssignValue(x, y) => (0x8000 + x * 0x100 + y * 0x10) as u16,
        Instruction::SetOr(x, y) => (0x8000 + x * 0x100 + y * 0x10 + 0x1) as u16,
        Instruction::SetAnd(x, y) => (0x8000 + x * 0x100 + y * 0x10 + 0x2) as u16,
        Instruction::SetXor(x, y) => (0x8000 + x * 0x100 + y * 0x10 + 0x3) as u16,
        Instruction::Add(x, y) => (0x8000 + x * 0x100 + y * 0x10 + 0x4) as u16,
        Instruction::Subtract(x, y) => (0x8000 + x * 0x100 + y * 0x10 + 0x5) as u16,
        Instruction::ShiftRight(x, y) => (0x8000 + x * 0x100 + y * 0x10 + 0x6) as u16,
        Instruction::Reduce(x, y) => (0x8000 + x * 0x100 + y * 0x10 + 0x7) as u16,
        Instruction::ShiftLeft(x, y) => (0x8000 + x * 0x100 + y * 0x10 + 0xE) as u16,
        Instruction::SkipIfNotEqualRegister(x, y) => (0x9000 + x * 0x100 + y * 0x10) as u16,
        Instruction::SetMemoryAddress(a) => (0xA000 + a) as u16,
        Instruction::JumpToV0Address(a) => (0xB000 + a) as u16,
        Instruction::BitwiseRandom(x, kk) => (0xC000 + x * 0x100 + kk) as u16,
        Instruction::DrawSprite(x, y, n) => (0xD000 + x * 0x100 + y * 0x10 + n) as u16,
        Instruction::SkipIfPressed(x) => (0xE000 + x * 0x100 + 0x9E) as u16,
        Instruction::SkipIfNotPressed(x) => (0xE000 + x * 0x100 + 0xA1) as u16,
        Instruction::LoadDelay(x) => (0xF000 + x * 0x100 + 0x07) as u16,
        Instruction::WaitForPress(x) => (0xF000 + x * 0x100 + 0x0A) as u16,
        Instruction::SetDelay(x) => (0xF000 + x * 0x100 + 0x15) as u16,
        Instruction::SetSound(x) => (0xF000 + x * 0x100 + 0x18) as u16,
        Instruction::AddOffset(x) => (0xF000 + x * 0x100 + 0x1E) as u16,
        Instruction::SetMemoryForFont(x) => (0xF000 + x * 0x100 + 0x29) as u16,
        Instruction::SetBCD(x) => (0xF000 + x * 0x100 + 0x33) as u16,
        Instruction::DumpReg(x) => (0xF000 + x * 0x100 + 0x55) as u16,
        Instruction::LoadReg(x) => (0xF000 + x * 0x100 + 0x65) as u16,
    }
}

/// Fields of an opcode assembled from a dispatch nibble and a 12-bit rest.
proof fn lemma_split_addr(f: u8, a: u16)
    requires
        f < 0x10,
        a < 0x1000,
    ensures
        spec_first((f * 0x1000 + a) as u16) == f,
        spec_last_three((f * 0x1000 + a) as u16) == a,
{
    assert((f * 0x1000 + a) / 0x1000 == f) by (nonlinear_arith)
        requires
            f < 0x10 && a < 0x1000,
    ;
    assert((f * 0x1000 + a) % 0x1000 == a) by (nonlinear_arith)
        requires
            f < 0x10 && a < 0x1000,
    ;
}

/// Fields of an opcode assembled from a dispatch nibble, a register nibble
/// and a low byte.
proof fn lemma_split_x_kk(f: u8, x: u8, kk: u8)
    requires
        f < 0x10,
        x < 0x10,
    ensures
        spec_first((f * 0x1000 + x * 0x100 + kk) as u16) == f,
        spec_second((f * 0x1000 + x * 0x100 + kk) as u16) == x,
        spec_last_two((f * 0x1000 + x * 0x100 + kk) as u16) == kk,
        spec_last_three((f * 0x1000 + x * 0x100 + kk) as u16) == x * 0x100 + kk,
{
    lemma_split_addr(f, (x * 0x100 + kk) as u16);
    assert((f * 0x1000 + x * 0x100 + kk) / 0x100 % 0x10 == x) by (nonlinear_arith)
        requires
            f < 0x10 && x < 0x10 && kk < 0x100,
    ;
    assert((f * 0x1000 + x * 0x100 + kk) % 0x100 == kk) by (nonlinear_arith)
        requires
            f < 0x10 && x < 0x10 && kk < 0x100,
    ;
}

/// Fields of an opcode assembled from four nibbles.
proof fn lemma_split_xyn(f: u8, x: u8, y: u8, n: u8)
    requires
        f < 0x10,
        x < 0x10,
        y < 0x10,
        n < 0x10,
    ensures
        spec_first((f * 0x1000 + x * 0x100 + y * 0x10 + n) as u16) == f,
        spec_second((f * 0x1000 + x * 0x100 + y * 0x10 + n) as u16) == x,
        spec_third((f * 0x1000 + x * 0x100 + y * 0x10 + n) as u16) == y,
        spec_last((f * 0x1000 + x * 0x100 + y * 0x10 + n) as u16) == n,
{
    lemma_split_x_kk(f, x, (y * 0x10 + n) as u8);
    assert((f * 0x1000 + x * 0x100 + y * 0x10 + n) / 0x10 % 0x10 == y) by (nonlinear_arith)
        requires
            f < 0x10 && x < 0x10 && y < 0x10 && n < 0x10,
    ;
    assert((f * 0x1000 + x * 0x100 + y * 0x10 + n) % 0x10 == n) by (nonlinear_arith)
        requires
            f < 0x10 && x < 0x10 && y < 0x10 && n < 0x10,
    ;
}

/// Round trip: every well-formed instruction has at least one encoding,
/// namely `spec_encode`, and decoding that opcode yields the instruction
/// back unchanged.
pub proof fn lemma_encode_decode(i: Instruction)
    requires
        wf_instruction(i),
    ensures
        spec_decode(spec_encode(i)) == Some(i),
{
    match i {
        Instruction::ClearDisplay => {
        }
        Instruction::Return => {
        }
        Instruction::JumpToAddress(a) => {
            lemma_split_addr(0x1, a);
        }
        Instruction::CallSubroutine(a) => {
            lemma_split_addr(0x2, a);
        }
        Instruction::SkipIfEqual(x, kk) => {
            lemma_split_x_kk(0x3, x, kk);
        }
        Instruction::SkipIfNotEqual(x, kk) => {
            lemma_split_x_kk(0x4, x, kk);
        }
        Instruction::SkipIfEqualRegister(x, y) => {
            lemma_split_xyn(0x5, x, y, 0x0);
        }
        Instruction::LoadConst(x, kk) => {
            lemma_split_x_kk(0x6, x, kk);
        }
        Instruction::AddConst(x, kk) => {
            lemma_split_x_kk(0x7, x, kk);
        }
        Instruction::AssignValue(x, y) => {
            lemma_split_xyn(0x8, x, y, 0x0);
        }
        Instruction::SetOr(x, y) => {
            lemma_split_xyn(0x8, x, y, 0x1);
        }
        Instruction::SetAnd(x, y) => {
            lemma_split_xyn(0x8, x, y, 0x2);
        }
        Instruction::SetXor(x, y) => {
            lemma_split_xyn(0x8, x, y, 0x3);
        }
        Instruction::Add(x, y) => {
            lemma_split_xyn(0x8, x, y, 0x4);
        }
        Instruction::Subtract(x, y) => {
            lemma_split_xyn(0x8, x, y, 0x5);
        }
        Instruction::ShiftRight(x, y) => {
            lemma_split_xyn(0x8, x, y, 0x6);
        }
        Instruction::Reduce(x, y) => {
            lemma_split_xyn(0x8, x, y, 0x7);
        }
        Instruction::ShiftLeft(x, y) => {
            lemma_split_xyn(0x8, x, y, 0xE);
        }
        Instruction::SkipIfNotEqualRegister(x, y) => {
            lemma_split_xyn(0x9, x, y, 0x0);
        }
        Instruction::SetMemoryAddress(a) => {
            lemma_split_addr(0xA, a);
        }
        Instruction::JumpToV0Address(a) => {
            lemma_split_addr(0xB, a);
        }
        Instruction::BitwiseRandom(x, kk) => {
            lemma_split_x_kk(0xC, x, kk);
        }
        Instruction::DrawSprite(x, y, n) => {
            lemma_split_xyn(0xD, x, y, n);
        }
        Instruction::SkipIfPressed(x) => {
            lemma_split_x_kk(0xE, x, 0x9E);
        }
        Instruction::SkipIfNotPressed(x) => {
            lemma_split_x_kk(0xE, x, 0xA1);
        }
        Instruction::LoadDelay(x) => {
            lemma_split_x_kk(0xF, x, 0x07);
        }
        Instruction::WaitForPress(x) => {
            lemma_split_x_kk(0xF, x, 0x0A);
        }
        Instruction::SetDelay(x) => {
            lemma_split_x_kk(0xF, x, 0x15);
        }
        Instruction::SetSound(x) => {
            lemma_split_x_kk(0xF, x, 0x18);
        }
        Instruction::AddOffset(x) => {
            lemma_split_x_kk(0xF, x, 0x1E);
        }
        Instruction::SetMemoryForFont(x) => {
            lemma_split_x_kk(0xF, x, 0x29);
        }
        Instruction::SetBCD(x) => {
            lemma_split_x_kk(0xF, x, 0x33);
        }
        Instruction::DumpReg(x) => {
            lemma_split_x_kk(0xF, x, 0x55);
        }
        Instruction::LoadReg(x) => {
            lemma_split_x_kk(0xF, x, 0x65);
        }
    }
}

} // verus!
