//! The register file, the flag rules, and the opcode table.

use vstd::prelude::*;

verus! {

/// The instructions the engine understands, as a closed tagged set.
/// Every opcode byte without a row in the table decodes to `Unknown`,
/// which behaves as a no-operation (permissive decoding by design).
#[derive(Clone, Copy, Debug, PartialEq, Eq, Structural)]
pub enum Op {
    /// 0x10: branch if the negative flag is clear (relative).
    Bpl,
    /// 0x18: clear the carry flag.
    Clc,
    /// 0x49: exclusive-or the accumulator with an immediate operand.
    Eor,
    /// 0x4C: jump to an absolute address.
    Jmp,
    /// 0x69: add an immediate operand to the accumulator (wrapping).
    Adc,
    /// 0x88: decrement the Y index register (wrapping).
    Dey,
    /// 0x8D: store the accumulator at an absolute address.
    Sta,
    /// 0x98: transfer the Y index register to the accumulator.
    Tya,
    /// 0x9A: transfer the X index register to the stack pointer.
    Txs,
    /// 0xA0: load the Y index register with an immediate operand.
    Ldy,
    /// 0xA2: load the X index register with an immediate operand.
    Ldx,
    /// 0xAA: transfer the accumulator to the X index register.
    Tax,
    /// 0xA9: load the accumulator with an immediate operand.
    LdaImm,
    /// 0xAD: load the accumulator from an absolute address.
    LdaAbs,
    /// 0xC9: compare the accumulator with an immediate operand.
    Cmp,
    /// 0xCA: decrement the X index register (wrapping).
    Dex,
    /// 0xD0: branch if the zero flag is clear (relative).
    Bne,
    /// 0xD8: clear the decimal bits of the flag register.
    Cld,
    /// 0xF0: branch if the zero flag is set (relative).
    Beq,
    /// any other opcode byte: no operation.
    Unknown,
}

/// Which instruction an opcode byte selects.
pub open spec fn decode(opcode: u8) -> Op {
    match opcode {
        0x10 => Op::Bpl,
        0x18 => Op::Clc,
        0x49 => Op::Eor,
        0x4c => Op::Jmp,
        0x69 => Op::Adc,
        0x88 => Op::Dey,
        0x8d => Op::Sta,
        0x98 => Op::Tya,
        0x9a => Op::Txs,
        0xa0 => Op::Ldy,
        0xa2 => Op::Ldx,
        0xaa => Op::Tax,
        0xa9 => Op::LdaImm,
        0xad => Op::LdaAbs,
        0xc9 => Op::Cmp,
        0xca => Op::Dex,
        0xd0 => Op::Bne,
        0xd8 => Op::Cld,
        0xf0 => Op::Beq,
        _ => Op::Unknown,
    }
}

/// A structured record of the most recently executed instruction,
/// kept for diagnostics only: the raw opcode byte and what it decoded to.
#[derive(Clone, Copy, Debug, PartialEq, Eq, Structural)]
pub struct InstrInfo {
    pub opcode: u8,
    pub op: Op,
}

/// The register file.
///
/// `flags` is a bit field: bit 0 carry (set only by compare, cleared by
/// clear-carry), bit 1 zero, bit 7 negative; a clear-decimal instruction
/// zeroes bits 3 to 7. `pc` is a 16-bit address into the memory image.
/// `clock` counts cycles, a fixed small cost per instruction. `info`
/// describes the most recently executed instruction, `None` before the
/// first step.
#[derive(Clone, Copy, Debug)]
pub struct Processor {
    pub flags: u8,
    pub acc: u8,
    pub rx: u8,
    pub ry: u8,
    pub pc: u16,
    pub sp: u8,
    pub info: Option<InstrInfo>,
    pub clock: u64,
}

/// Bit 0 of the flag register: carry.
pub open spec fn carry_flag_set(flags: u8) -> bool {
    flags & 0x01 == 0x01
}

/// Bit 1 of the flag register: zero.
pub open spec fn zero_flag_set(flags: u8) -> bool {
    flags & 0x02 == 0x02
}

/// Bit 7 of the flag register: negative.
pub open spec fn negative_flag_set(flags: u8) -> bool {
    flags & 0x80 == 0x80
}

/// The shared flag-update rule: the zero bit is set exactly when the
/// affected value is zero, and the negative bit is set (never cleared)
/// when bit 7 of the affected value is one. All other bits are kept.
pub open spec fn set_flags_spec(flags: u8, val: u8) -> u8 {
    let f = if val == 0 {
        flags | 0x02
    } else {
        flags & 0xfd
    };
    if val & 0x80 == 0x80 {
        f | 0x80
    } else {
        f
    }
}

} // verus!
