//! The meaning of one instruction: which memory cells it may touch, and
//! the exact state it leaves behind. These spec functions are the
//! reference that the executable engine is verified against.

use vstd::prelude::*;

use crate::processor::{
    decode, negative_flag_set, set_flags_spec, zero_flag_set, InstrInfo, Op, Processor,
};
use vstd::wrapping::{u16_specs, u8_specs};

verus! {

/// The 16-bit little-endian word stored at `a` and `a + 1`.
pub open spec fn word_at(mem: Seq<u8>, a: int) -> int {
    mem[a] + 0x100 * mem[a + 1]
}

/// The diagnostic record an instruction leaves behind: the opcode byte
/// that was fetched and the instruction it was run as.
pub open spec fn info_of(mem: Seq<u8>, pc: u16, op: Op) -> Option<InstrInfo> {
    Some(InstrInfo { opcode: mem[pc as int], op })
}

/// The target of a relative branch: the address after the two-byte branch
/// instruction, plus the operand byte read as a signed offset, narrowed
/// back into the 16-bit address space.
pub open spec fn branch_target(pc: u16, offset: u8) -> u16 {
    let base = u16_specs::wrapping_add(pc, 2);
    if offset < 0x80 {
        u16_specs::wrapping_add(base, offset as u16)
    } else {
        u16_specs::wrapping_sub(u16_specs::wrapping_add(base, offset as u16), 0x100)
    }
}

/// Whether the opcode at `p.pc` and every operand it fetches resolve to
/// valid indices into the memory image. When this fails, a step reports
/// an address-out-of-range error instead of executing.
pub open spec fn instr_ok(p: Processor, mem: Seq<u8>) -> bool {
    let pc = p.pc as int;
    &&& pc < mem.len()
    &&& match decode(mem[pc]) {
        Op::Clc | Op::Cld | Op::Txs | Op::Tya | Op::Tax | Op::Dex | Op::Dey | Op::Unknown => true,
        Op::Adc | Op::Eor | Op::Ldx | Op::Ldy | Op::LdaImm | Op::Cmp | Op::Bpl | Op::Bne
        | Op::Beq => pc + 1 < mem.len(),
        Op::Jmp => pc + 2 < mem.len(),
        Op::LdaAbs | Op::Sta => pc + 2 < mem.len() && word_at(mem, pc + 1) < mem.len(),
    }
}

/// branch-if-positive: jump to the relative target when the negative
/// flag is clear, else fall through; flags untouched; cost 3.
pub open spec fn bpl_spec(p: Processor, mem: Seq<u8>) -> Processor {
    Processor {
        pc: if !negative_flag_set(p.flags) {
            branch_target(p.pc, mem[p.pc + 1])
        } else {
            u16_specs::wrapping_add(p.pc, 2)
        },
        clock: (p.clock + 3) as u64,
        info: info_of(mem, p.pc, Op::Bpl),
        ..p
    }
}

/// branch-if-not-equal: jump to the relative target when the zero flag
/// is clear, else fall through; flags untouched; cost 3.
pub open spec fn bne_spec(p: Processor, mem: Seq<u8>) -> Processor {
    Processor {
        pc: if !zero_flag_set(p.flags) {
            branch_target(p.pc, mem[p.pc + 1])
        } else {
            u16_specs::wrapping_add(p.pc, 2)
        },
        clock: (p.clock + 3) as u64,
        info: info_of(mem, p.pc, Op::Bne),
        ..p
    }
}

/// branch-if-equal: jump to the relative target when the zero flag is
/// set, else fall through; flags untouched; cost 3.
pub open spec fn beq_spec(p: Processor, mem: Seq<u8>) -> Processor {
    Processor {
        pc: if zero_flag_set(p.flags) {
            branch_target(p.pc, mem[p.pc + 1])
        } else {
            u16_specs::wrapping_add(p.pc, 2)
        },
        clock: (p.clock + 3) as u64,
        info: info_of(mem, p.pc, Op::Beq),
        ..p
    }
}

/// clear-carry: clear bit 0 of the flags; cost 1.
pub open spec fn clc_spec(p: Processor, mem: Seq<u8>) -> Processor {
    Processor {
        flags: p.flags & 0xfe,
        pc: u16_specs::wrapping_add(p.pc, 1),
        clock: (p.clock + 1) as u64,
        info: info_of(mem, p.pc, Op::Clc),
        ..p
    }
}

/// clear-decimal: keep only bits 0 to 2 of the flags; cost 2.
pub open spec fn cld_spec(p: Processor, mem: Seq<u8>) -> Processor {
    Processor {
        flags: p.flags & 0x07,
        pc: u16_specs::wrapping_add(p.pc, 1),
        clock: (p.clock + 2) as u64,
        info: info_of(mem, p.pc, Op::Cld),
        ..p
    }
}

/// exclusive-or-immediate: accumulator ^= operand; flags deliberately
/// untouched; cost 0.
pub open spec fn eor_spec(p: Processor, mem: Seq<u8>) -> Processor {
    Processor {
        acc: p.acc ^ mem[p.pc + 1],
        pc: u16_specs::wrapping_add(p.pc, 2),
        info: info_of(mem, p.pc, Op::Eor),
        ..p
    }
}

/// jump-absolute: the program counter becomes the little-endian word
/// after the opcode; cost 0.
pub open spec fn jmp_spec(p: Processor, mem: Seq<u8>) -> Processor {
    Processor { pc: word_at(mem, p.pc + 1) as u16, info: info_of(mem, p.pc, Op::Jmp), ..p }
}

/// add-immediate: accumulator += operand, wrapping, with no carry-in and
/// no carry-out; the shared flag rule applies to the new accumulator;
/// cost 2.
pub open spec fn adc_spec(p: Processor, mem: Seq<u8>) -> Processor {
    let acc = u8_specs::wrapping_add(p.acc, mem[p.pc + 1]);
    Processor {
        acc,
        flags: set_flags_spec(p.flags, acc),
        pc: u16_specs::wrapping_add(p.pc, 2),
        clock: (p.clock + 2) as u64,
        info: info_of(mem, p.pc, Op::Adc),
        ..p
    }
}

/// decrement-Y, wrapping; the shared flag rule applies to the new value;
/// cost 2.
pub open spec fn dey_spec(p: Processor, mem: Seq<u8>) -> Processor {
    let ry = u8_specs::wrapping_sub(p.ry, 1);
    Processor {
        ry,
        flags: set_flags_spec(p.flags, ry),
        pc: u16_specs::wrapping_add(p.pc, 1),
        clock: (p.clock + 2) as u64,
        info: info_of(mem, p.pc, Op::Dey),
        ..p
    }
}

/// decrement-X, wrapping; the shared flag rule applies to the new value;
/// cost 2.
pub open spec fn dex_spec(p: Processor, mem: Seq<u8>) -> Processor {
    let rx = u8_specs::wrapping_sub(p.rx, 1);
    Processor {
        rx,
        flags: set_flags_spec(p.flags, rx),
        pc: u16_specs::wrapping_add(p.pc, 1),
        clock: (p.clock + 2) as u64,
        info: info_of(mem, p.pc, Op::Dex),
        ..p
    }
}

/// store-absolute: write the accumulator into memory at the little-endian
/// word after the opcode; registers and flags untouched; cost 5.
pub open spec fn sta_spec(p: Processor, mem: Seq<u8>) -> (Processor, Seq<u8>) {
    (
        Processor {
            pc: u16_specs::wrapping_add(p.pc, 3),
            clock: (p.clock + 5) as u64,
            info: info_of(mem, p.pc, Op::Sta),
            ..p
        },
        mem.update(word_at(mem, p.pc + 1), p.acc),
    )
}

/// transfer-Y-to-accumulator; the shared flag rule applies to the new
/// accumulator; cost 2.
pub open spec fn tya_spec(p: Processor, mem: Seq<u8>) -> Processor {
    Processor {
        acc: p.ry,
        flags: set_flags_spec(p.flags, p.ry),
        pc: u16_specs::wrapping_add(p.pc, 1),
        clock: (p.clock + 2) as u64,
        info: info_of(mem, p.pc, Op::Tya),
        ..p
    }
}

/// transfer-X-to-stackptr; the shared flag rule applies to the new stack
/// pointer; cost 2.
pub open spec fn txs_spec(p: Processor, mem: Seq<u8>) -> Processor {
    Processor {
        sp: p.rx,
        flags: set_flags_spec(p.flags, p.rx),
        pc: u16_specs::wrapping_add(p.pc, 1),
        clock: (p.clock + 2) as u64,
        info: info_of(mem, p.pc, Op::Txs),
        ..p
    }
}

/// transfer-accumulator-to-X; the shared flag rule is applied to the
/// accumulator and then to the new X register (which holds the same
/// value); cost 1.
pub open spec fn tax_spec(p: Processor, mem: Seq<u8>) -> Processor {
    Processor {
        rx: p.acc,
        flags: set_flags_spec(set_flags_spec(p.flags, p.acc), p.acc),
        pc: u16_specs::wrapping_add(p.pc, 1),
        clock: (p.clock + 1) as u64,
        info: info_of(mem, p.pc, Op::Tax),
        ..p
    }
}

/// load-Y-immediate; the shared flag rule applies to the new value;
/// cost 4.
pub open spec fn ldy_spec(p: Processor, mem: Seq<u8>) -> Processor {
    let ry = mem[p.pc + 1];
    Processor {
        ry,
        flags: set_flags_spec(p.flags, ry),
        pc: u16_specs::wrapping_add(p.pc, 2),
        clock: (p.clock + 4) as u64,
        info: info_of(mem, p.pc, Op::Ldy),
        ..p
    }
}

/// load-X-immediate; the shared flag rule applies to the new value;
/// cost 0.
pub open spec fn ldx_spec(p: Processor, mem: Seq<u8>) -> Processor {
    let rx = mem[p.pc + 1];
    Processor {
        rx,
        flags: set_flags_spec(p.flags, rx),
        pc: u16_specs::wrapping_add(p.pc, 2),
        info: info_of(mem, p.pc, Op::Ldx),
        ..p
    }
}

/// load-accumulator-immediate; the shared flag rule applies to the new
/// accumulator; cost 2.
pub open spec fn lda_imm_spec(p: Processor, mem: Seq<u8>) -> Processor {
    let acc = mem[p.pc + 1];
    Processor {
        acc,
        flags: set_flags_spec(p.flags, acc),
        pc: u16_specs::wrapping_add(p.pc, 2),
        clock: (p.clock + 2) as u64,
        info: info_of(mem, p.pc, Op::LdaImm),
        ..p
    }
}

/// load-accumulator-absolute: the accumulator is read from memory at the
/// little-endian word after the opcode; the shared flag rule applies to
/// the new accumulator; cost 4.
pub open spec fn lda_abs_spec(p: Processor, mem: Seq<u8>) -> Processor {
    let acc = mem[word_at(mem, p.pc + 1)];
    Processor {
        acc,
        flags: set_flags_spec(p.flags, acc),
        pc: u16_specs::wrapping_add(p.pc, 3),
        clock: (p.clock + 4) as u64,
        info: info_of(mem, p.pc, Op::LdaAbs),
        ..p
    }
}

/// compare-immediate: the carry bit is set (never cleared here) exactly
/// when the accumulator strictly exceeds the operand, and the shared flag
/// rule applies to the wrapped difference; the accumulator itself is
/// untouched; cost 4.
pub open spec fn cmp_spec(p: Processor, mem: Seq<u8>) -> Processor {
    let result = u8_specs::wrapping_sub(p.acc, mem[p.pc + 1]);
    let carried = if p.acc > mem[p.pc + 1] {
        p.flags | 0x01
    } else {
        p.flags
    };
    Processor {
        flags: set_flags_spec(carried, result),
        pc: u16_specs::wrapping_add(p.pc, 2),
        clock: (p.clock + 4) as u64,
        info: info_of(mem, p.pc, Op::Cmp),
        ..p
    }
}

/// no-operation, also the handler for every unrecognized opcode byte:
/// advance past the single byte; registers, flags and memory untouched;
/// cost 2.
pub open spec fn nop_spec(p: Processor, mem: Seq<u8>) -> Processor {
    Processor {
        pc: u16_specs::wrapping_add(p.pc, 1),
        clock: (p.clock + 2) as u64,
        info: info_of(mem, p.pc, Op::Unknown),
        ..p
    }
}

/// The state one instruction leaves behind: the new register file and
/// the new memory image. Meaningful on inputs where `instr_ok` holds;
/// the clock additions assume headroom, which `Computer::step` requires.
pub open spec fn instr_step(p: Processor, mem: Seq<u8>) -> (Processor, Seq<u8>) {
    match decode(mem[p.pc as int]) {
        Op::Bpl => (bpl_spec(p, mem), mem),
        Op::Clc => (clc_spec(p, mem), mem),
        Op::Eor => (eor_spec(p, mem), mem),
        Op::Jmp => (jmp_spec(p, mem), mem),
        Op::Adc => (adc_spec(p, mem), mem),
        Op::Dey => (dey_spec(p, mem), mem),
        Op::Sta => sta_spec(p, mem),
        Op::Tya => (tya_spec(p, mem), mem),
        Op::Txs => (txs_spec(p, mem), mem),
        Op::Ldy => (ldy_spec(p, mem), mem),
        Op::Ldx => (ldx_spec(p, mem), mem),
        Op::Tax => (tax_spec(p, mem), mem),
        Op::LdaImm => (lda_imm_spec(p, mem), mem),
        Op::LdaAbs => (lda_abs_spec(p, mem), mem),
        Op::Cmp => (cmp_spec(p, mem), mem),
        Op::Dex => (dex_spec(p, mem), mem),
        Op::Bne => (bne_spec(p, mem), mem),
        Op::Cld => (cld_spec(p, mem), mem),
        Op::Beq => (beq_spec(p, mem), mem),
        Op::Unknown => (nop_spec(p, mem), mem),
    }
}

/// The lower bound of the emitted memory window: 255 bytes before the
/// program counter, clamped into the image.
pub open spec fn window_lo(pc: u16, len: int) -> int {
    let raw = if pc >= 255 {
        pc - 255
    } else {
        0
    };
    if raw <= len {
        raw
    } else {
        len
    }
}

/// One past the upper bound of the emitted memory window: 256 bytes
/// after the program counter, clamped into the image.
pub open spec fn window_hi(pc: u16, len: int) -> int {
    if pc + 257 <= len {
        pc + 257
    } else {
        len
    }
}

/// The bounded memory window emitted after each step: the slice of the
/// image around the program counter, at most 512 bytes.
pub open spec fn window_of(mem: Seq<u8>, pc: u16) -> Seq<u8> {
    mem.subrange(window_lo(pc, mem.len() as int), window_hi(pc, mem.len() as int))
}

} // verus!
