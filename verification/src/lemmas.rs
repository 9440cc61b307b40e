//! The engine's stated laws, proved once and for all inputs.

use vstd::prelude::*;

use crate::processor::{decode, negative_flag_set, set_flags_spec, zero_flag_set, Op, Processor};
use crate::semantics::{instr_ok, instr_step, nop_spec, window_hi, window_lo, window_of, word_at};
use vstd::wrapping::u16_specs;

verus! {

/// The shared flag rule sets the zero bit exactly when the affected
/// value is zero, whatever the flags were before.
pub proof fn lemma_zero_flag(flags: u8, val: u8)
    ensures
        zero_flag_set(set_flags_spec(flags, val)) <==> val == 0,
{
    if val == 0 {
        assert(val & 0x80 != 0x80) by (bit_vector)
            requires
                val == 0,
        ;
        assert((flags | 0x02) & 0x02 == 0x02) by (bit_vector);
    } else {
        assert((flags & 0xfd) & 0x02 != 0x02) by (bit_vector);
        assert(((flags & 0xfd) | 0x80) & 0x02 != 0x02) by (bit_vector);
    }
}

/// The shared flag rule sets the negative bit whenever bit 7 of the
/// affected value is one, whatever the flags were before.
pub proof fn lemma_negative_flag(flags: u8, val: u8)
    ensures
        val & 0x80 == 0x80 ==> negative_flag_set(set_flags_spec(flags, val)),
{
    assert(((flags | 0x02) | 0x80) & 0x80 == 0x80) by (bit_vector);
    assert(((flags & 0xfd) | 0x80) & 0x80 == 0x80) by (bit_vector);
}

/// An opcode byte with no handler of its own behaves exactly like the
/// no-operation: the program counter advances by one, the clock pays the
/// default cost, and no register, flag or memory cell changes.
pub proof fn lemma_unknown_opcode_is_nop(p: Processor, mem: Seq<u8>)
    requires
        p.pc < mem.len(),
        decode(mem[p.pc as int]) == Op::Unknown,
    ensures
        instr_ok(p, mem),
        instr_step(p, mem).0 == nop_spec(p, mem),
        instr_step(p, mem).1 == mem,
        instr_step(p, mem).0.pc == u16_specs::wrapping_add(p.pc, 1),
        instr_step(p, mem).0.clock == (p.clock + 2) as u64,
        instr_step(p, mem).0.flags == p.flags,
        instr_step(p, mem).0.acc == p.acc,
        instr_step(p, mem).0.rx == p.rx,
        instr_step(p, mem).0.ry == p.ry,
        instr_step(p, mem).0.sp == p.sp,
{
}

/// The emitted memory window is well formed for every program counter,
/// including both ends of the address space: its bounds lie inside the
/// image and it holds at most 512 bytes.
pub proof fn lemma_window_well_formed(mem: Seq<u8>, pc: u16)
    ensures
        0 <= window_lo(pc, mem.len() as int) <= window_hi(pc, mem.len() as int) <= mem.len(),
        window_of(mem, pc).len() <= 512,
{
}

/// Loading the accumulator with an immediate value, storing it at an
/// absolute address, and loading the accumulator back from that same
/// address yields the same accumulator value both times (provided the
/// store does not overwrite the instructions themselves).
pub proof fn lemma_load_store_load_round_trip(p: Processor, mem: Seq<u8>)
    requires
        p.pc + 8 <= mem.len() <= 0x10000,
        mem[p.pc as int] == 0xa9,
        mem[p.pc + 2] == 0x8d,
        mem[p.pc + 5] == 0xad,
        mem[p.pc + 6] == mem[p.pc + 3],
        mem[p.pc + 7] == mem[p.pc + 4],
        word_at(mem, p.pc + 3) < mem.len(),
        word_at(mem, p.pc + 3) < p.pc + 5 || word_at(mem, p.pc + 3) >= p.pc + 8,
    ensures
        ({
            let s1 = instr_step(p, mem);
            let s2 = instr_step(s1.0, s1.1);
            let s3 = instr_step(s2.0, s2.1);
            &&& instr_ok(p, mem)
            &&& instr_ok(s1.0, s1.1)
            &&& instr_ok(s2.0, s2.1)
            &&& s1.0.acc == mem[p.pc + 1]
            &&& s2.1[word_at(mem, p.pc + 3)] == mem[p.pc + 1]
            &&& s3.0.acc == s1.0.acc
        }),
{
    let pc = p.pc as int;
    let addr = word_at(mem, pc + 3);
    let s1 = instr_step(p, mem);
    assert(s1.0.pc == pc + 2 && s1.0.acc == mem[pc + 1] && s1.1 == mem);
    let s2 = instr_step(s1.0, s1.1);
    assert(s2.0.pc == pc + 5);
    assert(s2.1 == mem.update(addr, mem[pc + 1]));
    assert(s2.1[addr] == mem[pc + 1]);
    let s3 = instr_step(s2.0, s2.1);
    assert(s2.1[pc + 5] == 0xad);
    assert(word_at(s2.1, pc + 6) == addr);
    assert(s3.0.acc == s2.1[addr]);
}

} // verus!
