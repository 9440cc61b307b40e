//! One test per opcode of the table: each checks the exact register,
//! flag, program-counter and clock deltas of a single step.

use sim6502::computer::Computer;
use sim6502::processor::{InstrInfo, Op};

/// A memory image with `bytes` placed at the fixed entry address 0x400.
fn load(bytes: &[u8]) -> Computer {
    let mut data = vec![0u8; 0x600];
    for (i, b) in bytes.iter().enumerate() {
        data[0x400 + i] = *b;
    }
    Computer::new(data)
}

#[test]
fn lda_immediate_loads_accumulator() {
    let mut c = load(&[0xa9, 0x2a]);
    c.step().unwrap();
    let p = c.processor();
    assert_eq!(p.acc, 0x2a);
    assert_eq!(p.pc, 0x402);
    assert_eq!(p.clock, 2);
    assert_eq!(p.flags, 0);
    assert_eq!(p.rx, 0);
    assert_eq!(p.ry, 0);
    assert_eq!(p.sp, 0);
    assert_eq!(p.info, Some(InstrInfo { opcode: 0xa9, op: Op::LdaImm }));
}

#[test]
fn lda_immediate_zero_sets_zero_flag() {
    let mut c = load(&[0xa9, 0x00]);
    c.step().unwrap();
    let p = c.processor();
    assert_eq!(p.acc, 0);
    assert_eq!(p.flags, 0x02);
}

#[test]
fn lda_immediate_high_bit_sets_negative_flag() {
    let mut c = load(&[0xa9, 0x80]);
    c.step().unwrap();
    let p = c.processor();
    assert_eq!(p.acc, 0x80);
    assert_eq!(p.flags, 0x80);
}

#[test]
fn lda_absolute_reads_memory() {
    let mut c = load(&[0xad, 0x10, 0x05]);
    // the image is zero-filled, so write the operand cell via a store first
    let mut data = vec![0u8; 0x600];
    data[0x400] = 0xad;
    data[0x401] = 0x10;
    data[0x402] = 0x05;
    data[0x510] = 0x77;
    let mut c2 = Computer::new(data);
    c2.step().unwrap();
    let p = c2.processor();
    assert_eq!(p.acc, 0x77);
    assert_eq!(p.pc, 0x403);
    assert_eq!(p.clock, 4);
    assert_eq!(p.info, Some(InstrInfo { opcode: 0xad, op: Op::LdaAbs }));
    // and the zero-filled image loads zero, setting the zero flag
    c.step().unwrap();
    assert_eq!(c.processor().acc, 0);
    assert_eq!(c.processor().flags, 0x02);
}

#[test]
fn ldx_immediate_loads_x() {
    let mut c = load(&[0xa2, 0x41]);
    c.step().unwrap();
    let p = c.processor();
    assert_eq!(p.rx, 0x41);
    assert_eq!(p.acc, 0);
    assert_eq!(p.pc, 0x402);
    assert_eq!(p.clock, 0);
    assert_eq!(p.flags, 0);
    assert_eq!(p.info, Some(InstrInfo { opcode: 0xa2, op: Op::Ldx }));
}

#[test]
fn ldy_immediate_loads_y() {
    let mut c = load(&[0xa0, 0x99]);
    c.step().unwrap();
    let p = c.processor();
    assert_eq!(p.ry, 0x99);
    assert_eq!(p.pc, 0x402);
    assert_eq!(p.clock, 4);
    assert_eq!(p.flags, 0x80);
    assert_eq!(p.info, Some(InstrInfo { opcode: 0xa0, op: Op::Ldy }));
}

#[test]
fn adc_adds_immediate() {
    let mut c = load(&[0xa9, 0x10, 0x69, 0x0f]);
    c.step().unwrap();
    c.step().unwrap();
    let p = c.processor();
    assert_eq!(p.acc, 0x1f);
    assert_eq!(p.pc, 0x404);
    assert_eq!(p.clock, 4);
    assert_eq!(p.flags, 0);
    assert_eq!(p.info, Some(InstrInfo { opcode: 0x69, op: Op::Adc }));
}

#[test]
fn adc_wraps_and_flags_the_wrapped_sum() {
    let mut c = load(&[0xa9, 0xff, 0x69, 0x02]);
    c.step().unwrap();
    c.step().unwrap();
    let p = c.processor();
    assert_eq!(p.acc, 0x01);
    // the wrapped sum is nonzero and has bit 7 clear; the negative bit
    // set by loading 0xff is never cleared by the shared rule
    assert_eq!(p.flags, 0x80);
}

#[test]
fn adc_wrap_to_zero_sets_zero_flag() {
    let mut c = load(&[0xa9, 0xff, 0x69, 0x01]);
    c.step().unwrap();
    c.step().unwrap();
    let p = c.processor();
    assert_eq!(p.acc, 0x00);
    assert_eq!(p.flags & 0x02, 0x02);
}

#[test]
fn eor_xors_accumulator_and_leaves_flags_alone() {
    let mut c = load(&[0xa9, 0x0f, 0x49, 0x0f]);
    c.step().unwrap();
    let flags_before = c.processor().flags;
    c.step().unwrap();
    let p = c.processor();
    // the result is zero, yet the flags are deliberately untouched
    assert_eq!(p.acc, 0x00);
    assert_eq!(p.flags, flags_before);
    assert_eq!(p.pc, 0x404);
    assert_eq!(p.clock, 2);
    assert_eq!(p.info, Some(InstrInfo { opcode: 0x49, op: Op::Eor }));
}

#[test]
fn tax_copies_accumulator_to_x() {
    let mut c = load(&[0xa9, 0x2a, 0xaa]);
    c.step().unwrap();
    c.step().unwrap();
    let p = c.processor();
    assert_eq!(p.rx, 0x2a);
    assert_eq!(p.acc, 0x2a);
    assert_eq!(p.pc, 0x403);
    assert_eq!(p.clock, 3);
    assert_eq!(p.info, Some(InstrInfo { opcode: 0xaa, op: Op::Tax }));
}

#[test]
fn tya_copies_y_to_accumulator() {
    let mut c = load(&[0xa0, 0x07, 0x98]);
    c.step().unwrap();
    c.step().unwrap();
    let p = c.processor();
    assert_eq!(p.acc, 0x07);
    assert_eq!(p.ry, 0x07);
    assert_eq!(p.pc, 0x403);
    assert_eq!(p.clock, 6);
    assert_eq!(p.info, Some(InstrInfo { opcode: 0x98, op: Op::Tya }));
}

#[test]
fn txs_copies_x_to_stack_pointer() {
    let mut c = load(&[0xa2, 0x90, 0x9a]);
    c.step().unwrap();
    c.step().unwrap();
    let p = c.processor();
    assert_eq!(p.sp, 0x90);
    assert_eq!(p.rx, 0x90);
    assert_eq!(p.pc, 0x403);
    assert_eq!(p.clock, 2);
    // the shared rule runs on the new stack pointer, whose bit 7 is set
    assert_eq!(p.flags & 0x80, 0x80);
    assert_eq!(p.info, Some(InstrInfo { opcode: 0x9a, op: Op::Txs }));
}

#[test]
fn dex_decrements_x_wrapping() {
    let mut c = load(&[0xca]);
    c.step().unwrap();
    let p = c.processor();
    assert_eq!(p.rx, 0xff);
    assert_eq!(p.pc, 0x401);
    assert_eq!(p.clock, 2);
    assert_eq!(p.flags & 0x80, 0x80);
    assert_eq!(p.info, Some(InstrInfo { opcode: 0xca, op: Op::Dex }));
}

#[test]
fn dex_to_zero_sets_zero_flag() {
    let mut c = load(&[0xa2, 0x01, 0xca]);
    c.step().unwrap();
    c.step().unwrap();
    let p = c.processor();
    assert_eq!(p.rx, 0x00);
    assert_eq!(p.flags & 0x02, 0x02);
}

#[test]
fn dey_decrements_y_wrapping() {
    let mut c = load(&[0x88]);
    c.step().unwrap();
    let p = c.processor();
    assert_eq!(p.ry, 0xff);
    assert_eq!(p.pc, 0x401);
    assert_eq!(p.clock, 2);
    assert_eq!(p.flags & 0x80, 0x80);
    assert_eq!(p.info, Some(InstrInfo { opcode: 0x88, op: Op::Dey }));
}

#[test]
fn sta_writes_accumulator_to_memory() {
    let mut c = load(&[0xa9, 0x55, 0x8d, 0x00, 0x05]);
    c.step().unwrap();
    c.step().unwrap();
    let p = c.processor();
    assert_eq!(c.memory()[0x500], 0x55);
    assert_eq!(p.pc, 0x405);
    assert_eq!(p.clock, 7);
    assert_eq!(p.acc, 0x55);
    assert_eq!(p.info, Some(InstrInfo { opcode: 0x8d, op: Op::Sta }));
}

#[test]
fn jmp_sets_program_counter() {
    let mut c = load(&[0x4c, 0x34, 0x05]);
    c.step().unwrap();
    let p = c.processor();
    assert_eq!(p.pc, 0x534);
    assert_eq!(p.clock, 0);
    assert_eq!(p.flags, 0);
    assert_eq!(p.info, Some(InstrInfo { opcode: 0x4c, op: Op::Jmp }));
}

#[test]
fn cmp_less_than_operand() {
    let mut c = load(&[0xa9, 0x03, 0xc9, 0x05]);
    c.step().unwrap();
    c.step().unwrap();
    let p = c.processor();
    // 0x03 is not greater than 0x05: carry stays clear; the wrapped
    // difference is 0xfe: zero clear, negative set
    assert_eq!(p.flags & 0x01, 0);
    assert_eq!(p.flags & 0x02, 0);
    assert_eq!(p.flags & 0x80, 0x80);
    assert_eq!(p.acc, 0x03);
    assert_eq!(p.pc, 0x404);
    assert_eq!(p.clock, 6);
    assert_eq!(p.info, Some(InstrInfo { opcode: 0xc9, op: Op::Cmp }));
}

#[test]
fn cmp_greater_than_operand_sets_carry() {
    let mut c = load(&[0xa9, 0x05, 0xc9, 0x03]);
    c.step().unwrap();
    c.step().unwrap();
    let p = c.processor();
    assert_eq!(p.flags & 0x01, 0x01);
    assert_eq!(p.flags & 0x02, 0);
}

#[test]
fn cmp_equal_operand_sets_zero_not_carry() {
    let mut c = load(&[0xa9, 0x05, 0xc9, 0x05]);
    c.step().unwrap();
    c.step().unwrap();
    let p = c.processor();
    // carry is set only on strictly-greater
    assert_eq!(p.flags & 0x01, 0);
    assert_eq!(p.flags & 0x02, 0x02);
}

#[test]
fn clc_clears_only_the_carry_bit() {
    // set carry with a compare, then clear it
    let mut c = load(&[0xa9, 0x05, 0xc9, 0x03, 0x18]);
    c.step().unwrap();
    c.step().unwrap();
    assert_eq!(c.processor().flags & 0x01, 0x01);
    c.step().unwrap();
    let p = c.processor();
    assert_eq!(p.flags & 0x01, 0);
    assert_eq!(p.pc, 0x405);
    assert_eq!(p.clock, 7);
    assert_eq!(p.info, Some(InstrInfo { opcode: 0x18, op: Op::Clc }));
}

#[test]
fn cld_keeps_only_the_low_three_bits() {
    // load 0x80 to set the negative bit, then clear-decimal drops it
    let mut c = load(&[0xa9, 0x80, 0xd8]);
    c.step().unwrap();
    assert_eq!(c.processor().flags, 0x80);
    c.step().unwrap();
    let p = c.processor();
    assert_eq!(p.flags, 0);
    assert_eq!(p.pc, 0x403);
    assert_eq!(p.clock, 4);
    assert_eq!(p.info, Some(InstrInfo { opcode: 0xd8, op: Op::Cld }));
}

#[test]
fn bpl_taken_when_negative_clear() {
    let mut c = load(&[0x10, 0x05]);
    c.step().unwrap();
    let p = c.processor();
    assert_eq!(p.pc, 0x407);
    assert_eq!(p.clock, 3);
    assert_eq!(p.info, Some(InstrInfo { opcode: 0x10, op: Op::Bpl }));
}

#[test]
fn bpl_not_taken_when_negative_set() {
    let mut c = load(&[0xa9, 0x80, 0x10, 0x05]);
    c.step().unwrap();
    c.step().unwrap();
    assert_eq!(c.processor().pc, 0x404);
}

#[test]
fn bne_taken_when_zero_clear() {
    let mut c = load(&[0xa9, 0x01, 0xd0, 0x06]);
    c.step().unwrap();
    c.step().unwrap();
    let p = c.processor();
    assert_eq!(p.pc, 0x40a);
    assert_eq!(p.info, Some(InstrInfo { opcode: 0xd0, op: Op::Bne }));
}

#[test]
fn bne_not_taken_when_zero_set() {
    let mut c = load(&[0xa9, 0x00, 0xd0, 0x06]);
    c.step().unwrap();
    c.step().unwrap();
    assert_eq!(c.processor().pc, 0x404);
}

#[test]
fn beq_backward_offset_is_signed() {
    // zero flag set, offset 0xfb is -5: target = 0x404 - 5
    let mut c = load(&[0xa9, 0x00, 0xf0, 0xfb]);
    c.step().unwrap();
    c.step().unwrap();
    let p = c.processor();
    assert_eq!(p.pc, 0x3ff);
    assert_eq!(p.info, Some(InstrInfo { opcode: 0xf0, op: Op::Beq }));
}

#[test]
fn unknown_opcode_acts_as_no_operation() {
    let mut c = load(&[0xff]);
    c.step().unwrap();
    let p = c.processor();
    assert_eq!(p.pc, 0x401);
    assert_eq!(p.clock, 2);
    assert_eq!(p.flags, 0);
    assert_eq!(p.acc, 0);
    assert_eq!(p.rx, 0);
    assert_eq!(p.ry, 0);
    assert_eq!(p.sp, 0);
    assert_eq!(p.info, Some(InstrInfo { opcode: 0xff, op: Op::Unknown }));
}

#[test]
fn unknown_opcode_zero_byte_also_nops() {
    let mut c = load(&[0x00]);
    c.step().unwrap();
    let p = c.processor();
    assert_eq!(p.pc, 0x401);
    assert_eq!(p.clock, 2);
    assert_eq!(p.flags, 0);
    assert_eq!(p.info, Some(InstrInfo { opcode: 0x00, op: Op::Unknown }));
}
