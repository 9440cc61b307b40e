//! The engine: a memory image, a register file, and one `step` per
//! instruction.

use vstd::prelude::*;

use crate::processor::{InstrInfo, Op, Processor};
use crate::semantics::{
    adc_spec, beq_spec, bne_spec, bpl_spec, clc_spec, cld_spec, cmp_spec, dex_spec, dey_spec,
    eor_spec, instr_ok, instr_step, jmp_spec, lda_abs_spec, lda_imm_spec, ldx_spec, ldy_spec,
    nop_spec, sta_spec, tax_spec, txs_spec, tya_spec, window_hi, window_lo, window_of, word_at,
};

verus! {

/// What a step reports when an address cannot be resolved inside the
/// memory image: the engine refuses to execute rather than read or write
/// out of range.
#[derive(Clone, Copy, Debug, PartialEq, Eq, Structural)]
pub enum EmuError {
    AddressOutOfRange,
}

/// The messages the engine's surroundings exchange with it: button
/// presses flowing in, and the two snapshots emitted after each step
/// flowing out.
pub enum ControllerMessage {
    ButtonPressed(String),
    UpdatedProcessorAvailable(Processor),
    UpdatedDataAvailable(Vec<u8>),
}

/// The emulator: the register file and the memory image it owns
/// exclusively. Memory is loaded once and never resized; only
/// store instructions mutate it.
#[derive(Clone, Debug)]
pub struct Computer {
    processor: Processor,
    data: Vec<u8>,
}

impl Computer {
    /// The register file, as contracts speak of it.
    pub closed spec fn spec_processor(self) -> Processor {
        self.processor
    }

    /// The memory image, as contracts speak of it.
    pub closed spec fn spec_mem(self) -> Seq<u8> {
        self.data@
    }

    /// The memory image is big enough to hold the fixed entry address and
    /// no bigger than the 16-bit address space.
    pub open spec fn wf(self) -> bool {
        0x400 < self.spec_mem().len() <= 0x10000
    }

    /// Load a program image and place the processor at the fixed entry
    /// address 0x400, with every register, flag and the clock at zero.
    pub fn new(data: Vec<u8>) -> (c: Computer)
        requires
            0x400 < data@.len() <= 0x10000,
        ensures
            c.wf(),
            c.spec_mem() == data@,
            c.spec_processor() == (Processor {
                flags: 0,
                acc: 0,
                rx: 0,
                ry: 0,
                pc: 0x400,
                sp: 0,
                info: None,
                clock: 0,
            }),
    {
        Computer {
            data,
            processor: Processor {
                flags: 0,
                acc: 0,
                rx: 0,
                ry: 0,
                pc: 0x400,
                sp: 0,
                info: None,
                clock: 0,
            },
        }
    }

    /// A copy of the register file, for observation only.
    pub fn processor(&self) -> (p: Processor)
        ensures
            p == self.spec_processor(),
    {
        self.processor
    }

    /// A read-only view of the memory image.
    pub fn memory(&self) -> (m: &Vec<u8>)
        ensures
            m@ == self.spec_mem(),
    {
        &self.data
    }

    /// The shared flag-update rule: set or clear the zero bit by whether
    /// `val` is zero, and set the negative bit when bit 7 of `val` is
    /// one; every other bit is kept.
    pub fn set_flags(flags: u8, val: u8) -> (r: u8)
        ensures
            r == crate::processor::set_flags_spec(flags, val),
    {
        let mut f = flags;
        if val == 0 {
            f = f | 0x02;
        } else {
            f = f & 0xfd;
        }
        if val & 0x80 == 0x80 {
            f = f | 0x80;
        }
        f
    }

    /// add-immediate.
    fn adc(&mut self)
        requires
            old(self).processor.pc + 1 < old(self).data@.len(),
            old(self).processor.clock + 2 <= u64::MAX,
        ensures
            final(self).processor == adc_spec(old(self).processor, old(self).data@),
            final(self).data@ == old(self).data@,
    {
        let pcu = self.processor.pc as usize;
        let val = self.data[pcu + 1];
        let acc = self.processor.acc.wrapping_add(val);
        self.processor.flags = Computer::set_flags(self.processor.flags, acc);
        self.processor.acc = acc;
        self.processor.info = Some(InstrInfo { opcode: self.data[pcu], op: Op::Adc });
        self.processor.clock = self.processor.clock + 2;
        self.processor.pc = self.processor.pc.wrapping_add(2);
    }

    /// clear-decimal.
    fn cld(&mut self)
        requires
            old(self).processor.pc < old(self).data@.len(),
            old(self).processor.clock + 2 <= u64::MAX,
        ensures
            final(self).processor == cld_spec(old(self).processor, old(self).data@),
            final(self).data@ == old(self).data@,
    {
        let pcu = self.processor.pc as usize;
        self.processor.info = Some(InstrInfo { opcode: self.data[pcu], op: Op::Cld });
        self.processor.flags = self.processor.flags & 0x07;
        self.processor.clock = self.processor.clock + 2;
        self.processor.pc = self.processor.pc.wrapping_add(1);
    }

    /// transfer-X-to-stackptr.
    fn txs(&mut self)
        requires
            old(self).processor.pc < old(self).data@.len(),
            old(self).processor.clock + 2 <= u64::MAX,
        ensures
            final(self).processor == txs_spec(old(self).processor, old(self).data@),
            final(self).data@ == old(self).data@,
    {
        let pcu = self.processor.pc as usize;
        self.processor.sp = self.processor.rx;
        self.processor.flags = Computer::set_flags(self.processor.flags, self.processor.sp);
        self.processor.info = Some(InstrInfo { opcode: self.data[pcu], op: Op::Txs });
        self.processor.clock = self.processor.clock + 2;
        self.processor.pc = self.processor.pc.wrapping_add(1);
    }

    /// transfer-Y-to-accumulator.
    fn tya(&mut self)
        requires
            old(self).processor.pc < old(self).data@.len(),
            old(self).processor.clock + 2 <= u64::MAX,
        ensures
            final(self).processor == tya_spec(old(self).processor, old(self).data@),
            final(self).data@ == old(self).data@,
    {
        let pcu = self.processor.pc as usize;
        self.processor.acc = self.processor.ry;
        self.processor.flags = Computer::set_flags(self.processor.flags, self.processor.acc);
        self.processor.info = Some(InstrInfo { opcode: self.data[pcu], op: Op::Tya });
        self.processor.clock = self.processor.clock + 2;
        self.processor.pc = self.processor.pc.wrapping_add(1);
    }

    /// clear-carry.
    fn clc(&mut self)
        requires
            old(self).processor.pc < old(self).data@.len(),
            old(self).processor.clock + 1 <= u64::MAX,
        ensures
            final(self).processor == clc_spec(old(self).processor, old(self).data@),
            final(self).data@ == old(self).data@,
    {
        let pcu = self.processor.pc as usize;
        self.processor.flags = self.processor.flags & 0xfe;
        self.processor.info = Some(InstrInfo { opcode: self.data[pcu], op: Op::Clc });
        self.processor.clock = self.processor.clock + 1;
        self.processor.pc = self.processor.pc.wrapping_add(1);
    }

    /// transfer-accumulator-to-X. The shared flag rule runs twice, once
    /// on the accumulator and once on the new X register, which holds
    /// the same value.
    fn tax(&mut self)
        requires
            old(self).processor.pc < old(self).data@.len(),
            old(self).processor.clock + 1 <= u64::MAX,
        ensures
            final(self).processor == tax_spec(old(self).processor, old(self).data@),
            final(self).data@ == old(self).data@,
    {
        let pcu = self.processor.pc as usize;
        self.processor.flags = Computer::set_flags(self.processor.flags, self.processor.acc);
        self.processor.rx = self.processor.acc;
        self.processor.flags = Computer::set_flags(self.processor.flags, self.processor.rx);
        self.processor.info = Some(InstrInfo { opcode: self.data[pcu], op: Op::Tax });
        self.processor.clock = self.processor.clock + 1;
        self.processor.pc = self.processor.pc.wrapping_add(1);
    }

    /// exclusive-or-immediate. Flags are left untouched on purpose.
    fn eor(&mut self)
        requires
            old(self).processor.pc + 1 < old(self).data@.len(),
        ensures
            final(self).processor == eor_spec(old(self).processor, old(self).data@),
            final(self).data@ == old(self).data@,
    {
        let pcu = self.processor.pc as usize;
        let val = self.data[pcu + 1];
        self.processor.info = Some(InstrInfo { opcode: self.data[pcu], op: Op::Eor });
        self.processor.acc = self.processor.acc ^ val;
        self.processor.pc = self.processor.pc.wrapping_add(2);
    }

    /// load-X-immediate.
    fn ldx(&mut self)
        requires
            old(self).processor.pc + 1 < old(self).data@.len(),
        ensures
            final(self).processor == ldx_spec(old(self).processor, old(self).data@),
            final(self).data@ == old(self).data@,
    {
        let pcu = self.processor.pc as usize;
        self.processor.rx = self.data[pcu + 1];
        self.processor.flags = Computer::set_flags(self.processor.flags, self.processor.rx);
        self.processor.info = Some(InstrInfo { opcode: self.data[pcu], op: Op::Ldx });
        self.processor.pc = self.processor.pc.wrapping_add(2);
    }

    /// load-Y-immediate.
    fn ldy(&mut self)
        requires
            old(self).processor.pc + 1 < old(self).data@.len(),
            old(self).processor.clock + 4 <= u64::MAX,
        ensures
            final(self).processor == ldy_spec(old(self).processor, old(self).data@),
            final(self).data@ == old(self).data@,
    {
        let pcu = self.processor.pc as usize;
        self.processor.ry = self.data[pcu + 1];
        self.processor.flags = Computer::set_flags(self.processor.flags, self.processor.ry);
        self.processor.info = Some(InstrInfo { opcode: self.data[pcu], op: Op::Ldy });
        self.processor.clock = self.processor.clock + 4;
        self.processor.pc = self.processor.pc.wrapping_add(2);
    }

    /// load-accumulator, immediate or absolute depending on the opcode
    /// byte at the program counter.
    fn lda(&mut self)
        requires
            old(self).wf(),
            old(self).processor.pc + 1 < old(self).data@.len(),
            old(self).processor.clock + 4 <= u64::MAX,
            old(self).data@[old(self).processor.pc as int] == 0xad ==> old(self).processor.pc + 2
                < old(self).data@.len() && word_at(old(self).data@, old(self).processor.pc + 1)
                < old(self).data@.len(),
        ensures
            final(self).data@ == old(self).data@,
            old(self).data@[old(self).processor.pc as int] == 0xad ==> final(self).processor
                == lda_abs_spec(old(self).processor, old(self).data@),
            old(self).data@[old(self).processor.pc as int] != 0xad ==> final(self).processor
                == lda_imm_spec(old(self).processor, old(self).data@),
    {
        let pcu = self.processor.pc as usize;
        let inst = self.data[pcu];
        if inst == 0xad {
            let addr = Computer::get_word(&self.data, self.processor.pc + 1);
            let acc = self.data[addr as usize];
            self.processor.flags = Computer::set_flags(self.processor.flags, acc);
            self.processor.acc = acc;
            self.processor.info = Some(InstrInfo { opcode: inst, op: Op::LdaAbs });
            self.processor.clock = self.processor.clock + 4;
            self.processor.pc = self.processor.pc.wrapping_add(3);
        } else {
            let acc = self.data[pcu + 1];
            self.processor.flags = Computer::set_flags(self.processor.flags, acc);
            self.processor.acc = acc;
            self.processor.info = Some(InstrInfo { opcode: inst, op: Op::LdaImm });
            self.processor.clock = self.processor.clock + 2;
            self.processor.pc = self.processor.pc.wrapping_add(2);
        }
    }

    /// decrement-X.
    fn dex(&mut self)
        requires
            old(self).processor.pc < old(self).data@.len(),
            old(self).processor.clock + 2 <= u64::MAX,
        ensures
            final(self).processor == dex_spec(old(self).processor, old(self).data@),
            final(self).data@ == old(self).data@,
    {
        let pcu = self.processor.pc as usize;
        self.processor.rx = self.processor.rx.wrapping_sub(1);
        self.processor.flags = Computer::set_flags(self.processor.flags, self.processor.rx);
        self.processor.info = Some(InstrInfo { opcode: self.data[pcu], op: Op::Dex });
        self.processor.clock = self.processor.clock + 2;
        self.processor.pc = self.processor.pc.wrapping_add(1);
    }

    /// decrement-Y.
    fn dey(&mut self)
        requires
            old(self).processor.pc < old(self).data@.len(),
            old(self).processor.clock + 2 <= u64::MAX,
        ensures
            final(self).processor == dey_spec(old(self).processor, old(self).data@),
            final(self).data@ == old(self).data@,
    {
        let pcu = self.processor.pc as usize;
        self.processor.ry = self.processor.ry.wrapping_sub(1);
        self.processor.flags = Computer::set_flags(self.processor.flags, self.processor.ry);
        self.processor.info = Some(InstrInfo { opcode: self.data[pcu], op: Op::Dey });
        self.processor.clock = self.processor.clock + 2;
        self.processor.pc = self.processor.pc.wrapping_add(1);
    }

    /// compare-immediate. The carry bit is set only when the accumulator
    /// strictly exceeds the operand; the shared flag rule runs on the
    /// wrapped difference.
    fn cmp(&mut self)
        requires
            old(self).processor.pc + 1 < old(self).data@.len(),
            old(self).processor.clock + 4 <= u64::MAX,
        ensures
            final(self).processor == cmp_spec(old(self).processor, old(self).data@),
            final(self).data@ == old(self).data@,
    {
        let pcu = self.processor.pc as usize;
        let acc = self.processor.acc;
        let value = self.data[pcu + 1];
        let result = acc.wrapping_sub(value);
        let mut flags = self.processor.flags;
        if acc > value {
            flags = flags | 0x01;
        }
        flags = Computer::set_flags(flags, result);
        self.processor.flags = flags;
        self.processor.info = Some(InstrInfo { opcode: self.data[pcu], op: Op::Cmp });
        self.processor.clock = self.processor.clock + 4;
        self.processor.pc = self.processor.pc.wrapping_add(2);
    }

    /// store-absolute.
    fn sta(&mut self)
        requires
            old(self).wf(),
            old(self).processor.pc + 2 < old(self).data@.len(),
            word_at(old(self).data@, old(self).processor.pc + 1) < old(self).data@.len(),
            old(self).processor.clock + 5 <= u64::MAX,
        ensures
            final(self).processor == sta_spec(old(self).processor, old(self).data@).0,
            final(self).data@ == sta_spec(old(self).processor, old(self).data@).1,
    {
        let pcu = self.processor.pc as usize;
        let opcode = self.data[pcu];
        let addr = Computer::get_word(&self.data, self.processor.pc + 1);
        let acc = self.processor.acc;
        self.data.set(addr as usize, acc);
        self.processor.info = Some(InstrInfo { opcode, op: Op::Sta });
        self.processor.clock = self.processor.clock + 5;
        self.processor.pc = self.processor.pc.wrapping_add(3);
    }

    /// jump-absolute.
    fn jmp(&mut self)
        requires
            old(self).wf(),
            old(self).processor.pc + 2 < old(self).data@.len(),
        ensures
            final(self).processor == jmp_spec(old(self).processor, old(self).data@),
            final(self).data@ == old(self).data@,
    {
        let pcu = self.processor.pc as usize;
        let addr = Computer::get_word(&self.data, self.processor.pc + 1);
        self.processor.info = Some(InstrInfo { opcode: self.data[pcu], op: Op::Jmp });
        self.processor.pc = addr;
    }

    /// branch-if-not-equal.
    fn bne(&mut self)
        requires
            old(self).processor.pc + 1 < old(self).data@.len(),
            old(self).processor.clock + 3 <= u64::MAX,
        ensures
            final(self).processor == bne_spec(old(self).processor, old(self).data@),
            final(self).data@ == old(self).data@,
    {
        let pcu = self.processor.pc as usize;
        let offset = self.data[pcu + 1];
        let should_jump = self.processor.flags & 0x02 != 0x02;
        let base = self.processor.pc.wrapping_add(2);
        let new_addr = if should_jump {
            if offset < 0x80 {
                base.wrapping_add(offset as u16)
            } else {
                base.wrapping_add(offset as u16).wrapping_sub(0x100)
            }
        } else {
            base
        };
        self.processor.info = Some(InstrInfo { opcode: self.data[pcu], op: Op::Bne });
        self.processor.clock = self.processor.clock + 3;
        self.processor.pc = new_addr;
    }

    /// branch-if-equal.
    fn beq(&mut self)
        requires
            old(self).processor.pc + 1 < old(self).data@.len(),
            old(self).processor.clock + 3 <= u64::MAX,
        ensures
            final(self).processor == beq_spec(old(self).processor, old(self).data@),
            final(self).data@ == old(self).data@,
    {
        let pcu = self.processor.pc as usize;
        let offset = self.data[pcu + 1];
        let should_jump = self.processor.flags & 0x02 == 0x02;
        let base = self.processor.pc.wrapping_add(2);
        let new_addr = if should_jump {
            if offset < 0x80 {
                base.wrapping_add(offset as u16)
            } else {
                base.wrapping_add(offset as u16).wrapping_sub(0x100)
            }
        } else {
            base
        };
        self.processor.info = Some(InstrInfo { opcode: self.data[pcu], op: Op::Beq });
        self.processor.clock = self.processor.clock + 3;
        self.processor.pc = new_addr;
    }

    /// branch-if-positive.
    fn bpl(&mut self)
        requires
            old(self).processor.pc + 1 < old(self).data@.len(),
            old(self).processor.clock + 3 <= u64::MAX,
        ensures
            final(self).processor == bpl_spec(old(self).processor, old(self).data@),
            final(self).data@ == old(self).data@,
    {
        let pcu = self.processor.pc as usize;
        let offset = self.data[pcu + 1];
        let should_jump = self.processor.flags & 0x80 != 0x80;
        let base = self.processor.pc.wrapping_add(2);
        let new_addr = if should_jump {
            if offset < 0x80 {
                base.wrapping_add(offset as u16)
            } else {
                base.wrapping_add(offset as u16).wrapping_sub(0x100)
            }
        } else {
            base
        };
        self.processor.info = Some(InstrInfo { opcode: self.data[pcu], op: Op::Bpl });
        self.processor.clock = self.processor.clock + 3;
        self.processor.pc = new_addr;
    }

    /// no-operation, the handler every unrecognized opcode byte resolves
    /// to.
    fn nop(&mut self)
        requires
            old(self).processor.pc < old(self).data@.len(),
            old(self).processor.clock + 2 <= u64::MAX,
        ensures
            final(self).processor == nop_spec(old(self).processor, old(self).data@),
            final(self).data@ == old(self).data@,
    {
        let pcu = self.processor.pc as usize;
        self.processor.info = Some(InstrInfo { opcode: self.data[pcu], op: Op::Unknown });
        self.processor.clock = self.processor.clock + 2;
        self.processor.pc = self.processor.pc.wrapping_add(1);
    }

    /// Fetch the opcode byte at the program counter, select its handler
    /// by exact byte value (any unmapped byte selects no-operation), and
    /// execute it. Before any handler runs, every address the instruction
    /// would touch is checked against the image: an address out of range
    /// fails the step and leaves every register, flag and memory cell as
    /// it was.
    fn run_instruction(&mut self) -> (r: Result<(), EmuError>)
        requires
            old(self).wf(),
            old(self).processor.clock + 5 <= u64::MAX,
        ensures
            final(self).wf(),
            instr_ok(old(self).processor, old(self).data@) ==> r is Ok && (
                final(self).processor,
                final(self).data@,
            ) == instr_step(old(self).processor, old(self).data@),
            !instr_ok(old(self).processor, old(self).data@) ==> (r matches Err(e) && e
                == EmuError::AddressOutOfRange && *final(self) == *old(self)),
    {
        let len = self.data.len();
        let pcu = self.processor.pc as usize;
        if pcu >= len {
            return Err(EmuError::AddressOutOfRange);
        }
        let inst = self.data[pcu];
        match inst {
            0x10 => {
                if pcu + 1 < len {
                    self.bpl();
                    Ok(())
                } else {
                    Err(EmuError::AddressOutOfRange)
                }
            },
            0x18 => {
                self.clc();
                Ok(())
            },
            0x49 => {
                if pcu + 1 < len {
                    self.eor();
                    Ok(())
                } else {
                    Err(EmuError::AddressOutOfRange)
                }
            },
            0x4c => {
                if pcu + 2 < len {
                    self.jmp();
                    Ok(())
                } else {
                    Err(EmuError::AddressOutOfRange)
                }
            },
            0x69 => {
                if pcu + 1 < len {
                    self.adc();
                    Ok(())
                } else {
                    Err(EmuError::AddressOutOfRange)
                }
            },
            0x88 => {
                self.dey();
                Ok(())
            },
            0x8d => {
                if pcu + 2 < len {
                    let addr = Computer::get_word(&self.data, self.processor.pc + 1);
                    if (addr as usize) < len {
                        self.sta();
                        Ok(())
                    } else {
                        Err(EmuError::AddressOutOfRange)
                    }
                } else {
                    Err(EmuError::AddressOutOfRange)
                }
            },
            0x98 => {
                self.tya();
                Ok(())
            },
            0x9a => {
                self.txs();
                Ok(())
            },
            0xa0 => {
                if pcu + 1 < len {
                    self.ldy();
                    Ok(())
                } else {
                    Err(EmuError::AddressOutOfRange)
                }
            },
            0xa2 => {
                if pcu + 1 < len {
                    self.ldx();
                    Ok(())
                } else {
                    Err(EmuError::AddressOutOfRange)
                }
            },
            0xaa => {
                self.tax();
                Ok(())
            },
            0xa9 => {
                if pcu + 1 < len {
                    self.lda();
                    Ok(())
                } else {
                    Err(EmuError::AddressOutOfRange)
                }
            },
            0xad => {
                if pcu + 2 < len {
                    let addr = Computer::get_word(&self.data, self.processor.pc + 1);
                    if (addr as usize) < len {
                        self.lda();
                        Ok(())
                    } else {
                        Err(EmuError::AddressOutOfRange)
                    }
                } else {
                    Err(EmuError::AddressOutOfRange)
                }
            },
            0xc9 => {
                if pcu + 1 < len {
                    self.cmp();
                    Ok(())
                } else {
                    Err(EmuError::AddressOutOfRange)
                }
            },
            0xca => {
                self.dex();
                Ok(())
            },
            0xd0 => {
                if pcu + 1 < len {
                    self.bne();
                    Ok(())
                } else {
                    Err(EmuError::AddressOutOfRange)
                }
            },
            0xd8 => {
                self.cld();
                Ok(())
            },
            0xf0 => {
                if pcu + 1 < len {
                    self.beq();
                    Ok(())
                } else {
                    Err(EmuError::AddressOutOfRange)
                }
            },
            _ => {
                self.nop();
                Ok(())
            },
        }
    }

    /// The bounded window of memory around the program counter that each
    /// step emits: at most 512 bytes, clamped so its construction never
    /// indexes outside the image.
    fn memory_window(&self) -> (w: Vec<u8>)
        ensures
            w@ == window_of(self.data@, self.processor.pc),
    {
        let len = self.data.len();
        let pcu = self.processor.pc as usize;
        let raw = if pcu >= 255 {
            pcu - 255
        } else {
            0
        };
        let lo = if raw <= len {
            raw
        } else {
            len
        };
        let hi = if pcu + 257 <= len {
            pcu + 257
        } else {
            len
        };
        let mut w: Vec<u8> = Vec::new();
        let mut i = lo;
        while i < hi
            invariant
                lo <= i <= hi <= self.data@.len(),
                w@ == self.data@.subrange(lo as int, i as int),
            decreases hi - i,
        {
            w.push(self.data[i]);
            proof {
                assert(w@ =~= self.data@.subrange(lo as int, (i + 1) as int));
            }
            i = i + 1;
        }
        proof {
            assert(lo as int == window_lo(self.processor.pc, self.data@.len() as int));
            assert(hi as int == window_hi(self.processor.pc, self.data@.len() as int));
        }
        w
    }

    /// Decode and execute exactly one instruction, then emit the two
    /// snapshots an observer is owed, in their guaranteed order: first
    /// the full copy of the register file, then the bounded memory
    /// window around the new program counter. When the program counter
    /// or an operand address falls outside the memory image, nothing is
    /// executed or emitted and the distinct address-out-of-range
    /// condition is reported instead. The cycle counter must have
    /// headroom for one instruction's cost, at most five cycles.
    pub fn step(&mut self) -> (r: Result<(ControllerMessage, ControllerMessage), EmuError>)
        requires
            old(self).wf(),
            old(self).spec_processor().clock + 5 <= u64::MAX,
        ensures
            final(self).wf(),
            instr_ok(old(self).spec_processor(), old(self).spec_mem()) ==> (
                final(self).spec_processor(),
                final(self).spec_mem(),
            ) == instr_step(old(self).spec_processor(), old(self).spec_mem()),
            instr_ok(old(self).spec_processor(), old(self).spec_mem()) ==> (r matches Ok(msgs)
                && msgs.0 == ControllerMessage::UpdatedProcessorAvailable(
                final(self).spec_processor(),
            ) && (msgs.1 matches ControllerMessage::UpdatedDataAvailable(win) && win@ == window_of(
                final(self).spec_mem(),
                final(self).spec_processor().pc,
            ))),
            !instr_ok(old(self).spec_processor(), old(self).spec_mem()) ==> (r matches Err(e) && e
                == EmuError::AddressOutOfRange && *final(self) == *old(self)),
    {
        match self.run_instruction() {
            Ok(()) => {
                let local_proc = self.processor;
                let window = self.memory_window();
                Ok(
                    (
                        ControllerMessage::UpdatedProcessorAvailable(local_proc),
                        ControllerMessage::UpdatedDataAvailable(window),
                    ),
                )
            },
            Err(e) => Err(e),
        }
    }

    /// The 16-bit little-endian word at `address` and `address + 1`:
    /// low byte first.
    pub fn get_word(data: &Vec<u8>, address: u16) -> (w: u16)
        requires
            address + 1 < data@.len(),
        ensures
            w == word_at(data@, address as int),
    {
        let low = data[address as usize];
        let high = data[(address as usize) + 1];
        let h16 = high as u16;
        proof {
            assert(h16 << 8 == h16 * 0x100) by (bit_vector)
                requires
                    h16 < 0x100,
            ;
        }
        (low as u16) + (h16 << 8)
    }
}

} // verus!
