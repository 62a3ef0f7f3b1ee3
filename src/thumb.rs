//! The THUMB (16-bit) execution pipeline.
//!
//! The caller fetches the halfword at the program counter and hands it to
//! `Cpu::execute_thumb`. Register and immediate operations are mapped onto
//! the ALU of the ARM pipeline and set the flags as their ARM counterparts
//! do. Reads of R15 as an operand see the address of the instruction plus 4.

use vstd::prelude::*;

use crate::alu::{alu, shift_immediate, spec_alu, spec_shift_immediate, AluOut};
use crate::arm::{arm_step, flags_set, ExecError, Transfer, CYCLES_REFILL, CYCLES_SEQUENTIAL};
use crate::bit::{low_mask_u32, BitIndex};
use crate::cpu::{aligned_pc, Cpu, Exception, LR, PC};
use crate::psr::STATE_BIT;
use crate::{cond_of_bits, CpuState};

verus! {

/// An ALU operation decoded from a THUMB opcode: the ARM operation number,
/// the two operands, the shifter carry and the destination register.
#[derive(Clone, Copy, Debug, PartialEq, Eq, Structural)]
pub struct ThumbAlu {
    pub op: u32,
    pub a: u32,
    pub b: u32,
    pub sc: bool,
    pub rd: u32,
}

/// Bits `start..end` of a THUMB opcode.
pub open spec fn tf(opcode: u16, start: u32, end: u32) -> u32 {
    (opcode as u32).spec_bits(start, end)
}

/// The ARM operation of THUMB ALU operation `op` (format 4), if it maps onto
/// one with the same operand order: AND, EOR, ADC, SBC, TST, CMP, CMN, ORR,
/// BIC, MVN.
pub open spec fn format4_op(op: u32) -> Option<u32> {
    if op == 0x0 || op == 0x1 || op == 0x5 || op == 0x6 || op == 0x8 || op == 0xA || op == 0xB
        || op == 0xC || op == 0xE || op == 0xF {
        Some(op)
    } else {
        None
    }
}

/// The ALU operation that a THUMB opcode of formats 1-4 performs, on the
/// registers of `pre`; `None` for every other opcode.
pub open spec fn thumb_alu_plan(pre: &Cpu, opcode: u16) -> Option<ThumbAlu> {
    let c = pre.spec_cpsr().spec_carry();
    let rd = tf(opcode, 0, 3);
    let rs = tf(opcode, 3, 6);
    if tf(opcode, 13, 16) == 0 && tf(opcode, 11, 13) != 3 {
        // move shifted register: LSL, LSR, ASR by an immediate
        let sh = spec_shift_immediate(tf(opcode, 11, 13), tf(opcode, 6, 11), pre.spec_reg(rs), c);
        Some(ThumbAlu { op: 13, a: 0, b: sh.0, sc: sh.1, rd })
    } else if tf(opcode, 11, 16) == 0b00011 {
        // add / subtract, register or 3-bit immediate
        let b = if tf(opcode, 10, 11) == 1 { tf(opcode, 6, 9) } else { pre.spec_reg(tf(opcode, 6, 9)) };
        let op = if tf(opcode, 9, 10) == 1 { 2u32 } else { 4u32 };
        Some(ThumbAlu { op, a: pre.spec_reg(rs), b, sc: c, rd })
    } else if tf(opcode, 13, 16) == 0b001 {
        // move / compare / add / subtract an 8-bit immediate
        let r = tf(opcode, 8, 11);
        let kind = tf(opcode, 11, 13);
        let op = if kind == 0 { 13u32 } else if kind == 1 { 10u32 } else if kind == 2 { 4u32 } else { 2u32 };
        Some(ThumbAlu { op, a: pre.spec_reg(r), b: tf(opcode, 0, 8), sc: c, rd: r })
    } else if tf(opcode, 10, 16) == 0b010000 {
        // ALU operations
        let op = tf(opcode, 6, 10);
        if op == 0x9 {
            // NEG: 0 - Rs
            Some(ThumbAlu { op: 3, a: pre.spec_reg(rs), b: 0, sc: c, rd })
        } else if format4_op(op) is Some {
            Some(ThumbAlu { op, a: pre.spec_reg(rd), b: pre.spec_reg(rs), sc: c, rd })
        } else {
            None
        }
    } else if tf(opcode, 8, 16) == 0b01000101 {
        // compare with high registers
        let r = tf(opcode, 0, 3) + 8 * tf(opcode, 7, 8);
        Some(ThumbAlu { op: 10, a: thumb_operand(pre, r as u32), b: thumb_operand(pre, tf(opcode, 3, 7)), sc: c, rd: r as u32 })
    } else {
        None
    }
}

/// The register write, without flags, of a THUMB opcode that adds or moves
/// with high registers or forms a PC- or SP-relative address: the register
/// and its new value; `None` for every other opcode.
pub open spec fn thumb_move_plan(pre: &Cpu, opcode: u16) -> Option<(u32, u32)> {
    let hi_rd = (tf(opcode, 0, 3) + 8 * tf(opcode, 7, 8)) as u32;
    let rs_val = thumb_operand(pre, tf(opcode, 3, 7));
    let imm = tf(opcode, 0, 8) * 4;
    if tf(opcode, 8, 16) == 0b01000100 {
        Some((hi_rd, thumb_operand(pre, hi_rd).wrapping_add(rs_val)))
    } else if tf(opcode, 8, 16) == 0b01000110 {
        Some((hi_rd, rs_val))
    } else if tf(opcode, 12, 16) == 0b1010 {
        let base = if tf(opcode, 11, 12) == 1 { pre.spec_reg(13) } else { pre.spec_pc().wrapping_add(4) & !2u32 };
        Some((tf(opcode, 8, 11), base.wrapping_add(imm as u32)))
    } else if tf(opcode, 8, 16) == 0b10110000 {
        let off = (tf(opcode, 0, 7) * 4) as u32;
        let sp = pre.spec_reg(13);
        Some((13u32, if tf(opcode, 7, 8) == 1 { sp.wrapping_sub(off) } else { sp.wrapping_add(off) }))
    } else {
        None
    }
}

/// The single data transfer that a THUMB load or store describes (PC-relative
/// load, register or immediate offset, SP-relative), read from the registers
/// of `pre`; `None` for every other opcode.
pub open spec fn thumb_transfer_plan(pre: &Cpu, opcode: u16) -> Option<Transfer> {
    let rd_low = tf(opcode, 0, 3);
    let rb = tf(opcode, 3, 6);
    if tf(opcode, 11, 16) == 0b01001 {
        let rd = tf(opcode, 8, 11);
        Some(Transfer {
            address: (pre.spec_pc().wrapping_add(4) & !2u32).wrapping_add((tf(opcode, 0, 8) * 4) as u32),
            load: true,
            byte: false,
            rd,
            rn: PC,
            writeback: None,
            value: pre.spec_reg(rd),
        })
    } else if tf(opcode, 12, 16) == 0b0101 && tf(opcode, 9, 10) == 0 {
        Some(Transfer {
            address: pre.spec_reg(rb).wrapping_add(pre.spec_reg(tf(opcode, 6, 9))),
            load: tf(opcode, 11, 12) == 1,
            byte: tf(opcode, 10, 11) == 1,
            rd: rd_low,
            rn: rb,
            writeback: None,
            value: pre.spec_reg(rd_low),
        })
    } else if tf(opcode, 13, 16) == 0b011 {
        let byte = tf(opcode, 12, 13) == 1;
        let off = if byte { tf(opcode, 6, 11) } else { (tf(opcode, 6, 11) * 4) as u32 };
        Some(Transfer {
            address: pre.spec_reg(rb).wrapping_add(off),
            load: tf(opcode, 11, 12) == 1,
            byte,
            rd: rd_low,
            rn: rb,
            writeback: None,
            value: pre.spec_reg(rd_low),
        })
    } else if tf(opcode, 12, 16) == 0b1001 {
        let rd = tf(opcode, 8, 11);
        Some(Transfer {
            address: pre.spec_reg(13).wrapping_add((tf(opcode, 0, 8) * 4) as u32),
            load: tf(opcode, 11, 12) == 1,
            byte: false,
            rd,
            rn: 13,
            writeback: None,
            value: pre.spec_reg(rd),
        })
    } else {
        None
    }
}

/// The effect of a THUMB ALU operation: flags set from the ALU, the result
/// written to the destination unless the operation only compares, and the
/// program counter advanced by 2.
pub open spec fn thumb_alu_effect(pre: &Cpu, post: &Cpu, plan: ThumbAlu) -> bool {
    let psr = pre.spec_cpsr();
    let out = spec_alu(plan.op, plan.a, plan.b, psr.spec_carry(), psr.spec_overflow(), plan.sc);
    &&& Cpu::regs_after(pre, post, pre.spec_mode(), plan.rd, out.result, out.writes, pre.spec_pc().wrapping_add(2))
    &&& flags_set(psr, post.spec_cpsr(), out)
}

/// Sign-extends the `width`-bit field `x` and doubles it.
pub open spec fn half_offset(x: u32, width: u32) -> u32 {
    if x.spec_bit((width - 1) as u32) { ((x | !low_mask_u32(width)) << 1u32) } else { x << 1u32 }
}

/// `BX Rs` in THUMB state (high registers allowed).
pub open spec fn is_thumb_bx(opcode: u16) -> bool {
    tf(opcode, 7, 16) == 0b010001110
}

/// The value of register `reg` as an operand of the THUMB instruction at `pc`.
pub open spec fn thumb_operand(pre: &Cpu, reg: u32) -> u32 {
    if reg == PC { pre.spec_pc().wrapping_add(4) } else { pre.spec_reg(reg) }
}

/// One THUMB step from `pre` to `post` on `opcode`, with result `r`.
pub open spec fn thumb_step(pre: &Cpu, post: &Cpu, opcode: u16, r: Result<u32, ExecError>) -> bool {
    let pc = pre.spec_pc();
    let next = pc.wrapping_add(2);
    let mode = pre.spec_mode();
    if thumb_alu_plan(pre, opcode) is Some {
        &&& r == Ok::<u32, ExecError>(CYCLES_SEQUENTIAL)
        &&& thumb_alu_effect(pre, post, thumb_alu_plan(pre, opcode).unwrap())
        &&& Cpu::spsrs_same(pre, post)
    } else if thumb_move_plan(pre, opcode) is Some {
        let (rd, value) = thumb_move_plan(pre, opcode).unwrap();
        &&& r == Ok::<u32, ExecError>(if rd == PC { CYCLES_REFILL } else { CYCLES_SEQUENTIAL })
        &&& if rd == PC {
            Cpu::regs_after(pre, post, mode, 0, 0, false, value & !1u32)
        } else {
            Cpu::regs_after(pre, post, mode, rd, value, true, next)
        }
        &&& post.spec_cpsr() == pre.spec_cpsr()
        &&& Cpu::spsrs_same(pre, post)
    } else if thumb_transfer_plan(pre, opcode) is Some {
        r == Err::<u32, ExecError>(ExecError::Transfer(thumb_transfer_plan(pre, opcode).unwrap())) && *post == *pre
    } else if is_thumb_bx(opcode) {
        let target = thumb_operand(pre, tf(opcode, 3, 7));
        let thumb = target.spec_bit(0);
        let state = if thumb { CpuState::Thumb } else { CpuState::Arm };
        &&& r == Ok::<u32, ExecError>(CYCLES_REFILL)
        &&& Cpu::regs_after(pre, post, mode, 0, 0, false, aligned_pc(target, state))
        &&& post.spec_cpsr().spec_raw() == pre.spec_cpsr().spec_raw().spec_set_bit(STATE_BIT, thumb)
        &&& post.spec_cpsr().spec_state() == state
        &&& Cpu::spsrs_same(pre, post)
    } else if tf(opcode, 8, 16) == 0b11011111 {
        r == Ok::<u32, ExecError>(CYCLES_REFILL) && Cpu::exception_entered_at(pre, post, Exception::SoftwareInterrupt, next)
    } else if tf(opcode, 8, 16) == 0b11011110 {
        r == Ok::<u32, ExecError>(CYCLES_REFILL) && Cpu::exception_entered_at(pre, post, Exception::UndefinedInstruction, next)
    } else if tf(opcode, 12, 16) == 0b1101 {
        // conditional branch
        let taken = pre.spec_cpsr().spec_satisfies(cond_of_bits(tf(opcode, 8, 12) as u8).unwrap());
        let target = pc.wrapping_add(4).wrapping_add(half_offset(tf(opcode, 0, 8), 8));
        &&& r == Ok::<u32, ExecError>(if taken { CYCLES_REFILL } else { CYCLES_SEQUENTIAL })
        &&& Cpu::regs_after(pre, post, mode, 0, 0, false, if taken { target } else { next })
        &&& post.spec_cpsr() == pre.spec_cpsr()
        &&& Cpu::spsrs_same(pre, post)
    } else if tf(opcode, 11, 16) == 0b11100 {
        // unconditional branch
        &&& r == Ok::<u32, ExecError>(CYCLES_REFILL)
        &&& Cpu::regs_after(pre, post, mode, 0, 0, false, pc.wrapping_add(4).wrapping_add(half_offset(tf(opcode, 0, 11), 11)))
        &&& post.spec_cpsr() == pre.spec_cpsr()
        &&& Cpu::spsrs_same(pre, post)
    } else if tf(opcode, 11, 16) == 0b11110 {
        // long branch with link, first half: LR = PC + 4 + (offset << 12)
        &&& r == Ok::<u32, ExecError>(CYCLES_SEQUENTIAL)
        &&& Cpu::regs_after(pre, post, mode, LR, pc.wrapping_add(4).wrapping_add(half_offset(tf(opcode, 0, 11), 11) << 11u32), true, next)
        &&& post.spec_cpsr() == pre.spec_cpsr()
        &&& Cpu::spsrs_same(pre, post)
    } else if tf(opcode, 11, 16) == 0b11111 {
        // long branch with link, second half: PC = LR + (offset << 1), LR = next | 1
        &&& r == Ok::<u32, ExecError>(CYCLES_REFILL)
        &&& Cpu::regs_after(pre, post, mode, LR, next | 1u32, true, pre.spec_reg(LR).wrapping_add(tf(opcode, 0, 11) << 1u32))
        &&& post.spec_cpsr() == pre.spec_cpsr()
        &&& Cpu::spsrs_same(pre, post)
    } else {
        r == Err::<u32, ExecError>(ExecError::Unsupported { opcode: opcode as u32 }) && *post == *pre
    }
}

/// Reads bits `start..end` of a THUMB opcode.
fn tfield(opcode: u16, start: u32, end: u32) -> (r: u32)
    requires
        start < end <= 16,
    ensures
        r == tf(opcode, start, end),
        end - start <= 4 ==> r < 16,
        end - start == 3 ==> r < 8,
        end - start == 2 ==> r < 4,
        end - start == 5 ==> r < 32,
        end - start == 7 ==> r < 128,
        end - start == 8 ==> r < 256,
        end - start == 1 ==> r < 2,
{
    let x: u32 = opcode as u32;
    let w: u32 = end - start;
    let r = x.bits(start, end);
    assert(w <= 4 ==> (x >> start) & low_mask_u32(w) < 16) by (bit_vector);
    assert(w == 3 ==> (x >> start) & low_mask_u32(w) < 8) by (bit_vector);
    assert(w == 2 ==> (x >> start) & low_mask_u32(w) < 4) by (bit_vector);
    assert(w == 5 ==> (x >> start) & low_mask_u32(w) < 32) by (bit_vector);
    assert(w == 7 ==> (x >> start) & low_mask_u32(w) < 128) by (bit_vector);
    assert(w == 8 ==> (x >> start) & low_mask_u32(w) < 256) by (bit_vector);
    assert(w == 1 ==> (x >> start) & low_mask_u32(w) < 2) by (bit_vector);
    r
}

/// Sign-extends the `width`-bit field `x` and doubles it.
fn half_offset_of(x: u32, width: u32) -> (r: u32)
    requires
        1 <= width < 32,
    ensures
        r == half_offset(x, width),
{
    if x.bit(width - 1) {
        assert((0xffff_ffffu32 >> 0u32) & low_mask_u32(width) == low_mask_u32(width)) by (bit_vector);
        (x | !(u32::MAX.bits(0, width))) << 1u32
    } else {
        x << 1u32
    }
}

impl Cpu {
    /// Decodes the ALU operation of a THUMB opcode of formats 1-4.
    fn thumb_plan(&self, opcode: u16) -> (r: Option<ThumbAlu>)
        requires
            self.wf(),
        ensures
            r == thumb_alu_plan(self, opcode),
            r matches Some(p) ==> p.op < 16 && p.rd < 16,
    {
        let c = self.cpsr().carry();
        let rd = tfield(opcode, 0, 3);
        let rs = tfield(opcode, 3, 6);
        if tfield(opcode, 13, 16) == 0 && tfield(opcode, 11, 13) != 3 {
            let sh = shift_immediate(tfield(opcode, 11, 13), tfield(opcode, 6, 11), self.reg(rs), c);
            Some(ThumbAlu { op: 13, a: 0, b: sh.0, sc: sh.1, rd })
        } else if tfield(opcode, 11, 16) == 0b00011 {
            let b = if tfield(opcode, 10, 11) == 1 {
                tfield(opcode, 6, 9)
            } else {
                self.reg(tfield(opcode, 6, 9))
            };
            let op: u32 = if tfield(opcode, 9, 10) == 1 { 2 } else { 4 };
            Some(ThumbAlu { op, a: self.reg(rs), b, sc: c, rd })
        } else if tfield(opcode, 13, 16) == 0b001 {
            let r = tfield(opcode, 8, 11);
            let kind = tfield(opcode, 11, 13);
            let op: u32 = if kind == 0 { 13 } else if kind == 1 { 10 } else if kind == 2 { 4 } else { 2 };
            Some(ThumbAlu { op, a: self.reg(r), b: tfield(opcode, 0, 8), sc: c, rd: r })
        } else if tfield(opcode, 10, 16) == 0b010000 {
            let op = tfield(opcode, 6, 10);
            if op == 0x9 {
                Some(ThumbAlu { op: 3, a: self.reg(rs), b: 0, sc: c, rd })
            } else if op == 0x0 || op == 0x1 || op == 0x5 || op == 0x6 || op == 0x8 || op == 0xA
                || op == 0xB || op == 0xC || op == 0xE || op == 0xF {
                Some(ThumbAlu { op, a: self.reg(rd), b: self.reg(rs), sc: c, rd })
            } else {
                None
            }
        } else if tfield(opcode, 8, 16) == 0b01000101 {
            let r = tfield(opcode, 0, 3) + 8 * tfield(opcode, 7, 8);
            let pc = self.reg(PC);
            Some(
                ThumbAlu {
                    op: 10,
                    a: self.thumb_operand_of(r, pc),
                    b: self.thumb_operand_of(tfield(opcode, 3, 7), pc),
                    sc: c,
                    rd: r,
                },
            )
        } else {
            None
        }
    }

    /// Returns register `reg` as an operand of the THUMB instruction at `pc`.
    fn thumb_operand_of(&self, reg: u32, pc: u32) -> (r: u32)
        requires
            self.wf(),
            reg < 16,
            pc == self.spec_pc(),
        ensures
            r == thumb_operand(self, reg),
    {
        if reg == PC {
            pc.wrapping_add(4)
        } else {
            self.reg(reg)
        }
    }

    /// Decodes the register write of a THUMB high-register add or move, or
    /// of a PC- or SP-relative address.
    fn thumb_move(&self, opcode: u16) -> (r: Option<(u32, u32)>)
        requires
            self.wf(),
        ensures
            r == thumb_move_plan(self, opcode),
            r matches Some(p) ==> p.0 < 16,
    {
        let pc = self.reg(PC);
        let top8 = tfield(opcode, 8, 16);
        let hi_rd = tfield(opcode, 0, 3) + 8 * tfield(opcode, 7, 8);
        if top8 == 0b01000100 {
            let rs_val = self.thumb_operand_of(tfield(opcode, 3, 7), pc);
            Some((hi_rd, self.thumb_operand_of(hi_rd, pc).wrapping_add(rs_val)))
        } else if top8 == 0b01000110 {
            Some((hi_rd, self.thumb_operand_of(tfield(opcode, 3, 7), pc)))
        } else if tfield(opcode, 12, 16) == 0b1010 {
            let base = if tfield(opcode, 11, 12) == 1 {
                self.reg(13)
            } else {
                pc.wrapping_add(4) & !2u32
            };
            Some((tfield(opcode, 8, 11), base.wrapping_add(tfield(opcode, 0, 8) * 4)))
        } else if top8 == 0b10110000 {
            let off = tfield(opcode, 0, 7) * 4;
            let sp = self.reg(13);
            Some((13, if tfield(opcode, 7, 8) == 1 {
                sp.wrapping_sub(off)
            } else {
                sp.wrapping_add(off)
            }))
        } else {
            None
        }
    }

    /// Decodes a THUMB load or store.
    fn thumb_transfer(&self, opcode: u16) -> (r: Option<Transfer>)
        requires
            self.wf(),
        ensures
            r == thumb_transfer_plan(self, opcode),
    {
        let rd_low = tfield(opcode, 0, 3);
        let rb = tfield(opcode, 3, 6);
        if tfield(opcode, 11, 16) == 0b01001 {
            let rd = tfield(opcode, 8, 11);
            let pc = self.reg(PC);
            Some(Transfer {
                address: (pc.wrapping_add(4) & !2u32).wrapping_add(tfield(opcode, 0, 8) * 4),
                load: true,
                byte: false,
                rd,
                rn: PC,
                writeback: None,
                value: self.reg(rd),
            })
        } else if tfield(opcode, 12, 16) == 0b0101 && tfield(opcode, 9, 10) == 0 {
            Some(Transfer {
                address: self.reg(rb).wrapping_add(self.reg(tfield(opcode, 6, 9))),
                load: tfield(opcode, 11, 12) == 1,
                byte: tfield(opcode, 10, 11) == 1,
                rd: rd_low,
                rn: rb,
                writeback: None,
                value: self.reg(rd_low),
            })
        } else if tfield(opcode, 13, 16) == 0b011 {
            let byte = tfield(opcode, 12, 13) == 1;
            let off = if byte {
                tfield(opcode, 6, 11)
            } else {
                tfield(opcode, 6, 11) * 4
            };
            Some(Transfer {
                address: self.reg(rb).wrapping_add(off),
                load: tfield(opcode, 11, 12) == 1,
                byte,
                rd: rd_low,
                rn: rb,
                writeback: None,
                value: self.reg(rd_low),
            })
        } else if tfield(opcode, 12, 16) == 0b1001 {
            let rd = tfield(opcode, 8, 11);
            Some(Transfer {
                address: self.reg(13).wrapping_add(tfield(opcode, 0, 8) * 4),
                load: tfield(opcode, 11, 12) == 1,
                byte: false,
                rd,
                rn: 13,
                writeback: None,
                value: self.reg(rd),
            })
        } else {
            None
        }
    }

    /// Applies a decoded THUMB ALU operation.
    fn apply_thumb_alu(&mut self, plan: ThumbAlu, pc: u32)
        requires
            old(self).wf(),
            pc == old(self).spec_pc(),
            plan.op < 16,
            plan.rd < 16,
        ensures
            final(self).wf(),
            thumb_alu_effect(old(self), final(self), plan),
            Cpu::spsrs_same(old(self), final(self)),
    {
        let psr = self.cpsr();
        let out: AluOut = alu(plan.op, plan.a, plan.b, psr.carry(), psr.overflow(), plan.sc);
        self.set_cpsr(psr.with_sign_zero(out.n, out.z).with_carry_overflow(out.c, out.v));
        if out.writes {
            self.set_reg(plan.rd, out.result);
        }
        self.set_reg(PC, pc.wrapping_add(2));
    }

    /// Executes one THUMB opcode, the halfword fetched at the program
    /// counter, and returns the cycles it took. A load or store is reported
    /// as `ExecError::Transfer`, for `complete_transfer`.
    pub fn execute_thumb(&mut self, opcode: u16) -> (r: Result<u32, ExecError>)
        requires
            old(self).wf(),
            old(self).spec_cpsr().spec_state() == CpuState::Thumb,
        ensures
            final(self).wf(),
            thumb_step(old(self), final(self), opcode, r),
    {
        let pc = self.reg(PC);
        let next = pc.wrapping_add(2);
        match self.thumb_plan(opcode) {
            Some(plan) => {
                self.apply_thumb_alu(plan, pc);
                return Ok(CYCLES_SEQUENTIAL);
            },
            None => {},
        }
        match self.thumb_move(opcode) {
            Some((rd, value)) => {
                if rd == PC {
                    self.set_reg(PC, value & !1u32);
                    return Ok(CYCLES_REFILL);
                } else {
                    self.set_reg(rd, value);
                    self.set_reg(PC, next);
                    return Ok(CYCLES_SEQUENTIAL);
                }
            },
            None => {},
        }
        match self.thumb_transfer(opcode) {
            Some(t) => {
                return Err(ExecError::Transfer(t));
            },
            None => {},
        }
        if tfield(opcode, 7, 16) == 0b010001110 {
            let reg = tfield(opcode, 3, 7);
            let target = if reg == PC {
                pc.wrapping_add(4)
            } else {
                self.reg(reg)
            };
            let thumb = target.bit(0);
            let state = if thumb {
                CpuState::Thumb
            } else {
                CpuState::Arm
            };
            let psr = self.cpsr().with_state(state);
            self.set_cpsr(psr);
            self.set_pc(target);
            return Ok(CYCLES_REFILL);
        }
        let top8 = tfield(opcode, 8, 16);
        if top8 == 0b11011111 {
            self.enter_exception_at(Exception::SoftwareInterrupt, next);
            return Ok(CYCLES_REFILL);
        }
        if top8 == 0b11011110 {
            self.enter_exception_at(Exception::UndefinedInstruction, next);
            return Ok(CYCLES_REFILL);
        }
        if tfield(opcode, 12, 16) == 0b1101 {
            let cond = tfield(opcode, 8, 12);
            if self.cpsr().satisfies_field(cond as u8) {
                let target = pc.wrapping_add(4).wrapping_add(half_offset_of(tfield(opcode, 0, 8), 8));
                self.set_reg(PC, target);
                return Ok(CYCLES_REFILL);
            } else {
                self.set_reg(PC, next);
                return Ok(CYCLES_SEQUENTIAL);
            }
        }
        let top5 = tfield(opcode, 11, 16);
        if top5 == 0b11100 {
            let target = pc.wrapping_add(4).wrapping_add(half_offset_of(tfield(opcode, 0, 11), 11));
            self.set_reg(PC, target);
            return Ok(CYCLES_REFILL);
        }
        if top5 == 0b11110 {
            let upper = pc.wrapping_add(4).wrapping_add(half_offset_of(tfield(opcode, 0, 11), 11) << 11u32);
            self.set_reg(LR, upper);
            self.set_reg(PC, next);
            return Ok(CYCLES_SEQUENTIAL);
        }
        if top5 == 0b11111 {
            let target = self.reg(LR).wrapping_add(tfield(opcode, 0, 11) << 1u32);
            self.set_reg(LR, next | 1u32);
            self.set_reg(PC, target);
            return Ok(CYCLES_REFILL);
        }
        Err(ExecError::Unsupported { opcode: opcode as u32 })
    }

    /// Executes one opcode in the current state: `opcode` is the word fetched
    /// at the program counter in ARM state, and its low halfword is the
    /// opcode in THUMB state.
    pub fn execute(&mut self, opcode: u32) -> (r: Result<u32, ExecError>)
        requires
            old(self).wf(),
        ensures
            final(self).wf(),
            old(self).spec_cpsr().spec_state() == CpuState::Arm ==> arm_step(old(self), final(self), opcode, r),
            old(self).spec_cpsr().spec_state() == CpuState::Thumb ==> thumb_step(
                old(self),
                final(self),
                opcode as u16,
                r,
            ),
    {
        match self.cpsr().state() {
            CpuState::Arm => self.execute_arm(opcode),
            CpuState::Thumb => self.execute_thumb(opcode as u16),
        }
    }
}

} // verus!
