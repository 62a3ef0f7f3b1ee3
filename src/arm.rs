//! The ARM (32-bit) execution pipeline.
//!
//! The caller fetches the word at the program counter and hands it to
//! `Cpu::execute_arm`, which checks its condition, decodes it and applies it.
//! Reads of R15 as an operand see the address of the instruction plus 8.

use vstd::prelude::*;

use crate::alu::{
    alu, ror, spec_ror, top, rotated_immediate, shift_immediate, spec_alu, spec_rotated_immediate,
    spec_shift_immediate, AluOut,
};
use crate::bit::{low_mask_u32, BitIndex};
use crate::cpu::{aligned_pc, reg_slot, Cpu, Exception, NoSpsr, LR, PC};
use crate::psr::{Psr, STATE_BIT};
use crate::{cond_of_bits, CpuMode, CpuState, InvalidCpuMode};

verus! {

/// Cycles of an instruction whose condition fails, or of a data-processing
/// instruction that does not write R15.
pub const CYCLES_SEQUENTIAL: u32 = 1;
/// Cycles charged for `MUL` and `MLA`, a fixed figure that leaves out their
/// operand-dependent internal cycles.
pub const CYCLES_MULTIPLY: u32 = 2;
/// Cycles of an instruction that refills the pipeline (branches, writes to
/// R15, exception entry).
pub const CYCLES_REFILL: u32 = 3;

/// Why an opcode was not executed. In each case nothing was changed.
#[derive(Clone, Copy, Debug, PartialEq, Eq, Structural)]
pub enum ExecError {
    /// An opcode of a class that this core does not execute: long multiply,
    /// halfword and block transfers, swaps, coprocessor operations and
    /// register-specified shifts.
    Unsupported { opcode: u32 },
    /// An exception return (a flag-setting data-processing write to R15), or
    /// an access to the saved status register, in a mode without one.
    NoSpsr(NoSpsr),
    /// An exception return whose saved status register holds no valid mode,
    /// or a write of such a mode to the CPSR: a broken invariant of the
    /// emulated machine.
    InvalidMode(InvalidCpuMode),
    /// A single data transfer (`LDR`, `STR`, `LDRB`, `STRB`): the caller
    /// performs the bus access that it describes and hands the result to
    /// `Cpu::complete_transfer`.
    Transfer(Transfer),
}

/// A single data transfer decoded from an opcode, with its operands read.
#[derive(Clone, Copy, Debug, PartialEq, Eq, Structural)]
pub struct Transfer {
    /// The address accessed.
    pub address: u32,
    /// A load (true) or a store.
    pub load: bool,
    /// A byte (true) or a word access.
    pub byte: bool,
    /// The register loaded or stored.
    pub rd: u32,
    /// The base register.
    pub rn: u32,
    /// The value written back to the base register, if any.
    pub writeback: Option<u32>,
    /// For a store, the value stored (its low byte for a byte store).
    pub value: u32,
}

/// `MUL` / `MLA`.
pub open spec fn is_multiply(opcode: u32) -> bool {
    opcode & 0x0FC0_00F0u32 == 0x0000_0090u32
}

/// The effect of `MUL Rd, Rm, Rs` / `MLA Rd, Rm, Rs, Rn`: Rd takes the low
/// 32 bits of `Rm * Rs (+ Rn)`; with S, N and Z follow the result and C and V
/// are kept.
pub open spec fn multiply_effect(pre: &Cpu, post: &Cpu, opcode: u32) -> bool {
    let psr = pre.spec_cpsr();
    let rd = opcode.spec_bits(16, 20);
    let acc = if opcode.spec_bit(21) { spec_operand(pre, opcode.spec_bits(12, 16)) } else { 0u32 };
    let value = spec_operand(pre, opcode.spec_bits(0, 4)).wrapping_mul(
        spec_operand(pre, opcode.spec_bits(8, 12)),
    ).wrapping_add(acc);
    let out = AluOut {
        result: value,
        n: top(value),
        z: value == 0,
        c: psr.spec_carry(),
        v: psr.spec_overflow(),
        writes: true,
    };
    &&& Cpu::regs_after(pre, post, pre.spec_mode(), rd, value, rd != PC, pre.spec_pc().wrapping_add(4))
    &&& if opcode.spec_bit(20) {
        flags_set(psr, post.spec_cpsr(), out)
    } else {
        post.spec_cpsr() == psr
    }
}

/// A single data transfer: `LDR`/`STR`, word or byte, immediate or
/// shifted-register offset.
pub open spec fn is_single_transfer(opcode: u32) -> bool {
    opcode.spec_bits(26, 28) == 0b01 && !(opcode.spec_bit(25) && opcode.spec_bit(4))
}

/// The transfer that `opcode` describes, read from the registers of `pre`.
pub open spec fn spec_transfer(pre: &Cpu, opcode: u32) -> Transfer {
    let rn = opcode.spec_bits(16, 20);
    let rd = opcode.spec_bits(12, 16);
    let base = spec_operand(pre, rn);
    let offset = if opcode.spec_bit(25) {
        spec_shift_immediate(
            opcode.spec_bits(5, 7),
            opcode.spec_bits(7, 12),
            spec_operand(pre, opcode.spec_bits(0, 4)),
            pre.spec_cpsr().spec_carry(),
        ).0
    } else {
        opcode.spec_bits(0, 12)
    };
    let moved = if opcode.spec_bit(23) { base.wrapping_add(offset) } else { base.wrapping_sub(offset) };
    let pre_indexed = opcode.spec_bit(24);
    Transfer {
        address: if pre_indexed { moved } else { base },
        load: opcode.spec_bit(20),
        byte: opcode.spec_bit(22),
        rd,
        rn,
        writeback: if !pre_indexed || opcode.spec_bit(21) { Some(moved) } else { None },
        value: if rd == PC { pre.spec_pc().wrapping_add(12) } else { pre.spec_reg(rd) },
    }
}

/// The register value that a load of `loaded` gives: a byte zero-extended,
/// a word rotated right by eight times the low two address bits.
pub open spec fn loaded_value(t: Transfer, loaded: u32) -> u32 {
    if t.byte { loaded & 0xFFu32 } else { spec_ror(loaded, (8 * (t.address & 3u32)) as u32) }
}

/// The condition field (bits 31-28).
pub open spec fn cond_field(opcode: u32) -> u8 {
    opcode.spec_bits(28, 32) as u8
}

/// Branch and exchange: `BX Rm`.
pub open spec fn is_bx(opcode: u32) -> bool {
    opcode & 0x0FFF_FFF0u32 == 0x012F_FF10u32
}

/// Branch and branch with link.
pub open spec fn is_branch(opcode: u32) -> bool {
    opcode.spec_bits(25, 28) == 0b101
}

/// Software interrupt.
pub open spec fn is_swi(opcode: u32) -> bool {
    opcode.spec_bits(24, 28) == 0xF
}

/// The architecturally undefined space.
pub open spec fn is_undefined(opcode: u32) -> bool {
    opcode.spec_bits(25, 28) == 0b011 && opcode.spec_bit(4)
}

/// A data-processing instruction with an immediate operand or a register
/// operand shifted by an immediate amount, that this core executes.
pub open spec fn is_data_processing(opcode: u32) -> bool {
    let op = opcode.spec_bits(21, 25);
    let s = opcode.spec_bit(20);
    &&& opcode.spec_bits(26, 28) == 0
    &&& (opcode.spec_bit(25) || !opcode.spec_bit(4))
    &&& !(8 <= op <= 11 && !s)
    &&& !(s && opcode.spec_bits(12, 16) == 15)
}

/// `MRS Rd, CPSR` / `MRS Rd, SPSR`.
pub open spec fn is_mrs(opcode: u32) -> bool {
    opcode & 0x0FBF_0FFFu32 == 0x010F_0000u32
}

/// `MSR CPSR/SPSR_fields, Rm` or `#imm`.
pub open spec fn is_msr(opcode: u32) -> bool {
    opcode & 0x0DB0_F000u32 == 0x0120_F000u32
}

/// The byte mask that an `MSR` writes: its field bits select the flags,
/// status, extension and control bytes; in User mode only the flags byte of
/// the CPSR can change.
pub open spec fn msr_mask(opcode: u32, mode: CpuMode) -> u32 {
    let m = (if opcode.spec_bit(19) { 0xFF00_0000u32 } else { 0u32 }) | (if opcode.spec_bit(18) {
        0x00FF_0000u32
    } else {
        0u32
    }) | (if opcode.spec_bit(17) { 0x0000_FF00u32 } else { 0u32 }) | (if opcode.spec_bit(16) {
        0x0000_00FFu32
    } else {
        0u32
    });
    if !opcode.spec_bit(22) && mode == CpuMode::User { m & 0xFF00_0000u32 } else { m }
}

/// The value that an `MSR` writes, before masking.
pub open spec fn msr_value(pre: &Cpu, opcode: u32) -> u32 {
    if opcode.spec_bit(25) {
        spec_rotated_immediate(opcode.spec_bits(0, 8), opcode.spec_bits(8, 12), false).0
    } else {
        spec_operand(pre, opcode.spec_bits(0, 4))
    }
}

/// The effect of `MRS`: Rd takes the raw CPSR, or the current mode's SPSR.
pub open spec fn mrs_effect(pre: &Cpu, post: &Cpu, opcode: u32, r: Result<u32, ExecError>) -> bool {
    let mode = pre.spec_mode();
    let next = pre.spec_pc().wrapping_add(4);
    let rd = opcode.spec_bits(12, 16);
    if opcode.spec_bit(22) && !mode.spec_has_spsr() {
        r == Err::<u32, ExecError>(ExecError::NoSpsr(NoSpsr { mode })) && *post == *pre
    } else {
        let value = if opcode.spec_bit(22) { pre.spec_spsr(mode).spec_raw() } else { pre.spec_cpsr().spec_raw() };
        &&& r == Ok::<u32, ExecError>(CYCLES_SEQUENTIAL)
        &&& Cpu::regs_after(pre, post, mode, rd, value, rd != PC, next)
        &&& post.spec_cpsr() == pre.spec_cpsr()
        &&& Cpu::spsrs_same(pre, post)
    }
}

/// The effect of `MSR`: the masked bytes of the CPSR, or of the current
/// mode's SPSR, take those of the value. A CPSR write that would leave no
/// valid mode fails and changes nothing.
pub open spec fn msr_effect(pre: &Cpu, post: &Cpu, opcode: u32, r: Result<u32, ExecError>) -> bool {
    let mode = pre.spec_mode();
    let next = pre.spec_pc().wrapping_add(4);
    let mask = msr_mask(opcode, mode);
    let value = msr_value(pre, opcode);
    if opcode.spec_bit(22) {
        if !mode.spec_has_spsr() {
            r == Err::<u32, ExecError>(ExecError::NoSpsr(NoSpsr { mode })) && *post == *pre
        } else {
            let new = (pre.spec_spsr(mode).spec_raw() & !mask) | (value & mask);
            &&& r == Ok::<u32, ExecError>(CYCLES_SEQUENTIAL)
            &&& Cpu::regs_after(pre, post, mode, 0, 0, false, next)
            &&& post.spec_cpsr() == pre.spec_cpsr()
            &&& post.spec_spsr(mode).spec_raw() == new
            &&& forall|m: CpuMode| m.spec_has_spsr() && m != mode ==> #[trigger] post.spec_spsr(m) == pre.spec_spsr(m)
        }
    } else {
        let new = (pre.spec_cpsr().spec_raw() & !mask) | (value & mask);
        let psr = Psr::from_raw_spec(new);
        if !psr.has_valid_mode() {
            r == Err::<u32, ExecError>(ExecError::InvalidMode(InvalidCpuMode { bits: psr.spec_mode_bits() }))
                && *post == *pre
        } else {
            &&& r == Ok::<u32, ExecError>(CYCLES_SEQUENTIAL)
            &&& Cpu::regs_after(pre, post, mode, 0, 0, false, next)
            &&& post.spec_cpsr() == psr
            &&& Cpu::spsrs_same(pre, post)
        }
    }
}

/// A flag-setting data-processing write to R15 (such as `MOVS PC, LR` or
/// `SUBS PC, LR, #4`): the return from an exception, which restores the CPSR
/// from the current mode's SPSR.
pub open spec fn is_exception_return(opcode: u32) -> bool {
    let op = opcode.spec_bits(21, 25);
    &&& opcode.spec_bits(26, 28) == 0
    &&& (opcode.spec_bit(25) || !opcode.spec_bit(4))
    &&& !(8 <= op <= 11)
    &&& opcode.spec_bit(20)
    &&& opcode.spec_bits(12, 16) == 15
}

/// The effect of an exception return: the CPSR takes the current mode's
/// SPSR and the program counter the ALU result, aligned for the restored
/// state. It fails, changing nothing, where the mode has no SPSR or the SPSR
/// holds no valid mode.
pub open spec fn exception_return_effect(pre: &Cpu, post: &Cpu, opcode: u32, r: Result<u32, ExecError>) -> bool {
    let mode = pre.spec_mode();
    let spsr = pre.spec_spsr(mode);
    let out = spec_dp_out(pre, opcode);
    if !mode.spec_has_spsr() {
        r == Err::<u32, ExecError>(ExecError::NoSpsr(NoSpsr { mode })) && *post == *pre
    } else if !spsr.has_valid_mode() {
        r == Err::<u32, ExecError>(ExecError::InvalidMode(InvalidCpuMode { bits: spsr.spec_mode_bits() }))
            && *post == *pre
    } else {
        &&& r == Ok::<u32, ExecError>(CYCLES_REFILL)
        &&& post.spec_cpsr() == spsr
        &&& Cpu::regs_after(pre, post, mode, 0, 0, false, aligned_pc(out.result, spsr.spec_state()))
        &&& Cpu::spsrs_same(pre, post)
    }
}

/// The value of register `reg` as an operand of the instruction at `pc`.
pub open spec fn spec_operand(pre: &Cpu, reg: u32) -> u32 {
    if reg == PC { pre.spec_pc().wrapping_add(8) } else { pre.spec_reg(reg) }
}

/// The second operand of a data-processing instruction and the shifter's
/// carry.
pub open spec fn spec_operand2(pre: &Cpu, opcode: u32) -> (u32, bool) {
    let c = pre.spec_cpsr().spec_carry();
    if opcode.spec_bit(25) {
        spec_rotated_immediate(opcode.spec_bits(0, 8), opcode.spec_bits(8, 12), c)
    } else {
        spec_shift_immediate(
            opcode.spec_bits(5, 7),
            opcode.spec_bits(7, 12),
            spec_operand(pre, opcode.spec_bits(0, 4)),
            c,
        )
    }
}

/// What the ALU produces for a data-processing instruction.
pub open spec fn spec_dp_out(pre: &Cpu, opcode: u32) -> AluOut {
    let psr = pre.spec_cpsr();
    let op2 = spec_operand2(pre, opcode);
    spec_alu(
        opcode.spec_bits(21, 25),
        spec_operand(pre, opcode.spec_bits(16, 20)),
        op2.0,
        psr.spec_carry(),
        psr.spec_overflow(),
        op2.1,
    )
}

/// `post` has the mode, state, interrupt masks of `pre` and the flags of `out`.
pub open spec fn flags_set(pre: Psr, post: Psr, out: AluOut) -> bool {
    &&& post.spec_mode_bits() == pre.spec_mode_bits()
    &&& post.spec_state() == pre.spec_state()
    &&& post.spec_irq_disabled() == pre.spec_irq_disabled()
    &&& post.spec_fiq_disabled() == pre.spec_fiq_disabled()
    &&& post.spec_sign() == out.n
    &&& post.spec_zero() == out.z
    &&& post.spec_carry() == out.c
    &&& post.spec_overflow() == out.v
}

/// The effect of a data-processing instruction.
pub open spec fn dp_effect(pre: &Cpu, post: &Cpu, opcode: u32) -> bool {
    let out = spec_dp_out(pre, opcode);
    let rd = opcode.spec_bits(12, 16);
    let to_pc = out.writes && rd == PC;
    let new_pc = if to_pc { out.result & !3u32 } else { pre.spec_pc().wrapping_add(4) };
    &&& Cpu::regs_after(pre, post, pre.spec_mode(), rd, out.result, out.writes && rd != PC, new_pc)
    &&& if opcode.spec_bit(20) {
        flags_set(pre.spec_cpsr(), post.spec_cpsr(), out)
    } else {
        post.spec_cpsr() == pre.spec_cpsr()
    }
}

/// The byte offset of a branch: the signed 24-bit field times four.
pub open spec fn branch_offset(opcode: u32) -> u32 {
    let imm = opcode.spec_bits(0, 24);
    if imm.spec_bit(23) { (imm | 0xFF00_0000u32) << 2u32 } else { imm << 2u32 }
}

/// The effect of `B` / `BL`: the program counter jumps to the instruction's
/// address plus 8 plus the offset; `BL` saves the next address in LR.
pub open spec fn branch_effect(pre: &Cpu, post: &Cpu, opcode: u32) -> bool {
    let pc = pre.spec_pc();
    &&& Cpu::regs_after(
        pre,
        post,
        pre.spec_mode(),
        LR,
        pc.wrapping_add(4),
        opcode.spec_bit(24),
        pc.wrapping_add(8).wrapping_add(branch_offset(opcode)),
    )
    &&& post.spec_cpsr() == pre.spec_cpsr()
}

/// The effect of `BX Rm`: bit 0 of Rm selects the state, and the program
/// counter takes Rm aligned for that state.
pub open spec fn bx_effect(pre: &Cpu, post: &Cpu, opcode: u32) -> bool {
    let target = spec_operand(pre, opcode.spec_bits(0, 4));
    let thumb = target.spec_bit(0);
    let state = if thumb { CpuState::Thumb } else { CpuState::Arm };
    &&& Cpu::regs_after(pre, post, pre.spec_mode(), 0, 0, false, aligned_pc(target, state))
    &&& post.spec_cpsr().spec_raw() == pre.spec_cpsr().spec_raw().spec_set_bit(STATE_BIT, thumb)
    &&& post.spec_cpsr().spec_state() == state
}

/// One ARM step from `pre` to `post` on `opcode`, with result `r`.
pub open spec fn arm_step(pre: &Cpu, post: &Cpu, opcode: u32, r: Result<u32, ExecError>) -> bool {
    let pc = pre.spec_pc();
    if !pre.spec_cpsr().spec_satisfies(cond_of_bits(cond_field(opcode)).unwrap()) {
        &&& r == Ok::<u32, ExecError>(CYCLES_SEQUENTIAL)
        &&& Cpu::regs_after(pre, post, pre.spec_mode(), 0, 0, false, pc.wrapping_add(4))
        &&& post.spec_cpsr() == pre.spec_cpsr()
        &&& Cpu::spsrs_same(pre, post)
    } else if is_bx(opcode) {
        r == Ok::<u32, ExecError>(CYCLES_REFILL) && bx_effect(pre, post, opcode) && Cpu::spsrs_same(pre, post)
    } else if is_branch(opcode) {
        r == Ok::<u32, ExecError>(CYCLES_REFILL) && branch_effect(pre, post, opcode) && Cpu::spsrs_same(pre, post)
    } else if is_swi(opcode) {
        r == Ok::<u32, ExecError>(CYCLES_REFILL) && Cpu::exception_entered_at(
            pre,
            post,
            Exception::SoftwareInterrupt,
            pc.wrapping_add(4),
        )
    } else if is_undefined(opcode) {
        r == Ok::<u32, ExecError>(CYCLES_REFILL) && Cpu::exception_entered_at(
            pre,
            post,
            Exception::UndefinedInstruction,
            pc.wrapping_add(4),
        )
    } else if is_single_transfer(opcode) {
        r == Err::<u32, ExecError>(ExecError::Transfer(spec_transfer(pre, opcode))) && *post == *pre
    } else if is_mrs(opcode) {
        mrs_effect(pre, post, opcode, r)
    } else if is_msr(opcode) {
        msr_effect(pre, post, opcode, r)
    } else if is_exception_return(opcode) {
        exception_return_effect(pre, post, opcode, r)
    } else if is_multiply(opcode) {
        r == Ok::<u32, ExecError>(CYCLES_MULTIPLY) && multiply_effect(pre, post, opcode) && Cpu::spsrs_same(pre, post)
    } else if is_data_processing(opcode) {
        let out = spec_dp_out(pre, opcode);
        &&& r == Ok::<u32, ExecError>(
            if out.writes && opcode.spec_bits(12, 16) == PC { CYCLES_REFILL } else { CYCLES_SEQUENTIAL },
        )
        &&& dp_effect(pre, post, opcode)
        &&& Cpu::spsrs_same(pre, post)
    } else {
        r == Err::<u32, ExecError>(ExecError::Unsupported { opcode }) && *post == *pre
    }
}

/// A multiply opcode is no status register transfer and no exception return.
proof fn lemma_multiply_class(opcode: u32)
    requires
        is_multiply(opcode),
    ensures
        !is_mrs(opcode),
        !is_msr(opcode),
        !is_exception_return(opcode),
{
    assert(opcode & 0x0FC0_00F0u32 == 0x0000_0090u32 ==> opcode & 0x0FBF_0FFFu32 != 0x010F_0000u32
        && opcode & 0x0DB0_F000u32 != 0x0120_F000u32) by (bit_vector);
    assert(opcode & 0x0FC0_00F0u32 == 0x0000_0090u32 ==> !(((opcode >> 25u32) & 1u32 == 1u32) || !(
    (opcode >> 4u32) & 1u32 == 1u32))) by (bit_vector);
}

/// A field read with `bits` is below `2^(end - start)`.
proof fn lemma_field_bound(x: u32, start: u32, end: u32)
    requires
        start < end <= 32,
    ensures
        end - start == 1 ==> x.spec_bits(start, end) < 2,
        end - start == 2 ==> x.spec_bits(start, end) < 4,
        end - start == 3 ==> x.spec_bits(start, end) < 8,
        end - start == 4 ==> x.spec_bits(start, end) < 16,
        end - start == 5 ==> x.spec_bits(start, end) < 32,
        end - start == 8 ==> x.spec_bits(start, end) < 256,
{
    let w = (end - start) as u32;
    assert(w == 1 ==> (x >> start) & low_mask_u32(w) < 2) by (bit_vector);
    assert(w == 2 ==> (x >> start) & low_mask_u32(w) < 4) by (bit_vector);
    assert(w == 3 ==> (x >> start) & low_mask_u32(w) < 8) by (bit_vector);
    assert(w == 4 ==> (x >> start) & low_mask_u32(w) < 16) by (bit_vector);
    assert(w == 5 ==> (x >> start) & low_mask_u32(w) < 32) by (bit_vector);
    assert(w == 8 ==> (x >> start) & low_mask_u32(w) < 256) by (bit_vector);
}

/// Reads bits `start..end` of `opcode`.
fn field(opcode: u32, start: u32, end: u32) -> (r: u32)
    requires
        start < end <= 32,
    ensures
        r == opcode.spec_bits(start, end),
        end - start == 1 ==> r < 2,
        end - start == 2 ==> r < 4,
        end - start == 3 ==> r < 8,
        end - start == 4 ==> r < 16,
        end - start == 5 ==> r < 32,
        end - start == 8 ==> r < 256,
{
    proof {
        lemma_field_bound(opcode, start, end);
    }
    opcode.bits(start, end)
}

impl Cpu {
    /// Returns register `reg` as an operand of the instruction at `pc`.
    fn operand(&self, reg: u32, pc: u32) -> (r: u32)
        requires
            self.wf(),
            reg < 16,
            pc == self.spec_pc(),
        ensures
            r == spec_operand(self, reg),
    {
        if reg == PC {
            pc.wrapping_add(8)
        } else {
            self.reg(reg)
        }
    }

    /// Executes one ARM opcode, the word fetched at the program counter, and
    /// returns the cycles it took. An opcode whose condition fails only
    /// advances the program counter. Undefined opcodes and `SWI` enter their
    /// exception.
    pub fn execute_arm(&mut self, opcode: u32) -> (r: Result<u32, ExecError>)
        requires
            old(self).wf(),
            old(self).spec_cpsr().spec_state() == CpuState::Arm,
        ensures
            final(self).wf(),
            arm_step(old(self), final(self), opcode, r),
    {
        let pc = self.reg(PC);
        let cond = field(opcode, 28, 32);
        if !self.cpsr().satisfies_field(cond as u8) {
            self.set_reg(PC, pc.wrapping_add(4));
            return Ok(CYCLES_SEQUENTIAL);
        }
        if opcode & 0x0FFF_FFF0 == 0x012F_FF10 {
            self.execute_bx(opcode, pc);
            return Ok(CYCLES_REFILL);
        }
        let class = field(opcode, 25, 28);
        if class == 0b101 {
            self.execute_branch(opcode, pc);
            return Ok(CYCLES_REFILL);
        }
        if field(opcode, 24, 28) == 0xF {
            self.enter_exception_at(Exception::SoftwareInterrupt, pc.wrapping_add(4));
            return Ok(CYCLES_REFILL);
        }
        if class == 0b011 && opcode.bit(4) {
            self.enter_exception_at(Exception::UndefinedInstruction, pc.wrapping_add(4));
            return Ok(CYCLES_REFILL);
        }
        if field(opcode, 26, 28) == 0b01 && !(opcode.bit(25) && opcode.bit(4)) {
            return Err(ExecError::Transfer(self.transfer(opcode, pc)));
        }
        if opcode & 0x0FC0_00F0 == 0x0000_0090 {
            proof {
                lemma_multiply_class(opcode);
            }
            self.execute_multiply(opcode, pc);
            return Ok(CYCLES_MULTIPLY);
        }
        if opcode & 0x0FBF_0FFF == 0x010F_0000 {
            return self.execute_mrs(opcode, pc);
        }
        if opcode & 0x0DB0_F000 == 0x0120_F000 {
            return self.execute_msr(opcode, pc);
        }
        let op = field(opcode, 21, 25);
        let s = opcode.bit(20);
        let rd = field(opcode, 12, 16);
        if field(opcode, 26, 28) == 0 && (opcode.bit(25) || !opcode.bit(4)) && !(8 <= op && op
            <= 11) && s && rd == PC {
            return self.exception_return(opcode, pc);
        }
        if field(opcode, 26, 28) == 0 && (opcode.bit(25) || !opcode.bit(4)) && !(8 <= op && op
            <= 11 && !s) && !(s && rd == PC) {
            return Ok(self.execute_data_processing(opcode, pc));
        }
        Err(ExecError::Unsupported { opcode })
    }

    fn execute_bx(&mut self, opcode: u32, pc: u32)
        requires
            old(self).wf(),
            pc == old(self).spec_pc(),
        ensures
            final(self).wf(),
            bx_effect(old(self), final(self), opcode),
            Cpu::spsrs_same(old(self), final(self)),
    {
        let target = self.operand(field(opcode, 0, 4), pc);
        let thumb = target.bit(0);
        let state = if thumb {
            CpuState::Thumb
        } else {
            CpuState::Arm
        };
        let psr = self.cpsr().with_state(state);
        self.set_cpsr(psr);
        self.set_pc(target);
    }

    fn execute_branch(&mut self, opcode: u32, pc: u32)
        requires
            old(self).wf(),
            pc == old(self).spec_pc(),
            old(self).spec_cpsr().spec_state() == CpuState::Arm,
        ensures
            final(self).wf(),
            branch_effect(old(self), final(self), opcode),
            Cpu::spsrs_same(old(self), final(self)),
    {
        let imm = field(opcode, 0, 24);
        let offset: u32 = if imm.bit(23) {
            (imm | 0xFF00_0000u32) << 2u32
        } else {
            imm << 2u32
        };
        if opcode.bit(24) {
            self.set_reg(LR, pc.wrapping_add(4));
        }
        self.set_reg(PC, pc.wrapping_add(8).wrapping_add(offset));
    }

    /// Computes what the ALU produces for a data-processing opcode.
    fn dp_out(&self, opcode: u32, pc: u32) -> (out: AluOut)
        requires
            self.wf(),
            pc == self.spec_pc(),
        ensures
            out == spec_dp_out(self, opcode),
    {
        let psr = self.cpsr();
        let carry = psr.carry();
        let a = self.operand(field(opcode, 16, 20), pc);
        let op2: (u32, bool) = if opcode.bit(25) {
            rotated_immediate(field(opcode, 0, 8), field(opcode, 8, 12), carry)
        } else {
            let value = self.operand(field(opcode, 0, 4), pc);
            shift_immediate(field(opcode, 5, 7), field(opcode, 7, 12), value, carry)
        };
        alu(field(opcode, 21, 25), a, op2.0, carry, psr.overflow(), op2.1)
    }

    fn transfer(&self, opcode: u32, pc: u32) -> (t: Transfer)
        requires
            self.wf(),
            pc == self.spec_pc(),
        ensures
            t == spec_transfer(self, opcode),
    {
        let rn = field(opcode, 16, 20);
        let rd = field(opcode, 12, 16);
        let base = self.operand(rn, pc);
        let offset = if opcode.bit(25) {
            let value = self.operand(field(opcode, 0, 4), pc);
            shift_immediate(field(opcode, 5, 7), field(opcode, 7, 12), value, self.cpsr().carry()).0
        } else {
            field(opcode, 0, 12)
        };
        let moved = if opcode.bit(23) {
            base.wrapping_add(offset)
        } else {
            base.wrapping_sub(offset)
        };
        let pre_indexed = opcode.bit(24);
        Transfer {
            address: if pre_indexed {
                moved
            } else {
                base
            },
            load: opcode.bit(20),
            byte: opcode.bit(22),
            rd,
            rn,
            writeback: if !pre_indexed || opcode.bit(21) {
                Some(moved)
            } else {
                None
            },
            value: if rd == PC {
                pc.wrapping_add(12)
            } else {
                self.reg(rd)
            },
        }
    }

    /// Completes a single data transfer that `execute_arm` reported, after
    /// the caller performed its bus access. `loaded` is what a load read
    /// (the byte, or the word at the address with its low two bits cleared)
    /// and is ignored for a store. The base register takes its written-back
    /// value, then a load writes its register; the program counter advances
    /// unless a load wrote it, by 4 in ARM state and by 2 in THUMB state.
    /// Returns the cycles taken.
    pub fn complete_transfer(&mut self, t: Transfer, loaded: u32) -> (cycles: u32)
        requires
            old(self).wf(),
            t.rd < 16,
            t.rn < 16,
        ensures
            final(self).wf(),
            final(self).spec_cpsr() == old(self).spec_cpsr(),
            Cpu::spsrs_same(old(self), final(self)),
            ({
                let mode = old(self).spec_mode();
                let next = old(self).spec_pc().wrapping_add(
                    if old(self).spec_cpsr().spec_state() == CpuState::Arm { 4u32 } else { 2u32 },
                );
                let value = loaded_value(t, loaded);
                let wb = t.writeback is Some && t.rn != PC;
                let ld = t.load && t.rd != PC;
                let new_pc = if t.load && t.rd == PC { value & !3u32 } else { next };
                forall|r: u32, m: CpuMode|
                    r < 16 ==> #[trigger] final(self).spec_read(r, m) == if r == PC {
                        new_pc
                    } else if ld && reg_slot(r, m) == reg_slot(t.rd, mode) {
                        value
                    } else if wb && reg_slot(r, m) == reg_slot(t.rn, mode) {
                        t.writeback.unwrap()
                    } else {
                        old(self).spec_read(r, m)
                    }
            }),
            cycles == if t.load && t.rd == PC { 5u32 } else if t.load { 3u32 } else { 2u32 },
    {
        let pc = self.reg(PC);
        let value = if t.byte {
            loaded & 0xFFu32
        } else {
            let address: u32 = t.address;
            let low: u32 = address & 3u32;
            assert(address & 3u32 <= 3u32) by (bit_vector);
            ror(loaded, 8 * low)
        };
        match t.writeback {
            Some(b) => {
                if t.rn != PC {
                    self.set_reg(t.rn, b);
                }
            },
            None => {},
        }
        if t.load && t.rd == PC {
            self.set_reg(PC, value & !3u32);
            5
        } else {
            if t.load {
                self.set_reg(t.rd, value);
            }
            let width: u32 = match self.cpsr().state() {
                CpuState::Arm => 4,
                CpuState::Thumb => 2,
            };
            self.set_reg(PC, pc.wrapping_add(width));
            if t.load {
                3
            } else {
                2
            }
        }
    }

    fn execute_multiply(&mut self, opcode: u32, pc: u32)
        requires
            old(self).wf(),
            pc == old(self).spec_pc(),
        ensures
            final(self).wf(),
            multiply_effect(old(self), final(self), opcode),
            Cpu::spsrs_same(old(self), final(self)),
    {
        let psr = self.cpsr();
        let rd = field(opcode, 16, 20);
        let acc: u32 = if opcode.bit(21) {
            self.operand(field(opcode, 12, 16), pc)
        } else {
            0
        };
        let value = self.operand(field(opcode, 0, 4), pc).wrapping_mul(
            self.operand(field(opcode, 8, 12), pc),
        ).wrapping_add(acc);
        if opcode.bit(20) {
            self.set_cpsr(psr.with_sign_zero(value >> 31 == 1, value == 0));
        }
        if rd != PC {
            self.set_reg(rd, value);
        }
        self.set_reg(PC, pc.wrapping_add(4));
    }

    fn execute_mrs(&mut self, opcode: u32, pc: u32) -> (r: Result<u32, ExecError>)
        requires
            old(self).wf(),
            pc == old(self).spec_pc(),
        ensures
            final(self).wf(),
            mrs_effect(old(self), final(self), opcode, r),
    {
        let mode = self.current_mode();
        let value = if opcode.bit(22) {
            match self.read_spsr(mode) {
                Ok(spsr) => spsr.raw(),
                Err(e) => {
                    return Err(ExecError::NoSpsr(e));
                },
            }
        } else {
            self.cpsr().raw()
        };
        let rd = field(opcode, 12, 16);
        if rd != PC {
            self.set_reg(rd, value);
        }
        self.set_reg(PC, pc.wrapping_add(4));
        Ok(CYCLES_SEQUENTIAL)
    }

    fn msr_mask_of(&self, opcode: u32) -> (r: u32)
        requires
            self.wf(),
        ensures
            r == msr_mask(opcode, self.spec_mode()),
    {
        let m: u32 = (if opcode.bit(19) { 0xFF00_0000u32 } else { 0u32 }) | (if opcode.bit(18) {
            0x00FF_0000u32
        } else {
            0u32
        }) | (if opcode.bit(17) { 0x0000_FF00u32 } else { 0u32 }) | (if opcode.bit(16) {
            0x0000_00FFu32
        } else {
            0u32
        });
        if !opcode.bit(22) && self.current_mode() == CpuMode::User {
            m & 0xFF00_0000u32
        } else {
            m
        }
    }

    fn execute_msr(&mut self, opcode: u32, pc: u32) -> (r: Result<u32, ExecError>)
        requires
            old(self).wf(),
            pc == old(self).spec_pc(),
        ensures
            final(self).wf(),
            msr_effect(old(self), final(self), opcode, r),
    {
        let mode = self.current_mode();
        let mask = self.msr_mask_of(opcode);
        let value: u32 = if opcode.bit(25) {
            rotated_immediate(field(opcode, 0, 8), field(opcode, 8, 12), false).0
        } else {
            self.operand(field(opcode, 0, 4), pc)
        };
        if opcode.bit(22) {
            match self.read_spsr(mode) {
                Err(e) => Err(ExecError::NoSpsr(e)),
                Ok(spsr) => {
                    let new = (spsr.raw() & !mask) | (value & mask);
                    let _ = self.write_spsr(Psr::from_raw(new), mode);
                    self.set_reg(PC, pc.wrapping_add(4));
                    Ok(CYCLES_SEQUENTIAL)
                },
            }
        } else {
            let new = (self.cpsr().raw() & !mask) | (value & mask);
            let psr = Psr::from_raw(new);
            match psr.try_mode() {
                Err(e) => Err(ExecError::InvalidMode(e)),
                Ok(_) => {
                    self.set_cpsr(psr);
                    self.set_reg(PC, pc.wrapping_add(4));
                    Ok(CYCLES_SEQUENTIAL)
                },
            }
        }
    }

    fn exception_return(&mut self, opcode: u32, pc: u32) -> (r: Result<u32, ExecError>)
        requires
            old(self).wf(),
            pc == old(self).spec_pc(),
        ensures
            final(self).wf(),
            exception_return_effect(old(self), final(self), opcode, r),
    {
        let out = self.dp_out(opcode, pc);
        let mode = self.current_mode();
        match self.read_spsr(mode) {
            Err(e) => Err(ExecError::NoSpsr(e)),
            Ok(spsr) => match spsr.try_mode() {
                Err(e) => Err(ExecError::InvalidMode(e)),
                Ok(_) => {
                    self.set_cpsr(spsr);
                    self.set_pc(out.result);
                    Ok(CYCLES_REFILL)
                },
            },
        }
    }

    fn execute_data_processing(&mut self, opcode: u32, pc: u32) -> (cycles: u32)
        requires
            old(self).wf(),
            pc == old(self).spec_pc(),
        ensures
            final(self).wf(),
            dp_effect(old(self), final(self), opcode),
            Cpu::spsrs_same(old(self), final(self)),
            cycles == if spec_dp_out(old(self), opcode).writes && opcode.spec_bits(12, 16) == PC {
                CYCLES_REFILL
            } else {
                CYCLES_SEQUENTIAL
            },
    {
        let psr = self.cpsr();
        let out = self.dp_out(opcode, pc);
        if opcode.bit(20) {
            self.set_cpsr(psr.with_sign_zero(out.n, out.z).with_carry_overflow(out.c, out.v));
        }
        let rd = field(opcode, 12, 16);
        if out.writes && rd == PC {
            self.set_reg(PC, out.result & !3u32);
            CYCLES_REFILL
        } else {
            if out.writes {
                self.set_reg(rd, out.result);
            }
            self.set_reg(PC, pc.wrapping_add(4));
            CYCLES_SEQUENTIAL
        }
    }
}

} // verus!
