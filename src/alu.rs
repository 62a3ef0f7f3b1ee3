//! The barrel shifter and the arithmetic-logic unit of data-processing
//! instructions.

use vstd::prelude::*;

verus! {

/// Result of an ALU operation: the value and the four flags it produces.
#[derive(Clone, Copy, Debug, PartialEq, Eq, Structural)]
pub struct AluOut {
    /// The computed value.
    pub result: u32,
    /// Sign flag (N).
    pub n: bool,
    /// Zero flag (Z).
    pub z: bool,
    /// Carry flag (C).
    pub c: bool,
    /// Overflow flag (V).
    pub v: bool,
    /// Whether the value is written to the destination register (false for
    /// TST, TEQ, CMP and CMN).
    pub writes: bool,
}

/// `x` rotated right by `n` places.
pub open spec fn spec_ror(x: u32, n: u32) -> u32 {
    if n % 32 == 0 { x } else { (x >> (n % 32)) | (x << ((32 - n % 32) as u32)) }
}

/// Rotates `x` right by `n` places.
pub fn ror(x: u32, n: u32) -> (r: u32)
    ensures
        r == spec_ror(x, n),
{
    let k: u32 = n % 32;
    if k == 0 {
        x
    } else {
        (x >> k) | (x << (32 - k))
    }
}

/// Whether bit 31 of `x` is set.
pub open spec fn top(x: u32) -> bool {
    x >> 31u32 == 1u32
}

/// Whether bit `i` of `x` is set.
pub open spec fn bit_at(x: u32, i: u32) -> bool {
    (x >> i) & 1u32 == 1u32
}

/// The operand and shifter carry of an 8-bit immediate `imm` rotated right
/// by twice `rot`.
pub open spec fn spec_rotated_immediate(imm: u32, rot: u32, carry_in: bool) -> (u32, bool) {
    let value = spec_ror(imm, (2 * rot) as u32);
    if rot == 0 { (value, carry_in) } else { (value, top(value)) }
}

/// Computes the operand and shifter carry of a rotated immediate.
pub fn rotated_immediate(imm: u32, rot: u32, carry_in: bool) -> (r: (u32, bool))
    requires
        rot < 16,
    ensures
        r == spec_rotated_immediate(imm, rot, carry_in),
{
    let value = ror(imm, 2 * rot);
    if rot == 0 {
        (value, carry_in)
    } else {
        (value, value >> 31 == 1)
    }
}

/// The operand and shifter carry of `value` shifted by the immediate amount
/// `amount` (0-31) with shift type `kind` (0 LSL, 1 LSR, 2 ASR, 3 ROR). An
/// amount of 0 means LSR #32, ASR #32 and RRX for the last three.
pub open spec fn spec_shift_immediate(kind: u32, amount: u32, value: u32, carry_in: bool) -> (
    u32,
    bool,
) {
    if kind == 0 {
        if amount == 0 {
            (value, carry_in)
        } else {
            (value << amount, bit_at(value, (32 - amount) as u32))
        }
    } else if kind == 1 {
        if amount == 0 {
            (0, top(value))
        } else {
            (value >> amount, bit_at(value, (amount - 1) as u32))
        }
    } else if kind == 2 {
        if amount == 0 {
            (if top(value) { 0xffff_ffffu32 } else { 0u32 }, top(value))
        } else {
            ((value >> amount) | (if top(value) { !(0xffff_ffffu32 >> amount) } else { 0u32 }), bit_at(
                value,
                (amount - 1) as u32,
            ))
        }
    } else {
        if amount == 0 {
            ((if carry_in { 0x8000_0000u32 } else { 0u32 }) | (value >> 1u32), bit_at(value, 0))
        } else {
            (spec_ror(value, amount), bit_at(value, (amount - 1) as u32))
        }
    }
}

/// Shifts `value` by an immediate amount through the barrel shifter.
pub fn shift_immediate(kind: u32, amount: u32, value: u32, carry_in: bool) -> (r: (u32, bool))
    requires
        kind < 4,
        amount < 32,
    ensures
        r == spec_shift_immediate(kind, amount, value, carry_in),
{
    if kind == 0 {
        if amount == 0 {
            (value, carry_in)
        } else {
            (value << amount, (value >> (32 - amount)) & 1 == 1)
        }
    } else if kind == 1 {
        if amount == 0 {
            (0, value >> 31 == 1)
        } else {
            (value >> amount, (value >> (amount - 1)) & 1 == 1)
        }
    } else if kind == 2 {
        if amount == 0 {
            (if value >> 31 == 1 { 0xffff_ffff } else { 0 }, value >> 31 == 1)
        } else {
            (
                (value >> amount) | (if value >> 31 == 1 { !(0xffff_ffffu32 >> amount) } else { 0u32 }),
                (value >> (amount - 1)) & 1 == 1,
            )
        }
    } else {
        if amount == 0 {
            assert((value >> 0u32) & 1u32 == value & 1u32) by (bit_vector);
            ((if carry_in { 0x8000_0000u32 } else { 0u32 }) | (value >> 1), value & 1 == 1)
        } else {
            (ror(value, amount), (value >> (amount - 1)) & 1 == 1)
        }
    }
}

/// Whether the sum `r` of `a` and `b` (and a carry) overflows as a signed
/// sum: `r` has a sign that neither operand has.
pub open spec fn add_overflows(a: u32, b: u32, r: u32) -> bool {
    top((a ^ r) & (b ^ r))
}

/// Whether the difference `r` of `a` and `b` (and a borrow) overflows as a
/// signed difference: the operands differ in sign and `r` has the sign of `b`.
pub open spec fn sub_overflows(a: u32, b: u32, r: u32) -> bool {
    top((a ^ b) & (a ^ r))
}

/// The sum `a + b + carry` with its carry-out and overflow.
pub open spec fn spec_add(a: u32, b: u32, carry: bool) -> (u32, bool, bool) {
    let sum = a as int + b as int + if carry { 1int } else { 0int };
    let r = (sum % 0x1_0000_0000) as u32;
    (r, sum > u32::MAX, add_overflows(a, b, r))
}

/// The difference `a - b - !carry` with its carry-out (no borrow) and
/// overflow.
pub open spec fn spec_sub(a: u32, b: u32, carry: bool) -> (u32, bool, bool) {
    let diff = a as int - b as int - if carry { 0int } else { 1int };
    let r = if diff < 0 { (diff + 0x1_0000_0000) as u32 } else { diff as u32 };
    (r, diff >= 0, sub_overflows(a, b, r))
}

/// Adds with carry-in, returning the sum, the carry-out and the overflow.
pub fn add_with_carry(a: u32, b: u32, carry: bool) -> (r: (u32, bool, bool))
    ensures
        r == spec_add(a, b, carry),
{
    let wide: u64 = a as u64 + b as u64 + if carry { 1u64 } else { 0u64 };
    let res: u32 = (wide % 0x1_0000_0000u64) as u32;
    (res, wide > u32::MAX as u64, ((a ^ res) & (b ^ res)) >> 31 == 1)
}

/// Subtracts with carry-in (an absent carry is a borrow), returning the
/// difference, the carry-out and the overflow.
pub fn sub_with_carry(a: u32, b: u32, carry: bool) -> (r: (u32, bool, bool))
    ensures
        r == spec_sub(a, b, carry),
{
    let borrow: u64 = if carry { 0 } else { 1 };
    let res: u32;
    let no_borrow: bool;
    if (a as u64) >= (b as u64) + borrow {
        res = ((a as u64) - (b as u64) - borrow) as u32;
        no_borrow = true;
    } else {
        res = ((a as u64) + 0x1_0000_0000u64 - (b as u64) - borrow) as u32;
        no_borrow = false;
    }
    (res, no_borrow, ((a ^ b) & (a ^ res)) >> 31 == 1)
}

/// The logical result `r` with flags: N and Z from `r`, C from the shifter,
/// V kept.
pub open spec fn logical(r: u32, shifter_carry: bool, v: bool, writes: bool) -> AluOut {
    AluOut { result: r, n: top(r), z: r == 0, c: shifter_carry, v, writes }
}

/// The arithmetic result `t` (value, carry, overflow) with flags.
pub open spec fn arith(t: (u32, bool, bool), writes: bool) -> AluOut {
    AluOut { result: t.0, n: top(t.0), z: t.0 == 0, c: t.1, v: t.2, writes }
}

/// The outcome of data-processing operation `op` (0-15: AND, EOR, SUB, RSB,
/// ADD, ADC, SBC, RSC, TST, TEQ, CMP, CMN, ORR, MOV, BIC, MVN) on the first
/// operand `a` and the shifted operand `b`, with the current carry `c` and
/// overflow `v` and the shifter's carry `sc`.
pub open spec fn spec_alu(op: u32, a: u32, b: u32, c: bool, v: bool, sc: bool) -> AluOut {
    if op == 0 {
        logical(a & b, sc, v, true)
    } else if op == 1 {
        logical(a ^ b, sc, v, true)
    } else if op == 2 {
        arith(spec_sub(a, b, true), true)
    } else if op == 3 {
        arith(spec_sub(b, a, true), true)
    } else if op == 4 {
        arith(spec_add(a, b, false), true)
    } else if op == 5 {
        arith(spec_add(a, b, c), true)
    } else if op == 6 {
        arith(spec_sub(a, b, c), true)
    } else if op == 7 {
        arith(spec_sub(b, a, c), true)
    } else if op == 8 {
        logical(a & b, sc, v, false)
    } else if op == 9 {
        logical(a ^ b, sc, v, false)
    } else if op == 10 {
        arith(spec_sub(a, b, true), false)
    } else if op == 11 {
        arith(spec_add(a, b, false), false)
    } else if op == 12 {
        logical(a | b, sc, v, true)
    } else if op == 13 {
        logical(b, sc, v, true)
    } else if op == 14 {
        logical(a & !b, sc, v, true)
    } else {
        logical(!b, sc, v, true)
    }
}

fn logical_out(r: u32, shifter_carry: bool, v: bool, writes: bool) -> (out: AluOut)
    ensures
        out == logical(r, shifter_carry, v, writes),
{
    AluOut { result: r, n: r >> 31 == 1, z: r == 0, c: shifter_carry, v, writes }
}

fn arith_out(t: (u32, bool, bool), writes: bool) -> (out: AluOut)
    ensures
        out == arith(t, writes),
{
    AluOut { result: t.0, n: t.0 >> 31 == 1, z: t.0 == 0, c: t.1, v: t.2, writes }
}

/// Runs data-processing operation `op` through the ALU.
pub fn alu(op: u32, a: u32, b: u32, c: bool, v: bool, sc: bool) -> (r: AluOut)
    requires
        op < 16,
    ensures
        r == spec_alu(op, a, b, c, v, sc),
{
    if op == 0 {
        logical_out(a & b, sc, v, true)
    } else if op == 1 {
        logical_out(a ^ b, sc, v, true)
    } else if op == 2 {
        arith_out(sub_with_carry(a, b, true), true)
    } else if op == 3 {
        arith_out(sub_with_carry(b, a, true), true)
    } else if op == 4 {
        arith_out(add_with_carry(a, b, false), true)
    } else if op == 5 {
        arith_out(add_with_carry(a, b, c), true)
    } else if op == 6 {
        arith_out(sub_with_carry(a, b, c), true)
    } else if op == 7 {
        arith_out(sub_with_carry(b, a, c), true)
    } else if op == 8 {
        logical_out(a & b, sc, v, false)
    } else if op == 9 {
        logical_out(a ^ b, sc, v, false)
    } else if op == 10 {
        arith_out(sub_with_carry(a, b, true), false)
    } else if op == 11 {
        arith_out(add_with_carry(a, b, false), false)
    } else if op == 12 {
        logical_out(a | b, sc, v, true)
    } else if op == 13 {
        logical_out(b, sc, v, true)
    } else if op == 14 {
        logical_out(a & !b, sc, v, true)
    } else {
        logical_out(!b, sc, v, true)
    }
}

} // verus!
