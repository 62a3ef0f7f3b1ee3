//! Program status register model.

use vstd::prelude::*;

use crate::bit::{low_mask_u32, BitIndex};
use crate::{cond_of_bits, mode_of_bits, state_of_bit, Cond, CpuMode, CpuState, InvalidCpuMode};

verus! {

/// Bit of the state field (`0` ARM, `1` THUMB).
pub const STATE_BIT: u32 = 5;
/// Bit that disables fast interrupt requests.
pub const FIQ_DISABLE_BIT: u32 = 6;
/// Bit that disables regular interrupt requests.
pub const IRQ_DISABLE_BIT: u32 = 7;
/// Overflow flag (V).
pub const OVERFLOW_BIT: u32 = 28;
/// Carry flag (C).
pub const CARRY_BIT: u32 = 29;
/// Zero flag (Z).
pub const ZERO_BIT: u32 = 30;
/// Sign flag (N).
pub const SIGN_BIT: u32 = 31;

/// A program status register (xPSR).
#[derive(Clone, Copy, Debug, PartialEq, Eq, Structural)]
pub struct Psr {
    raw: u32,
}

/// Every mode field that encodes a mode fits in five bits.
proof fn lemma_mode_field_fits(v: u32)
    requires
        v < 32,
    ensures
        v.fits_in(5),
{
    assert(v & !low_mask_u32(5) == 0u32) by (bit_vector)
        requires
            v < 32,
    ;
}

/// The five bits of a mode field are below `32`.
proof fn lemma_mode_field_small(x: u32)
    ensures
        x.spec_bits(0, 5) < 32,
{
    assert((x >> 0u32) & low_mask_u32(5) < 32) by (bit_vector);
}

/// Setting one bit at or above bit 5 keeps the mode field and every other
/// named bit.
proof fn lemma_set_bit_keeps(x: u32, i: u32, b: bool)
    requires
        5 <= i < 32,
    ensures
        x.spec_set_bit(i, b).spec_bits(0, 5) == x.spec_bits(0, 5),
        i != 5 ==> x.spec_set_bit(i, b).spec_bit(5) == x.spec_bit(5),
        i != 6 ==> x.spec_set_bit(i, b).spec_bit(6) == x.spec_bit(6),
        i != 7 ==> x.spec_set_bit(i, b).spec_bit(7) == x.spec_bit(7),
        i != 28 ==> x.spec_set_bit(i, b).spec_bit(28) == x.spec_bit(28),
        i != 29 ==> x.spec_set_bit(i, b).spec_bit(29) == x.spec_bit(29),
        i != 30 ==> x.spec_set_bit(i, b).spec_bit(30) == x.spec_bit(30),
        i != 31 ==> x.spec_set_bit(i, b).spec_bit(31) == x.spec_bit(31),
{
    let y = x.spec_set_bit(i, b);
    assert(y == if b { x | (1u32 << i) } else { x & !(1u32 << i) });
    assert((y >> 0u32) & low_mask_u32(5) == (x >> 0u32) & low_mask_u32(5)) by (bit_vector)
        requires
            5 <= i < 32,
            y == if b { x | (1u32 << i) } else { x & !(1u32 << i) },
    ;
    assert forall|j: u32| 5 <= j < 32 && j != i implies ((y >> j) & 1u32 == 1u32) == ((x >> j)
        & 1u32 == 1u32) by {
        assert(((y >> j) & 1u32 == 1u32) == ((x >> j) & 1u32 == 1u32)) by (bit_vector)
            requires
                5 <= i < 32,
                5 <= j < 32,
                j != i,
                y == if b { x | (1u32 << i) } else { x & !(1u32 << i) },
        ;
    }
}

/// Replacing the mode field keeps bits 5 and up.
proof fn lemma_set_mode_keeps(x: u32, v: u32)
    requires
        v < 32,
    ensures
        forall|j: u32|
            5 <= j < 32 ==> #[trigger] x.spec_set_bits(0, 5, v).spec_bit(j) == x.spec_bit(j),
{
    let y = x.spec_set_bits(0, 5, v);
    assert forall|j: u32| 5 <= j < 32 implies #[trigger] y.spec_bit(j) == x.spec_bit(j) by {
        assert(((((x & !(low_mask_u32(5) << 0u32)) | (v << 0u32)) >> j) & 1u32 == 1u32) == ((x
            >> j) & 1u32 == 1u32)) by (bit_vector)
            requires
                v < 32,
                5 <= j < 32,
        ;
    }
}

impl Psr {
    /// The raw 32-bit word.
    pub closed spec fn spec_raw(self) -> u32 {
        self.raw
    }

    /// `self` with the mode field replaced by the encoding of `mode`.
    pub closed spec fn with_mode_spec(self, mode: CpuMode) -> Psr {
        Psr { raw: self.raw.spec_set_bits(0, 5, mode.spec_bits() as u32) }
    }

    /// The 5-bit mode field (bits 4-0).
    pub open spec fn spec_mode_bits(self) -> u8 {
        self.spec_raw().spec_bits(0, 5) as u8
    }

    /// Whether the mode field encodes one of the seven modes.
    pub open spec fn has_valid_mode(self) -> bool {
        mode_of_bits(self.spec_mode_bits()) is Some
    }

    /// The mode that the mode field encodes; meaningful when it is valid.
    pub open spec fn spec_mode(self) -> CpuMode {
        mode_of_bits(self.spec_mode_bits()).unwrap()
    }

    pub open spec fn spec_state(self) -> CpuState {
        state_of_bit(self.spec_raw().spec_bit(STATE_BIT))
    }

    pub open spec fn spec_fiq_disabled(self) -> bool {
        self.spec_raw().spec_bit(FIQ_DISABLE_BIT)
    }

    pub open spec fn spec_irq_disabled(self) -> bool {
        self.spec_raw().spec_bit(IRQ_DISABLE_BIT)
    }

    pub open spec fn spec_overflow(self) -> bool {
        self.spec_raw().spec_bit(OVERFLOW_BIT)
    }

    pub open spec fn spec_carry(self) -> bool {
        self.spec_raw().spec_bit(CARRY_BIT)
    }

    pub open spec fn spec_zero(self) -> bool {
        self.spec_raw().spec_bit(ZERO_BIT)
    }

    pub open spec fn spec_sign(self) -> bool {
        self.spec_raw().spec_bit(SIGN_BIT)
    }

    /// Whether `cond` holds on this register's flags.
    pub open spec fn spec_satisfies(self, cond: Cond) -> bool {
        cond.spec_holds(self.spec_sign(), self.spec_zero(), self.spec_carry(), self.spec_overflow())
    }

    /// The status register with raw word `raw`.
    pub closed spec fn from_raw_spec(raw: u32) -> Psr {
        Psr { raw }
    }

    /// Creates a status register from its raw word.
    pub fn from_raw(raw: u32) -> (r: Psr)
        ensures
            r.spec_raw() == raw,
            r == Psr::from_raw_spec(raw),
    {
        Psr { raw }
    }

    /// Returns the raw word.
    pub fn raw(self) -> (r: u32)
        ensures
            r == self.spec_raw(),
    {
        self.raw
    }

    /// Decodes the mode field (bits 4-0); fails on a pattern that names no mode.
    pub fn try_mode(self) -> (r: Result<CpuMode, InvalidCpuMode>)
        ensures
            r is Ok <==> self.has_valid_mode(),
            r matches Ok(m) ==> m == self.spec_mode(),
            r matches Err(e) ==> e.bits == self.spec_mode_bits(),
            self.spec_mode_bits() < 32,
    {
        proof {
            lemma_mode_field_small(self.raw);
        }
        CpuMode::from_bits(self.raw.bits(0, 5) as u8)
    }

    /// Returns the current operating mode (bits 4-0).
    ///
    /// The mode field must encode a mode: any other pattern is a broken
    /// invariant of the emulated machine, which `try_mode` reports.
    pub fn mode(self) -> (r: CpuMode)
        requires
            self.has_valid_mode(),
        ensures
            r == self.spec_mode(),
            mode_of_bits(self.spec_mode_bits()) == Some(r),
    {
        match self.try_mode() {
            Ok(mode) => mode,
            Err(_) => {
                proof {
                    assert(false);
                }
                CpuMode::User
            },
        }
    }

    /// Returns the instruction-set state (bit 5).
    pub fn state(self) -> (r: CpuState)
        ensures
            r == self.spec_state(),
    {
        CpuState::from(self.raw.bit(STATE_BIT))
    }

    /// Checks if fast interrupt requests are disabled.
    pub fn fiq_disabled(self) -> (r: bool)
        ensures
            r == self.spec_fiq_disabled(),
    {
        self.raw.bit(FIQ_DISABLE_BIT)
    }

    /// Checks if regular interrupt requests are disabled.
    pub fn irq_disabled(self) -> (r: bool)
        ensures
            r == self.spec_irq_disabled(),
    {
        self.raw.bit(IRQ_DISABLE_BIT)
    }

    /// Checks the overflow flag (V).
    pub fn overflow(self) -> (r: bool)
        ensures
            r == self.spec_overflow(),
    {
        self.raw.bit(OVERFLOW_BIT)
    }

    /// Checks the carry flag (C).
    pub fn carry(self) -> (r: bool)
        ensures
            r == self.spec_carry(),
    {
        self.raw.bit(CARRY_BIT)
    }

    /// Checks the zero flag (Z).
    pub fn zero(self) -> (r: bool)
        ensures
            r == self.spec_zero(),
    {
        self.raw.bit(ZERO_BIT)
    }

    /// Checks the sign flag (N).
    pub fn sign(self) -> (r: bool)
        ensures
            r == self.spec_sign(),
    {
        self.raw.bit(SIGN_BIT)
    }

    /// Evaluates `cond` on this register's flags.
    pub fn satisfies(self, cond: Cond) -> (r: bool)
        ensures
            r == self.spec_satisfies(cond),
    {
        cond.holds(self.sign(), self.zero(), self.carry(), self.overflow())
    }

    /// Evaluates the 4-bit condition field `bits` on this register's flags.
    pub fn satisfies_field(self, bits: u8) -> (r: bool)
        requires
            bits < 16,
        ensures
            r == self.spec_satisfies(cond_of_bits(bits).unwrap()),
    {
        match Cond::from_bits(bits) {
            Some(cond) => self.satisfies(cond),
            None => false,
        }
    }

    /// Returns a copy with the mode field set to `mode`.
    pub fn with_mode(self, mode: CpuMode) -> (r: Psr)
        ensures
            r.spec_raw() == self.spec_raw().spec_set_bits(0, 5, mode.spec_bits() as u32),
            r == self.with_mode_spec(mode),
            r.spec_mode_bits() == mode.spec_bits(),
            r.has_valid_mode(),
            r.spec_mode() == mode,
            r.spec_state() == self.spec_state(),
            r.spec_fiq_disabled() == self.spec_fiq_disabled(),
            r.spec_irq_disabled() == self.spec_irq_disabled(),
            r.spec_overflow() == self.spec_overflow(),
            r.spec_carry() == self.spec_carry(),
            r.spec_zero() == self.spec_zero(),
            r.spec_sign() == self.spec_sign(),
    {
        let v: u32 = mode.bits() as u32;
        proof {
            lemma_mode_field_fits(v);
            lemma_set_mode_keeps(self.raw, v);
        }
        Psr { raw: self.raw.set_bits(0, 5, v) }
    }

    /// Returns a copy with the state bit set for `state`.
    pub fn with_state(self, state: CpuState) -> (r: Psr)
        ensures
            r.spec_raw() == self.spec_raw().spec_set_bit(STATE_BIT, state == CpuState::Thumb),
            r.spec_state() == state,
            r.spec_mode_bits() == self.spec_mode_bits(),
            r.spec_fiq_disabled() == self.spec_fiq_disabled(),
            r.spec_irq_disabled() == self.spec_irq_disabled(),
            r.spec_overflow() == self.spec_overflow(),
            r.spec_carry() == self.spec_carry(),
            r.spec_zero() == self.spec_zero(),
            r.spec_sign() == self.spec_sign(),
    {
        let bit: bool = match state {
            CpuState::Arm => false,
            CpuState::Thumb => true,
        };
        proof {
            lemma_set_bit_keeps(self.raw, STATE_BIT, state == CpuState::Thumb);
        }
        Psr { raw: self.raw.set_bit(STATE_BIT, bit) }
    }

    /// Returns a copy with the FIQ-disable bit set to `disabled`.
    pub fn with_fiq_disabled(self, disabled: bool) -> (r: Psr)
        ensures
            r.spec_raw() == self.spec_raw().spec_set_bit(FIQ_DISABLE_BIT, disabled),
            r.spec_fiq_disabled() == disabled,
            r.spec_mode_bits() == self.spec_mode_bits(),
            r.spec_state() == self.spec_state(),
            r.spec_irq_disabled() == self.spec_irq_disabled(),
            r.spec_overflow() == self.spec_overflow(),
            r.spec_carry() == self.spec_carry(),
            r.spec_zero() == self.spec_zero(),
            r.spec_sign() == self.spec_sign(),
    {
        proof {
            lemma_set_bit_keeps(self.raw, FIQ_DISABLE_BIT, disabled);
        }
        Psr { raw: self.raw.set_bit(FIQ_DISABLE_BIT, disabled) }
    }

    /// Returns a copy with the IRQ-disable bit set to `disabled`.
    pub fn with_irq_disabled(self, disabled: bool) -> (r: Psr)
        ensures
            r.spec_raw() == self.spec_raw().spec_set_bit(IRQ_DISABLE_BIT, disabled),
            r.spec_irq_disabled() == disabled,
            r.spec_mode_bits() == self.spec_mode_bits(),
            r.spec_state() == self.spec_state(),
            r.spec_fiq_disabled() == self.spec_fiq_disabled(),
            r.spec_overflow() == self.spec_overflow(),
            r.spec_carry() == self.spec_carry(),
            r.spec_zero() == self.spec_zero(),
            r.spec_sign() == self.spec_sign(),
    {
        proof {
            lemma_set_bit_keeps(self.raw, IRQ_DISABLE_BIT, disabled);
        }
        Psr { raw: self.raw.set_bit(IRQ_DISABLE_BIT, disabled) }
    }

    /// Returns a copy with the sign and zero flags replaced.
    pub fn with_sign_zero(self, n: bool, z: bool) -> (r: Psr)
        ensures
            r.spec_raw() == self.spec_raw().spec_set_bit(SIGN_BIT, n).spec_set_bit(ZERO_BIT, z),
            r.spec_sign() == n,
            r.spec_zero() == z,
            r.spec_mode_bits() == self.spec_mode_bits(),
            r.spec_state() == self.spec_state(),
            r.spec_fiq_disabled() == self.spec_fiq_disabled(),
            r.spec_irq_disabled() == self.spec_irq_disabled(),
            r.spec_overflow() == self.spec_overflow(),
            r.spec_carry() == self.spec_carry(),
    {
        proof {
            lemma_set_bit_keeps(self.raw, SIGN_BIT, n);
            lemma_set_bit_keeps(self.raw.spec_set_bit(SIGN_BIT, n), ZERO_BIT, z);
        }
        Psr { raw: self.raw.set_bit(SIGN_BIT, n).set_bit(ZERO_BIT, z) }
    }

    /// Returns a copy with the carry and overflow flags replaced.
    pub fn with_carry_overflow(self, c: bool, v: bool) -> (r: Psr)
        ensures
            r.spec_raw() == self.spec_raw().spec_set_bit(CARRY_BIT, c).spec_set_bit(OVERFLOW_BIT, v),
            r.spec_carry() == c,
            r.spec_overflow() == v,
            r.spec_mode_bits() == self.spec_mode_bits(),
            r.spec_state() == self.spec_state(),
            r.spec_fiq_disabled() == self.spec_fiq_disabled(),
            r.spec_irq_disabled() == self.spec_irq_disabled(),
            r.spec_zero() == self.spec_zero(),
            r.spec_sign() == self.spec_sign(),
    {
        proof {
            lemma_set_bit_keeps(self.raw, CARRY_BIT, c);
            lemma_set_bit_keeps(self.raw.spec_set_bit(CARRY_BIT, c), OVERFLOW_BIT, v);
        }
        Psr { raw: self.raw.set_bit(CARRY_BIT, c).set_bit(OVERFLOW_BIT, v) }
    }
}

/// The raw word `0x13` decodes to Supervisor mode, ARM state, both interrupt
/// kinds enabled and every flag clear; `0xD3` is the same with both interrupt
/// kinds disabled.
pub proof fn lemma_reset_cpsr(p: Psr)
    requires
        p.spec_raw() == 0x13 || p.spec_raw() == 0xD3,
    ensures
        p.has_valid_mode(),
        p.spec_mode() == CpuMode::Supervisor,
        p.spec_state() == CpuState::Arm,
        p.spec_fiq_disabled() == (p.spec_raw() == 0xD3),
        p.spec_irq_disabled() == (p.spec_raw() == 0xD3),
        !p.spec_overflow(),
        !p.spec_carry(),
        !p.spec_zero(),
        !p.spec_sign(),
{
    let x = p.spec_raw();
    assert((x >> 0u32) & low_mask_u32(5) == 0x13u32) by (bit_vector)
        requires
            x == 0x13u32 || x == 0xD3u32,
    ;
    assert(((x >> 5u32) & 1u32 == 1u32) == false && ((x >> 6u32) & 1u32 == 1u32) == (x == 0xD3u32)
        && ((x >> 7u32) & 1u32 == 1u32) == (x == 0xD3u32) && ((x >> 28u32) & 1u32 == 1u32) == false
        && ((x >> 29u32) & 1u32 == 1u32) == false && ((x >> 30u32) & 1u32 == 1u32) == false && ((x
        >> 31u32) & 1u32 == 1u32) == false) by (bit_vector)
        requires
            x == 0x13u32 || x == 0xD3u32,
    ;
}

/// Decoding the mode of a status register succeeds exactly when its 5-bit
/// mode field is one of the seven mode patterns.
pub proof fn lemma_psr_mode_valid(p: Psr)
    ensures
        p.spec_mode_bits() < 32,
        p.has_valid_mode() <==> (p.spec_mode_bits() == 0b10000 || p.spec_mode_bits() == 0b10001
            || p.spec_mode_bits() == 0b10010 || p.spec_mode_bits() == 0b10011 || p.spec_mode_bits()
            == 0b10111 || p.spec_mode_bits() == 0b11011 || p.spec_mode_bits() == 0b11111),
{
    lemma_mode_field_small(p.spec_raw());
}

impl Default for Psr {
    /// The all-zero register.
    fn default() -> (r: Psr)
        ensures
            r.spec_raw() == 0,
    {
        Psr { raw: 0 }
    }
}

} // verus!
