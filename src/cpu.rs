//! Register file with mode banking, exception entry and instruction execution.
//!
//! All 31 general-purpose register words live in one store: the 16 registers
//! seen in User and System mode, then R8-R14 of FIQ mode, then R13-R14 of IRQ,
//! Supervisor, Abort and Undefined mode. Which word a register name reaches
//! depends on the mode, so switching modes moves no data.

use vstd::prelude::*;

use crate::psr::Psr;
use crate::{CpuMode, CpuState};

verus! {

/// Number of register words in the store.
pub const NUM_SLOTS: usize = 31;
/// Number of saved status registers (FIQ, IRQ, Supervisor, Abort, Undefined).
pub const NUM_SPSRS: usize = 5;
/// The program counter.
pub const PC: u32 = 15;
/// The link register.
pub const LR: u32 = 14;
/// Status register after reset: Supervisor mode, ARM state, IRQ and FIQ
/// disabled, flags clear.
pub const RESET_CPSR: u32 = 0xD3;

/// The word of the store that register `reg` names in `mode`.
pub open spec fn reg_slot(reg: u32, mode: CpuMode) -> int {
    if reg < 8 || reg == 15 {
        reg as int
    } else if reg < 13 {
        if mode == CpuMode::Fiq { 16 + (reg - 8) } else { reg as int }
    } else {
        match mode {
            CpuMode::User | CpuMode::System => reg as int,
            CpuMode::Fiq => 16 + (reg - 8),
            CpuMode::Irq => 23 + (reg - 13),
            CpuMode::Supervisor => 25 + (reg - 13),
            CpuMode::Abort => 27 + (reg - 13),
            CpuMode::Undefined => 29 + (reg - 13),
        }
    }
}

/// The saved status register of `mode`, which must have one.
pub open spec fn spsr_slot(mode: CpuMode) -> int {
    match mode {
        CpuMode::Fiq => 0,
        CpuMode::Irq => 1,
        CpuMode::Supervisor => 2,
        CpuMode::Abort => 3,
        _ => 4,
    }
}

/// Returns the word of the store that register `reg` names in `mode`.
fn slot(reg: u32, mode: CpuMode) -> (r: usize)
    requires
        reg < 16,
    ensures
        r == reg_slot(reg, mode),
        r < NUM_SLOTS,
{
    if reg < 8 || reg == 15 {
        reg as usize
    } else if reg < 13 {
        match mode {
            CpuMode::Fiq => (16 + (reg - 8)) as usize,
            _ => reg as usize,
        }
    } else {
        match mode {
            CpuMode::User | CpuMode::System => reg as usize,
            CpuMode::Fiq => (16 + (reg - 8)) as usize,
            CpuMode::Irq => (23 + (reg - 13)) as usize,
            CpuMode::Supervisor => (25 + (reg - 13)) as usize,
            CpuMode::Abort => (27 + (reg - 13)) as usize,
            CpuMode::Undefined => (29 + (reg - 13)) as usize,
        }
    }
}

/// Returns the saved status register index of `mode`.
fn spsr_index(mode: CpuMode) -> (r: usize)
    requires
        mode.spec_has_spsr(),
    ensures
        r == spsr_slot(mode),
        r < NUM_SPSRS,
{
    match mode {
        CpuMode::Fiq => 0,
        CpuMode::Irq => 1,
        CpuMode::Supervisor => 2,
        CpuMode::Abort => 3,
        _ => 4,
    }
}

/// Two modes with a saved status register share it only if they are equal.
proof fn lemma_spsr_slot_injective(a: CpuMode, b: CpuMode)
    requires
        a.spec_has_spsr(),
        b.spec_has_spsr(),
    ensures
        spsr_slot(a) == spsr_slot(b) <==> a == b,
{
}

/// Access to the saved status register of a mode that has none (User or
/// System): a misuse of the register file, reported rather than tolerated.
#[derive(Clone, Copy, Debug, PartialEq, Eq, Structural)]
pub struct NoSpsr {
    /// The mode in which the access was made.
    pub mode: CpuMode,
}

/// Kinds of exception, each with a vector, a target mode and a link offset.
#[derive(Clone, Copy, Debug, PartialEq, Eq, Structural)]
pub enum Exception {
    Reset,
    UndefinedInstruction,
    SoftwareInterrupt,
    PrefetchAbort,
    DataAbort,
    Irq,
    Fiq,
}

impl Exception {
    /// The fixed address that the program counter jumps to.
    pub open spec fn spec_vector(self) -> u32 {
        match self {
            Exception::Reset => 0x00,
            Exception::UndefinedInstruction => 0x04,
            Exception::SoftwareInterrupt => 0x08,
            Exception::PrefetchAbort => 0x0C,
            Exception::DataAbort => 0x10,
            Exception::Irq => 0x18,
            Exception::Fiq => 0x1C,
        }
    }

    /// The mode that the exception is taken in.
    pub open spec fn spec_mode(self) -> CpuMode {
        match self {
            Exception::Reset | Exception::SoftwareInterrupt => CpuMode::Supervisor,
            Exception::UndefinedInstruction => CpuMode::Undefined,
            Exception::PrefetchAbort | Exception::DataAbort => CpuMode::Abort,
            Exception::Irq => CpuMode::Irq,
            Exception::Fiq => CpuMode::Fiq,
        }
    }

    /// What is added to the address of the next instruction to give the
    /// link register of the target mode.
    pub open spec fn spec_return_offset(self) -> u32 {
        match self {
            Exception::Irq | Exception::Fiq | Exception::DataAbort => 4,
            _ => 0,
        }
    }

    /// Whether entry also disables fast interrupts.
    pub open spec fn spec_disables_fiq(self) -> bool {
        self == Exception::Reset || self == Exception::Fiq
    }

    /// Returns the vector address.
    pub fn vector(self) -> (r: u32)
        ensures
            r == self.spec_vector(),
    {
        match self {
            Exception::Reset => 0x00,
            Exception::UndefinedInstruction => 0x04,
            Exception::SoftwareInterrupt => 0x08,
            Exception::PrefetchAbort => 0x0C,
            Exception::DataAbort => 0x10,
            Exception::Irq => 0x18,
            Exception::Fiq => 0x1C,
        }
    }

    /// Returns the target mode.
    pub fn mode(self) -> (r: CpuMode)
        ensures
            r == self.spec_mode(),
            r.spec_has_spsr(),
    {
        match self {
            Exception::Reset | Exception::SoftwareInterrupt => CpuMode::Supervisor,
            Exception::UndefinedInstruction => CpuMode::Undefined,
            Exception::PrefetchAbort | Exception::DataAbort => CpuMode::Abort,
            Exception::Irq => CpuMode::Irq,
            Exception::Fiq => CpuMode::Fiq,
        }
    }

    /// Returns the link offset.
    pub fn return_offset(self) -> (r: u32)
        ensures
            r == self.spec_return_offset(),
    {
        match self {
            Exception::Irq | Exception::Fiq | Exception::DataAbort => 4,
            _ => 0,
        }
    }

    /// Returns whether entry disables fast interrupts.
    pub fn disables_fiq(self) -> (r: bool)
        ensures
            r == self.spec_disables_fiq(),
    {
        match self {
            Exception::Reset | Exception::Fiq => true,
            _ => false,
        }
    }
}

/// The ARM7TDMI register state: banked registers, CPSR and the SPSRs.
#[derive(Clone, Debug)]
pub struct Cpu {
    regs: Vec<u32>,
    spsrs: Vec<Psr>,
    cpsr: Psr,
}

impl Cpu {
    /// The register state is well formed: every word is there and the
    /// current mode field is valid.
    pub closed spec fn wf(&self) -> bool {
        &&& self.regs@.len() == NUM_SLOTS
        &&& self.spsrs@.len() == NUM_SPSRS
        &&& self.cpsr.has_valid_mode()
    }

    /// Register `reg` as seen in `mode`.
    pub closed spec fn spec_read(&self, reg: u32, mode: CpuMode) -> u32 {
        self.regs@[reg_slot(reg, mode)]
    }

    /// The current status register.
    pub closed spec fn spec_cpsr(&self) -> Psr {
        self.cpsr
    }

    /// The saved status register of `mode`.
    pub closed spec fn spec_spsr(&self, mode: CpuMode) -> Psr {
        self.spsrs@[spsr_slot(mode)]
    }

    /// The current mode.
    pub open spec fn spec_mode(&self) -> CpuMode {
        self.spec_cpsr().spec_mode()
    }

    /// Register `reg` as seen in the current mode.
    pub open spec fn spec_reg(&self, reg: u32) -> u32 {
        self.spec_read(reg, self.spec_mode())
    }

    /// The program counter.
    pub open spec fn spec_pc(&self) -> u32 {
        self.spec_read(PC, self.spec_mode())
    }

    /// `post` holds the registers of `pre`, but for the word that `reg`
    /// names in `mode`, which holds `value`.
    pub open spec fn regs_updated(pre: &Cpu, post: &Cpu, reg: u32, mode: CpuMode, value: u32) -> bool {
        forall|r: u32, m: CpuMode|
            r < 16 ==> #[trigger] post.spec_read(r, m) == if reg_slot(r, m) == reg_slot(reg, mode) {
                value
            } else {
                pre.spec_read(r, m)
            }
    }

    /// `post` holds the registers of `pre`, but for the program counter,
    /// which holds `new_pc`, and, where `write_rd`, the word that `rd` names
    /// in `mode`, which holds `value`.
    pub open spec fn regs_after(
        pre: &Cpu,
        post: &Cpu,
        mode: CpuMode,
        rd: u32,
        value: u32,
        write_rd: bool,
        new_pc: u32,
    ) -> bool {
        forall|r: u32, m: CpuMode|
            r < 16 ==> #[trigger] post.spec_read(r, m) == if r == PC {
                new_pc
            } else if write_rd && reg_slot(r, m) == reg_slot(rd, mode) {
                value
            } else {
                pre.spec_read(r, m)
            }
    }

    /// `post` holds the same registers as `pre`.
    pub open spec fn regs_same(pre: &Cpu, post: &Cpu) -> bool {
        forall|r: u32, m: CpuMode| r < 16 ==> #[trigger] post.spec_read(r, m) == pre.spec_read(r, m)
    }

    /// `post` holds the same saved status registers as `pre`.
    pub open spec fn spsrs_same(pre: &Cpu, post: &Cpu) -> bool {
        forall|m: CpuMode| m.spec_has_spsr() ==> #[trigger] post.spec_spsr(m) == pre.spec_spsr(m)
    }

    /// The state after reset: every register zero, CPSR `RESET_CPSR`, every
    /// SPSR zero.
    pub open spec fn is_reset(&self) -> bool {
        &&& self.wf()
        &&& self.spec_cpsr().spec_raw() == RESET_CPSR
        &&& forall|r: u32, m: CpuMode| r < 16 ==> #[trigger] self.spec_read(r, m) == 0
        &&& forall|m: CpuMode| m.spec_has_spsr() ==> #[trigger] self.spec_spsr(m).spec_raw() == 0
    }

    /// Creates a processor in its reset state.
    pub fn new() -> (r: Cpu)
        ensures
            r.is_reset(),
            r.spec_mode() == CpuMode::Supervisor,
            r.spec_cpsr().spec_state() == CpuState::Arm,
    {
        let mut regs: Vec<u32> = Vec::new();
        let mut i: usize = 0;
        while i < NUM_SLOTS
            invariant
                i <= NUM_SLOTS,
                regs@.len() == i,
                forall|k: int| 0 <= k < i ==> regs@[k] == 0,
            decreases NUM_SLOTS - i,
        {
            regs.push(0);
            i = i + 1;
        }
        let mut spsrs: Vec<Psr> = Vec::new();
        let mut j: usize = 0;
        while j < NUM_SPSRS
            invariant
                j <= NUM_SPSRS,
                spsrs@.len() == j,
                forall|k: int| 0 <= k < j ==> spsrs@[k].spec_raw() == 0,
            decreases NUM_SPSRS - j,
        {
            spsrs.push(Psr::from_raw(0));
            j = j + 1;
        }
        let cpsr = Psr::from_raw(RESET_CPSR);
        proof {
            crate::psr::lemma_reset_cpsr(cpsr);
        }
        let cpu = Cpu { regs, spsrs, cpsr };
        assert forall|r: u32, m: CpuMode| r < 16 implies #[trigger] cpu.spec_read(r, m) == 0 by {
            assert(0 <= reg_slot(r, m) < 31);
        }
        assert forall|m: CpuMode| m.spec_has_spsr() implies #[trigger] cpu.spec_spsr(m).spec_raw()
            == 0 by {
            assert(0 <= spsr_slot(m) < 5);
        }
        cpu
    }

    /// Reinitialises every register to its reset value.
    pub fn reset(&mut self)
        ensures
            final(self).is_reset(),
    {
        *self = Cpu::new();
    }

    /// Returns the current status register.
    pub fn cpsr(&self) -> (r: Psr)
        ensures
            r == self.spec_cpsr(),
            self.wf() ==> r.has_valid_mode(),
    {
        self.cpsr
    }

    /// Returns the current mode.
    pub fn current_mode(&self) -> (r: CpuMode)
        requires
            self.wf(),
        ensures
            r == self.spec_mode(),
    {
        self.cpsr.mode()
    }

    /// Reads register `reg` as seen in `mode`.
    pub fn read(&self, reg: u32, mode: CpuMode) -> (r: u32)
        requires
            self.wf(),
            reg < 16,
        ensures
            r == self.spec_read(reg, mode),
    {
        self.regs[slot(reg, mode)]
    }

    /// Writes register `reg` as seen in `mode`.
    pub fn write(&mut self, reg: u32, value: u32, mode: CpuMode)
        requires
            old(self).wf(),
            reg < 16,
        ensures
            final(self).wf(),
            Cpu::regs_updated(old(self), final(self), reg, mode, value),
            final(self).spec_cpsr() == old(self).spec_cpsr(),
            Cpu::spsrs_same(old(self), final(self)),
    {
        let k = slot(reg, mode);
        self.regs.set(k, value);
    }

    /// Reads register `reg` of the current mode.
    pub fn reg(&self, reg: u32) -> (r: u32)
        requires
            self.wf(),
            reg < 16,
        ensures
            r == self.spec_reg(reg),
    {
        self.read(reg, self.current_mode())
    }

    /// Writes register `reg` of the current mode.
    pub fn set_reg(&mut self, reg: u32, value: u32)
        requires
            old(self).wf(),
            reg < 16,
        ensures
            final(self).wf(),
            Cpu::regs_updated(old(self), final(self), reg, old(self).spec_mode(), value),
            final(self).spec_cpsr() == old(self).spec_cpsr(),
            Cpu::spsrs_same(old(self), final(self)),
    {
        let mode = self.current_mode();
        self.write(reg, value, mode);
    }

    /// Sets the program counter, forcing it to the alignment of the current
    /// state: a multiple of 4 in ARM state, of 2 in THUMB state.
    pub fn set_pc(&mut self, value: u32)
        requires
            old(self).wf(),
        ensures
            final(self).wf(),
            Cpu::regs_updated(old(self), final(self), PC, old(self).spec_mode(),
                aligned_pc(value, old(self).spec_cpsr().spec_state())),
            final(self).spec_cpsr() == old(self).spec_cpsr(),
            Cpu::spsrs_same(old(self), final(self)),
    {
        let aligned = match self.cpsr.state() {
            CpuState::Arm => value & !3u32,
            CpuState::Thumb => value & !1u32,
        };
        self.set_reg(PC, aligned);
    }

    /// Replaces the current status register; its mode field must be valid.
    /// The visible registers follow the new mode.
    pub fn set_cpsr(&mut self, psr: Psr)
        requires
            old(self).wf(),
            psr.has_valid_mode(),
        ensures
            final(self).wf(),
            final(self).spec_cpsr() == psr,
            Cpu::regs_same(old(self), final(self)),
            Cpu::spsrs_same(old(self), final(self)),
    {
        self.cpsr = psr;
    }

    /// Switches to `mode`, keeping the registers of every bank: the target
    /// mode's bank becomes visible.
    pub fn switch_mode(&mut self, mode: CpuMode)
        requires
            old(self).wf(),
        ensures
            final(self).wf(),
            final(self).spec_cpsr() == old(self).spec_cpsr().with_mode_spec(mode),
            final(self).spec_mode() == mode,
            Cpu::regs_same(old(self), final(self)),
            Cpu::spsrs_same(old(self), final(self)),
    {
        self.cpsr = self.cpsr.with_mode(mode);
    }

    /// Reads the saved status register of `mode`; fails for User and System
    /// mode, which have none.
    pub fn read_spsr(&self, mode: CpuMode) -> (r: Result<Psr, NoSpsr>)
        requires
            self.wf(),
        ensures
            r is Err <==> !mode.spec_has_spsr(),
            r matches Ok(p) ==> p == self.spec_spsr(mode),
            r matches Err(e) ==> e.mode == mode,
    {
        if mode.has_spsr() {
            Ok(self.spsrs[spsr_index(mode)])
        } else {
            Err(NoSpsr { mode })
        }
    }

    /// Writes the saved status register of `mode`; fails for User and System
    /// mode, which have none, and then changes nothing.
    pub fn write_spsr(&mut self, psr: Psr, mode: CpuMode) -> (r: Result<(), NoSpsr>)
        requires
            old(self).wf(),
        ensures
            final(self).wf(),
            r is Err <==> !mode.spec_has_spsr(),
            r matches Err(e) ==> e.mode == mode,
            Cpu::regs_same(old(self), final(self)),
            final(self).spec_cpsr() == old(self).spec_cpsr(),
            forall|m: CpuMode| m.spec_has_spsr() ==> #[trigger] final(self).spec_spsr(m) == if mode.spec_has_spsr() && m == mode {
                psr
            } else {
                old(self).spec_spsr(m)
            },
    {
        if mode.has_spsr() {
            let k = spsr_index(mode);
            self.spsrs.set(k, psr);
            proof {
                assert forall|m: CpuMode| m.spec_has_spsr() implies #[trigger] self.spec_spsr(m)
                    == if m == mode { psr } else { old(self).spec_spsr(m) } by {
                    lemma_spsr_slot_injective(m, mode);
                }
            }
            Ok(())
        } else {
            Err(NoSpsr { mode })
        }
    }

    /// `post` is `pre` after entry into exception `ex`: the CPSR of `pre` is
    /// saved in the target mode's SPSR, the mode becomes the target mode, the
    /// state ARM, IRQs are disabled (and FIQs for Reset and FIQ), the flags are
    /// kept, the target mode's link register holds the address of the next
    /// instruction plus the exception's offset, and the program counter holds
    /// the vector. Nothing else changes.
    pub open spec fn exception_entered(pre: &Cpu, post: &Cpu, ex: Exception) -> bool {
        Cpu::exception_entered_at(pre, post, ex, pre.spec_pc())
    }

    /// As `exception_entered`, with `next` as the address of the next
    /// instruction, in place of the program counter of `pre`.
    pub open spec fn exception_entered_at(pre: &Cpu, post: &Cpu, ex: Exception, next: u32) -> bool {
        let target = ex.spec_mode();
        let old_psr = pre.spec_cpsr();
        let new_psr = post.spec_cpsr();
        &&& post.wf()
        &&& new_psr.has_valid_mode()
        &&& post.spec_mode() == target
        &&& new_psr.spec_state() == CpuState::Arm
        &&& new_psr.spec_irq_disabled()
        &&& new_psr.spec_fiq_disabled() == (ex.spec_disables_fiq() || old_psr.spec_fiq_disabled())
        &&& new_psr.spec_sign() == old_psr.spec_sign()
        &&& new_psr.spec_zero() == old_psr.spec_zero()
        &&& new_psr.spec_carry() == old_psr.spec_carry()
        &&& new_psr.spec_overflow() == old_psr.spec_overflow()
        &&& post.spec_spsr(target) == old_psr
        &&& forall|m: CpuMode|
            m.spec_has_spsr() && m != target ==> #[trigger] post.spec_spsr(m) == pre.spec_spsr(m)
        &&& post.spec_read(LR, target) == next.wrapping_add(ex.spec_return_offset())
        &&& post.spec_pc() == ex.spec_vector()
        &&& forall|r: u32, m: CpuMode|
            r < 16 && reg_slot(r, m) != reg_slot(LR, target) && reg_slot(r, m) != reg_slot(PC, m)
                ==> #[trigger] post.spec_read(r, m) == pre.spec_read(r, m)
    }

    /// Takes exception `ex`, as one atomic transition.
    pub fn enter_exception(&mut self, ex: Exception)
        requires
            old(self).wf(),
        ensures
            Cpu::exception_entered(old(self), final(self), ex),
    {
        let pc = self.reg(PC);
        self.enter_exception_at(ex, pc);
    }

    /// Takes exception `ex` with `pc` as the address of the next instruction.
    pub(crate) fn enter_exception_at(&mut self, ex: Exception, pc: u32)
        requires
            old(self).wf(),
        ensures
            Cpu::exception_entered_at(old(self), final(self), ex, pc),
    {
        let old_cpsr = self.cpsr;
        let mode = ex.mode();
        let k = spsr_index(mode);
        self.spsrs.set(k, old_cpsr);
        let disable_fiq = ex.disables_fiq() || old_cpsr.fiq_disabled();
        let new_cpsr = old_cpsr.with_mode(mode).with_state(CpuState::Arm).with_irq_disabled(
            true,
        ).with_fiq_disabled(disable_fiq);
        self.cpsr = new_cpsr;
        self.write(LR, pc.wrapping_add(ex.return_offset()), mode);
        let ghost mid = *self;
        self.write(PC, ex.vector(), mode);
        proof {
            assert forall|m: CpuMode| m.spec_has_spsr() && m != mode implies #[trigger] self.spec_spsr(m)
                == old(self).spec_spsr(m) by {
                lemma_spsr_slot_injective(m, mode);
            }
            assert(self.spec_read(LR, mode) == mid.spec_read(LR, mode));
        }
    }

    /// Signals an interrupt request: taken at once unless IRQs are disabled,
    /// in which case nothing changes. Returns whether it was taken.
    pub fn raise_irq(&mut self) -> (taken: bool)
        requires
            old(self).wf(),
        ensures
            taken == !old(self).spec_cpsr().spec_irq_disabled(),
            taken ==> Cpu::exception_entered(old(self), final(self), Exception::Irq),
            !taken ==> *final(self) == *old(self),
    {
        if self.cpsr.irq_disabled() {
            false
        } else {
            self.enter_exception(Exception::Irq);
            true
        }
    }

    /// Signals a fast interrupt request: taken at once unless FIQs are
    /// disabled, in which case nothing changes. Returns whether it was taken.
    pub fn raise_fiq(&mut self) -> (taken: bool)
        requires
            old(self).wf(),
        ensures
            taken == !old(self).spec_cpsr().spec_fiq_disabled(),
            taken ==> Cpu::exception_entered(old(self), final(self), Exception::Fiq),
            !taken ==> *final(self) == *old(self),
    {
        if self.cpsr.fiq_disabled() {
            false
        } else {
            self.enter_exception(Exception::Fiq);
            true
        }
    }
}

/// `value` forced to the alignment of `state`.
pub open spec fn aligned_pc(value: u32, state: CpuState) -> u32 {
    match state {
        CpuState::Arm => value & !3u32,
        CpuState::Thumb => value & !1u32,
    }
}

} // verus!
