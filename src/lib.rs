//! ARM7TDMI instruction-execution core and GBA cartridge header model.

use vstd::prelude::*;

pub mod alu;
pub mod arm;
pub mod bit;
pub mod cartridge;
pub mod cpu;
pub mod psr;
pub mod thumb;

pub use crate::bit::BitIndex;
pub use crate::cartridge::{Cartridge, CartridgeHeader, IncompleteHeaderError, LoadError};
pub use crate::psr::Psr;

verus! {

/// Cpu state: which instruction set is decoded.
#[derive(Clone, Copy, Debug, PartialEq, Eq, Structural)]
pub enum CpuState {
    /// ARM (32-bit opcodes).
    Arm,
    /// THUMB (16-bit opcodes).
    Thumb,
}

impl CpuState {
    /// Returns the short display name (`ARM` or `THUMB`).
    pub fn name(self) -> (r: &'static str)
        ensures
            self == CpuState::Arm ==> r@ == "ARM"@,
            self == CpuState::Thumb ==> r@ == "THUMB"@,
    {
        match self {
            CpuState::Arm => {
                proof { reveal_strlit("ARM"); }
                "ARM"
            },
            CpuState::Thumb => {
                proof { reveal_strlit("THUMB"); }
                "THUMB"
            },
        }
    }
}

/// The state selected by the state bit of a status register.
pub open spec fn state_of_bit(bit: bool) -> CpuState {
    if bit { CpuState::Thumb } else { CpuState::Arm }
}

/// The state bit of a status register that selects `state`.
pub open spec fn bit_of_state(state: CpuState) -> bool {
    state == CpuState::Thumb
}

impl From<bool> for CpuState {
    fn from(state: bool) -> (r: CpuState)
        ensures
            r == state_of_bit(state),
    {
        if state {
            CpuState::Thumb
        } else {
            CpuState::Arm
        }
    }
}

impl vstd::std_specs::convert::FromSpecImpl<bool> for CpuState {
    open spec fn obeys_from_spec() -> bool {
        true
    }

    open spec fn from_spec(v: bool) -> CpuState {
        state_of_bit(v)
    }
}

impl From<CpuState> for bool {
    fn from(state: CpuState) -> (r: bool)
        ensures
            r == bit_of_state(state),
    {
        match state {
            CpuState::Arm => false,
            CpuState::Thumb => true,
        }
    }
}

impl vstd::std_specs::convert::FromSpecImpl<CpuState> for bool {
    open spec fn obeys_from_spec() -> bool {
        true
    }

    open spec fn from_spec(v: CpuState) -> bool {
        bit_of_state(v)
    }
}

/// Converting a state to its bit and back gives the same state, and converting
/// a bit to its state and back gives the same bit.
pub proof fn lemma_state_bit_round_trip(state: CpuState, bit: bool)
    ensures
        state_of_bit(bit_of_state(state)) == state,
        bit_of_state(state_of_bit(bit)) == bit,
        state_of_bit(true) == CpuState::Thumb,
        state_of_bit(false) == CpuState::Arm,
{
}

/// Cpu mode: selects which banked registers are visible.
#[derive(Clone, Copy, Debug, PartialEq, Eq, Structural)]
pub enum CpuMode {
    /// User (non-privileged).
    User,
    /// FIQ.
    Fiq,
    /// IRQ.
    Irq,
    /// Supervisor (SWI).
    Supervisor,
    /// Abort.
    Abort,
    /// Undefined.
    Undefined,
    /// System (privileged `User` mode).
    System,
}

/// A 5-bit mode field that names no mode.
#[derive(Clone, Copy, Debug, PartialEq, Eq, Structural)]
pub struct InvalidCpuMode {
    /// The offending mode field.
    pub bits: u8,
}

/// The mode that a 5-bit mode field encodes, if any.
pub open spec fn mode_of_bits(bits: u8) -> Option<CpuMode> {
    if bits == 0b10000 {
        Some(CpuMode::User)
    } else if bits == 0b10001 {
        Some(CpuMode::Fiq)
    } else if bits == 0b10010 {
        Some(CpuMode::Irq)
    } else if bits == 0b10011 {
        Some(CpuMode::Supervisor)
    } else if bits == 0b10111 {
        Some(CpuMode::Abort)
    } else if bits == 0b11011 {
        Some(CpuMode::Undefined)
    } else if bits == 0b11111 {
        Some(CpuMode::System)
    } else {
        None
    }
}

impl CpuMode {
    /// The 5-bit field that encodes this mode.
    pub open spec fn spec_bits(self) -> u8 {
        match self {
            CpuMode::User => 0b10000,
            CpuMode::Fiq => 0b10001,
            CpuMode::Irq => 0b10010,
            CpuMode::Supervisor => 0b10011,
            CpuMode::Abort => 0b10111,
            CpuMode::Undefined => 0b11011,
            CpuMode::System => 0b11111,
        }
    }

    /// Whether the mode has a saved status register (every privileged mode
    /// but `System`).
    pub open spec fn spec_has_spsr(self) -> bool {
        self != CpuMode::User && self != CpuMode::System
    }

    /// Returns the 5-bit field that encodes this mode.
    pub fn bits(self) -> (r: u8)
        ensures
            r == self.spec_bits(),
            mode_of_bits(r) == Some(self),
    {
        match self {
            CpuMode::User => 0b10000,
            CpuMode::Fiq => 0b10001,
            CpuMode::Irq => 0b10010,
            CpuMode::Supervisor => 0b10011,
            CpuMode::Abort => 0b10111,
            CpuMode::Undefined => 0b11011,
            CpuMode::System => 0b11111,
        }
    }

    /// Decodes a 5-bit mode field; fails on the patterns that name no mode.
    pub fn from_bits(bits: u8) -> (r: Result<CpuMode, InvalidCpuMode>)
        ensures
            mode_of_bits(bits) matches Some(m) ==> r == Ok::<CpuMode, InvalidCpuMode>(m),
            mode_of_bits(bits) is None ==> r == Err::<CpuMode, InvalidCpuMode>(
                InvalidCpuMode { bits },
            ),
    {
        if bits == 0b10000 {
            Ok(CpuMode::User)
        } else if bits == 0b10001 {
            Ok(CpuMode::Fiq)
        } else if bits == 0b10010 {
            Ok(CpuMode::Irq)
        } else if bits == 0b10011 {
            Ok(CpuMode::Supervisor)
        } else if bits == 0b10111 {
            Ok(CpuMode::Abort)
        } else if bits == 0b11011 {
            Ok(CpuMode::Undefined)
        } else if bits == 0b11111 {
            Ok(CpuMode::System)
        } else {
            Err(InvalidCpuMode { bits })
        }
    }

    /// Returns whether the mode has a saved status register.
    pub fn has_spsr(self) -> (r: bool)
        ensures
            r == self.spec_has_spsr(),
    {
        match self {
            CpuMode::User | CpuMode::System => false,
            _ => true,
        }
    }

    /// Returns the short display name (`USR`, `FIQ`, ...).
    pub fn name(self) -> (r: &'static str)
        ensures
            self == CpuMode::User ==> r@ == "USR"@,
            self == CpuMode::Fiq ==> r@ == "FIQ"@,
            self == CpuMode::Irq ==> r@ == "IRQ"@,
            self == CpuMode::Supervisor ==> r@ == "SVC"@,
            self == CpuMode::Abort ==> r@ == "ABT"@,
            self == CpuMode::Undefined ==> r@ == "UND"@,
            self == CpuMode::System ==> r@ == "SYS"@,
    {
        match self {
            CpuMode::User => {
                proof { reveal_strlit("USR"); }
                "USR"
            },
            CpuMode::Fiq => {
                proof { reveal_strlit("FIQ"); }
                "FIQ"
            },
            CpuMode::Irq => {
                proof { reveal_strlit("IRQ"); }
                "IRQ"
            },
            CpuMode::Supervisor => {
                proof { reveal_strlit("SVC"); }
                "SVC"
            },
            CpuMode::Abort => {
                proof { reveal_strlit("ABT"); }
                "ABT"
            },
            CpuMode::Undefined => {
                proof { reveal_strlit("UND"); }
                "UND"
            },
            CpuMode::System => {
                proof { reveal_strlit("SYS"); }
                "SYS"
            },
        }
    }
}

/// Decoding succeeds exactly on the seven mode patterns, and decoding the
/// encoding of a mode gives that mode back.
pub proof fn lemma_mode_bits(bits: u8, mode: CpuMode)
    requires
        bits < 32,
    ensures
        mode_of_bits(bits) is Some <==> (bits == 0b10000 || bits == 0b10001 || bits == 0b10010
            || bits == 0b10011 || bits == 0b10111 || bits == 0b11011 || bits == 0b11111),
        mode_of_bits(mode.spec_bits()) == Some(mode),
        mode_of_bits(bits) matches Some(m) ==> m.spec_bits() == bits,
{
}

/// Condition field of an opcode, a predicate over the `N`, `Z`, `C`, `V` flags.
#[derive(Clone, Copy, Debug, PartialEq, Eq, Structural)]
pub enum Cond {
    /// Equal (zero, `Z=1`).
    EQ,
    /// Not equal (nonzero, `Z=0`).
    NE,
    /// Unsigned higher or same (carry set, `C=1`).
    HS,
    /// Unsigned lower (carry cleared, `C=0`).
    LO,
    /// Signed negative (minus, `N=1`).
    MI,
    /// Signed positive or zero (plus, `N=0`).
    PL,
    /// Signed overflow (overflow set, `V=1`).
    VS,
    /// Signed no overflow (overflow cleared, `V=0`).
    VC,
    /// Unsigned higher (`C=1` and `Z=0`).
    HI,
    /// Unsigned lower or same (`C=0` or `Z=1`).
    LS,
    /// Signed greater than or equal (`N=V`).
    GE,
    /// Signed less than (`N!=V`).
    LT,
    /// Signed greater than (`Z=0` and `N=V`).
    GT,
    /// Signed less than or equal (`Z=1` or `N!=V`).
    LE,
    /// Always.
    AL,
    /// Reserved (`0xF`, historically "never"). Its behaviour differs between
    /// ARM revisions; this core treats it as never taken.
    Invalid,
}

/// The condition that a 4-bit condition field encodes.
pub open spec fn cond_of_bits(bits: u8) -> Option<Cond> {
    if bits == 0x0 {
        Some(Cond::EQ)
    } else if bits == 0x1 {
        Some(Cond::NE)
    } else if bits == 0x2 {
        Some(Cond::HS)
    } else if bits == 0x3 {
        Some(Cond::LO)
    } else if bits == 0x4 {
        Some(Cond::MI)
    } else if bits == 0x5 {
        Some(Cond::PL)
    } else if bits == 0x6 {
        Some(Cond::VS)
    } else if bits == 0x7 {
        Some(Cond::VC)
    } else if bits == 0x8 {
        Some(Cond::HI)
    } else if bits == 0x9 {
        Some(Cond::LS)
    } else if bits == 0xA {
        Some(Cond::GE)
    } else if bits == 0xB {
        Some(Cond::LT)
    } else if bits == 0xC {
        Some(Cond::GT)
    } else if bits == 0xD {
        Some(Cond::LE)
    } else if bits == 0xE {
        Some(Cond::AL)
    } else if bits == 0xF {
        Some(Cond::Invalid)
    } else {
        None
    }
}

impl Cond {
    /// Whether the condition holds for the flags `n`, `z`, `c`, `v`.
    pub open spec fn spec_holds(self, n: bool, z: bool, c: bool, v: bool) -> bool {
        match self {
            Cond::EQ => z,
            Cond::NE => !z,
            Cond::HS => c,
            Cond::LO => !c,
            Cond::MI => n,
            Cond::PL => !n,
            Cond::VS => v,
            Cond::VC => !v,
            Cond::HI => c && !z,
            Cond::LS => !c || z,
            Cond::GE => n == v,
            Cond::LT => n != v,
            Cond::GT => !z && n == v,
            Cond::LE => z || n != v,
            Cond::AL => true,
            Cond::Invalid => false,
        }
    }

    /// Decodes a 4-bit condition field; `None` when `bits` does not fit in
    /// four bits.
    pub fn from_bits(bits: u8) -> (r: Option<Cond>)
        ensures
            r == cond_of_bits(bits),
            r is Some <==> bits < 16,
    {
        match bits {
            0x0 => Some(Cond::EQ),
            0x1 => Some(Cond::NE),
            0x2 => Some(Cond::HS),
            0x3 => Some(Cond::LO),
            0x4 => Some(Cond::MI),
            0x5 => Some(Cond::PL),
            0x6 => Some(Cond::VS),
            0x7 => Some(Cond::VC),
            0x8 => Some(Cond::HI),
            0x9 => Some(Cond::LS),
            0xA => Some(Cond::GE),
            0xB => Some(Cond::LT),
            0xC => Some(Cond::GT),
            0xD => Some(Cond::LE),
            0xE => Some(Cond::AL),
            0xF => Some(Cond::Invalid),
            _ => None,
        }
    }

    /// Evaluates the condition on the flags `n` (sign), `z` (zero), `c` (carry)
    /// and `v` (overflow).
    pub fn holds(self, n: bool, z: bool, c: bool, v: bool) -> (r: bool)
        ensures
            r == self.spec_holds(n, z, c, v),
    {
        match self {
            Cond::EQ => z,
            Cond::NE => !z,
            Cond::HS => c,
            Cond::LO => !c,
            Cond::MI => n,
            Cond::PL => !n,
            Cond::VS => v,
            Cond::VC => !v,
            Cond::HI => c && !z,
            Cond::LS => !c || z,
            Cond::GE => n == v,
            Cond::LT => n != v,
            Cond::GT => !z && n == v,
            Cond::LE => z || n != v,
            Cond::AL => true,
            Cond::Invalid => false,
        }
    }
}

/// Each condition code but `AL` and the reserved one has a partner code that
/// holds exactly when it does not, on every flag combination.
pub proof fn lemma_cond_pairs_complement(n: bool, z: bool, c: bool, v: bool)
    ensures
        Cond::EQ.spec_holds(n, z, c, v) != Cond::NE.spec_holds(n, z, c, v),
        Cond::HS.spec_holds(n, z, c, v) != Cond::LO.spec_holds(n, z, c, v),
        Cond::MI.spec_holds(n, z, c, v) != Cond::PL.spec_holds(n, z, c, v),
        Cond::VS.spec_holds(n, z, c, v) != Cond::VC.spec_holds(n, z, c, v),
        Cond::HI.spec_holds(n, z, c, v) != Cond::LS.spec_holds(n, z, c, v),
        Cond::GE.spec_holds(n, z, c, v) != Cond::LT.spec_holds(n, z, c, v),
        Cond::GT.spec_holds(n, z, c, v) != Cond::LE.spec_holds(n, z, c, v),
        Cond::AL.spec_holds(n, z, c, v),
        !Cond::Invalid.spec_holds(n, z, c, v),
{
}

} // verus!
