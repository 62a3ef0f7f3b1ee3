use gba_core::arm::{ExecError, Transfer};
use gba_core::InvalidCpuMode;
use gba_core::cpu::{Cpu, Exception, NoSpsr};
use gba_core::{CpuMode, CpuState, Psr};

fn cpu_in(raw: u32) -> Cpu {
    let mut cpu = Cpu::new();
    cpu.set_cpsr(Psr::from_raw(raw));
    cpu
}

#[test]
fn reset_state() {
    let cpu = Cpu::new();
    assert_eq!(cpu.current_mode(), CpuMode::Supervisor);
    assert_eq!(cpu.cpsr().raw(), 0xD3);
    for r in 0..16 {
        assert_eq!(cpu.reg(r), 0);
    }
}

#[test]
fn mov_immediate_sets_register_only() {
    let mut cpu = cpu_in(0x6000_001F);
    let before = cpu.cpsr();
    assert_eq!(cpu.execute_arm(0xE3A0_0001), Ok(1));
    assert_eq!(cpu.reg(0), 1);
    assert_eq!(cpu.cpsr(), before);
    assert_eq!(cpu.reg(15), 4);
}

#[test]
fn failed_condition_skips() {
    let mut cpu = cpu_in(0x0000_001F);
    cpu.set_reg(0, 7);
    cpu.set_reg(15, 0x100);
    let before = cpu.cpsr();
    // MOVEQ R0, #1 with Z clear
    assert_eq!(cpu.execute_arm(0x03A0_0001), Ok(1));
    assert_eq!(cpu.reg(0), 7);
    assert_eq!(cpu.cpsr(), before);
    assert_eq!(cpu.reg(15), 0x104);
}

#[test]
fn irq_entry() {
    let mut cpu = cpu_in(0xA000_001F);
    cpu.set_reg(15, 0x0800_0010);
    let before = cpu.cpsr();
    assert!(cpu.raise_irq());
    assert_eq!(cpu.read_spsr(CpuMode::Irq), Ok(before));
    assert_eq!(cpu.current_mode(), CpuMode::Irq);
    assert_eq!(cpu.cpsr().state(), CpuState::Arm);
    assert!(cpu.cpsr().irq_disabled());
    assert!(!cpu.cpsr().fiq_disabled());
    assert!(cpu.cpsr().sign() && cpu.cpsr().carry());
    assert_eq!(cpu.reg(15), 0x18);
    assert_eq!(cpu.reg(14), 0x0800_0014);
    assert_eq!(cpu.read(14, CpuMode::System), 0);
}

#[test]
fn irq_masked_is_ignored() {
    let mut cpu = cpu_in(0x0000_009F);
    cpu.set_reg(15, 0x40);
    assert!(!cpu.raise_irq());
    assert_eq!(cpu.current_mode(), CpuMode::System);
    assert_eq!(cpu.reg(15), 0x40);
}

#[test]
fn fiq_entry_banks_high_registers() {
    let mut cpu = cpu_in(0x0000_001F);
    cpu.set_reg(8, 0x88);
    cpu.set_reg(15, 0x200);
    assert!(cpu.raise_fiq());
    assert_eq!(cpu.current_mode(), CpuMode::Fiq);
    assert!(cpu.cpsr().fiq_disabled() && cpu.cpsr().irq_disabled());
    assert_eq!(cpu.reg(8), 0);
    assert_eq!(cpu.read(8, CpuMode::User), 0x88);
    assert_eq!(cpu.reg(15), 0x1C);
    assert_eq!(cpu.reg(14), 0x204);
}

#[test]
fn banked_registers_survive_mode_switch() {
    let mut cpu = cpu_in(0x0000_001F);
    cpu.set_reg(13, 0x0300_7F00);
    cpu.switch_mode(CpuMode::Irq);
    assert_eq!(cpu.reg(13), 0);
    cpu.set_reg(13, 0x0300_7FA0);
    cpu.switch_mode(CpuMode::User);
    assert_eq!(cpu.reg(13), 0x0300_7F00);
    assert_eq!(cpu.read(13, CpuMode::Irq), 0x0300_7FA0);
}

#[test]
fn spsr_missing_in_user_and_system() {
    let mut cpu = Cpu::new();
    assert_eq!(cpu.read_spsr(CpuMode::User), Err(NoSpsr { mode: CpuMode::User }));
    assert_eq!(
        cpu.write_spsr(Psr::from_raw(0x10), CpuMode::System),
        Err(NoSpsr { mode: CpuMode::System })
    );
    assert_eq!(cpu.write_spsr(Psr::from_raw(0x10), CpuMode::Abort), Ok(()));
    assert_eq!(cpu.read_spsr(CpuMode::Abort), Ok(Psr::from_raw(0x10)));
}

#[test]
fn adds_sets_overflow_and_sign() {
    let mut cpu = cpu_in(0x0000_001F);
    cpu.set_reg(1, 0x7FFF_FFFF);
    cpu.set_reg(2, 1);
    // ADDS R0, R1, R2
    assert_eq!(cpu.execute_arm(0xE091_0002), Ok(1));
    assert_eq!(cpu.reg(0), 0x8000_0000);
    let p = cpu.cpsr();
    assert!(p.sign() && !p.zero() && !p.carry() && p.overflow());
}

#[test]
fn subs_borrow_and_cmp_zero() {
    let mut cpu = cpu_in(0x0000_001F);
    // SUBS R0, R0, #1 with R0 = 0
    assert_eq!(cpu.execute_arm(0xE250_0001), Ok(1));
    assert_eq!(cpu.reg(0), 0xFFFF_FFFF);
    assert!(cpu.cpsr().sign() && !cpu.cpsr().carry());
    // CMP R0, R0
    assert_eq!(cpu.execute_arm(0xE150_0000), Ok(1));
    assert_eq!(cpu.reg(0), 0xFFFF_FFFF);
    assert!(cpu.cpsr().zero() && cpu.cpsr().carry() && !cpu.cpsr().sign());
}

#[test]
fn shifted_register_operand() {
    let mut cpu = cpu_in(0x0000_001F);
    cpu.set_reg(1, 0x8000_0003);
    // MOVS R0, R1, LSR #1
    assert_eq!(cpu.execute_arm(0xE1B0_00A1), Ok(1));
    assert_eq!(cpu.reg(0), 0x4000_0001);
    assert!(cpu.cpsr().carry());
    // MOV R2, R1, ASR #4
    assert_eq!(cpu.execute_arm(0xE1A0_2241), Ok(1));
    assert_eq!(cpu.reg(2), 0xF800_0000);
    // MOV R3, #0xFF000000 (0xFF rotated right by 8)
    assert_eq!(cpu.execute_arm(0xE3A0_34FF), Ok(1));
    assert_eq!(cpu.reg(3), 0xFF00_0000);
}

#[test]
fn branch_and_link() {
    let mut cpu = cpu_in(0x0000_001F);
    cpu.set_reg(15, 0x0800_0000);
    // BL +8 words
    assert_eq!(cpu.execute_arm(0xEB00_0002), Ok(3));
    assert_eq!(cpu.reg(15), 0x0800_0010);
    assert_eq!(cpu.reg(14), 0x0800_0004);
    // B -2 words (back to itself)
    assert_eq!(cpu.execute_arm(0xEAFF_FFFE), Ok(3));
    assert_eq!(cpu.reg(15), 0x0800_0010);
}

#[test]
fn bx_switches_to_thumb() {
    let mut cpu = cpu_in(0x0000_001F);
    cpu.set_reg(1, 0x0800_0101);
    assert_eq!(cpu.execute_arm(0xE12F_FF11), Ok(3));
    assert_eq!(cpu.cpsr().state(), CpuState::Thumb);
    assert_eq!(cpu.reg(15), 0x0800_0100);
}

#[test]
fn swi_and_undefined_enter_exceptions() {
    let mut cpu = cpu_in(0x0000_0010);
    cpu.set_reg(15, 0x100);
    assert_eq!(cpu.execute_arm(0xEF00_0000), Ok(3));
    assert_eq!(cpu.current_mode(), CpuMode::Supervisor);
    assert_eq!(cpu.reg(15), 0x08);
    assert_eq!(cpu.reg(14), 0x104);
    assert_eq!(cpu.read_spsr(CpuMode::Supervisor), Ok(Psr::from_raw(0x10)));

    let mut cpu = cpu_in(0x0000_001F);
    cpu.set_reg(15, 0x200);
    assert_eq!(cpu.execute_arm(0xE600_0010), Ok(3));
    assert_eq!(cpu.current_mode(), CpuMode::Undefined);
    assert_eq!(cpu.reg(15), 0x04);
    assert_eq!(cpu.reg(14), 0x204);
}

#[test]
fn unsupported_leaves_state() {
    let mut cpu = cpu_in(0x0000_001F);
    cpu.set_reg(15, 0x300);
    // LDR R0, [R1]
    assert!(cpu.execute_arm(0xE591_0000).is_err());
    assert_eq!(cpu.reg(15), 0x300);
}

#[test]
fn exception_vectors() {
    assert_eq!(Exception::Irq.vector(), 0x18);
    assert_eq!(Exception::DataAbort.mode(), CpuMode::Abort);
    assert_eq!(Exception::Fiq.return_offset(), 4);
    assert!(Exception::Reset.disables_fiq());
}

#[test]
fn pc_alignment_is_masked() {
    let mut cpu = cpu_in(0x0000_001F);
    cpu.set_pc(0x0800_0003);
    assert_eq!(cpu.reg(15), 0x0800_0000);
    let mut cpu = cpu_in(0x0000_003F);
    cpu.set_pc(0x0800_0003);
    assert_eq!(cpu.reg(15), 0x0800_0002);
}

#[test]
fn irq_handler_returns_with_subs_pc_lr() {
    let mut cpu = cpu_in(0x2000_001F);
    cpu.set_reg(15, 0x0800_0040);
    assert!(cpu.raise_irq());
    // SUBS PC, LR, #4
    assert_eq!(cpu.execute_arm(0xE25E_F004), Ok(3));
    assert_eq!(cpu.current_mode(), CpuMode::System);
    assert_eq!(cpu.cpsr().raw(), 0x2000_001F);
    assert_eq!(cpu.reg(15), 0x0800_0040);
}

#[test]
fn exception_return_without_spsr_fails() {
    let mut cpu = cpu_in(0x0000_001F);
    cpu.set_reg(15, 0x80);
    // MOVS PC, LR in System mode
    assert_eq!(
        cpu.execute_arm(0xE1B0_F00E),
        Err(ExecError::NoSpsr(NoSpsr { mode: CpuMode::System }))
    );
    assert_eq!(cpu.reg(15), 0x80);
}

#[test]
fn mrs_and_msr() {
    let mut cpu = cpu_in(0x6000_001F);
    // MRS R0, CPSR
    assert_eq!(cpu.execute_arm(0xE10F_0000), Ok(1));
    assert_eq!(cpu.reg(0), 0x6000_001F);
    // MSR CPSR_c, #0x12 (IRQ mode)
    assert_eq!(cpu.execute_arm(0xE321_F012), Ok(1));
    assert_eq!(cpu.current_mode(), CpuMode::Irq);
    assert_eq!(cpu.cpsr().raw(), 0x6000_0012);
    // MSR CPSR_c, #0x00: no such mode
    assert_eq!(
        cpu.execute_arm(0xE321_F000),
        Err(ExecError::InvalidMode(InvalidCpuMode { bits: 0 }))
    );
    assert_eq!(cpu.current_mode(), CpuMode::Irq);
    // MSR SPSR_fc, R0 ; MRS R1, SPSR
    assert_eq!(cpu.execute_arm(0xE169_F000), Ok(1));
    assert_eq!(cpu.execute_arm(0xE14F_1000), Ok(1));
    assert_eq!(cpu.reg(1), 0x6000_001F);
}

#[test]
fn user_mode_msr_changes_flags_only() {
    let mut cpu = cpu_in(0x0000_0010);
    cpu.set_reg(0, 0xF000_001F);
    // MSR CPSR_fc, R0
    assert_eq!(cpu.execute_arm(0xE129_F000), Ok(1));
    assert_eq!(cpu.cpsr().raw(), 0xF000_0010);
    assert_eq!(cpu.current_mode(), CpuMode::User);
}

#[test]
fn load_word_pre_indexed_with_writeback() {
    let mut cpu = cpu_in(0x0000_001F);
    cpu.set_reg(1, 0x0300_0000);
    cpu.set_reg(15, 0x0800_0000);
    // LDR R0, [R1, #4]!
    let t = match cpu.execute_arm(0xE5B1_0004) {
        Err(ExecError::Transfer(t)) => t,
        other => panic!("{:?}", other),
    };
    assert_eq!(
        t,
        Transfer {
            address: 0x0300_0004,
            load: true,
            byte: false,
            rd: 0,
            rn: 1,
            writeback: Some(0x0300_0004),
            value: 0,
        }
    );
    assert_eq!(cpu.reg(15), 0x0800_0000);
    assert_eq!(cpu.complete_transfer(t, 0xDEAD_BEEF), 3);
    assert_eq!(cpu.reg(0), 0xDEAD_BEEF);
    assert_eq!(cpu.reg(1), 0x0300_0004);
    assert_eq!(cpu.reg(15), 0x0800_0004);
}

#[test]
fn misaligned_word_load_rotates() {
    let mut cpu = cpu_in(0x0000_001F);
    cpu.set_reg(1, 0x0300_0000);
    // LDR R2, [R1, #1]
    let t = match cpu.execute_arm(0xE591_2001) {
        Err(ExecError::Transfer(t)) => t,
        other => panic!("{:?}", other),
    };
    assert_eq!(t.address, 0x0300_0001);
    assert_eq!(t.writeback, None);
    cpu.complete_transfer(t, 0x1122_3344);
    assert_eq!(cpu.reg(2), 0x4411_2233);
    assert_eq!(cpu.reg(1), 0x0300_0000);
}

#[test]
fn store_byte_post_indexed() {
    let mut cpu = cpu_in(0x0000_001F);
    cpu.set_reg(3, 0x1234_56AB);
    cpu.set_reg(4, 0x100);
    // STRB R3, [R4], #-1
    let t = match cpu.execute_arm(0xE444_3001) {
        Err(ExecError::Transfer(t)) => t,
        other => panic!("{:?}", other),
    };
    assert_eq!(t.address, 0x100);
    assert!(!t.load && t.byte);
    assert_eq!(t.value, 0x1234_56AB);
    assert_eq!(cpu.complete_transfer(t, 0), 2);
    assert_eq!(cpu.reg(4), 0xFF);
    assert_eq!(cpu.reg(3), 0x1234_56AB);
}

#[test]
fn multiply_and_accumulate() {
    let mut cpu = cpu_in(0x2000_001F);
    cpu.set_reg(1, 6);
    cpu.set_reg(2, 7);
    // MUL R0, R1, R2
    assert_eq!(cpu.execute_arm(0xE000_0291), Ok(2));
    assert_eq!(cpu.reg(0), 42);
    assert_eq!(cpu.cpsr().raw(), 0x2000_001F);
    // MLAS R3, R1, R2, R4 with R1 = R2 = 0x10000, R4 = 0: wraps to zero
    cpu.set_reg(1, 0x1_0000);
    cpu.set_reg(2, 0x1_0000);
    assert_eq!(cpu.execute_arm(0xE033_4291), Ok(2));
    assert_eq!(cpu.reg(3), 0);
    assert!(cpu.cpsr().zero() && !cpu.cpsr().sign() && cpu.cpsr().carry());
    assert_eq!(cpu.reg(15), 8);
}
