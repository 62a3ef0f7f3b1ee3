use gba_core::arm::ExecError;
use gba_core::cpu::Cpu;
use gba_core::{CpuMode, CpuState, Psr};

fn thumb_cpu() -> Cpu {
    let mut cpu = Cpu::new();
    cpu.set_cpsr(Psr::from_raw(0x0000_003F));
    cpu.set_reg(15, 0x0800_0100);
    cpu
}

#[test]
fn thumb_mov_and_cmp_immediate() {
    let mut cpu = thumb_cpu();
    // MOV R0, #0
    assert_eq!(cpu.execute_thumb(0x2000), Ok(1));
    assert_eq!(cpu.reg(0), 0);
    assert!(cpu.cpsr().zero());
    assert_eq!(cpu.reg(15), 0x0800_0102);
    // MOV R1, #5 ; CMP R1, #7
    cpu.execute_thumb(0x2105).unwrap();
    assert_eq!(cpu.execute_thumb(0x2907), Ok(1));
    assert_eq!(cpu.reg(1), 5);
    assert!(cpu.cpsr().sign() && !cpu.cpsr().carry() && !cpu.cpsr().zero());
}

#[test]
fn thumb_add_sub_and_shift() {
    let mut cpu = thumb_cpu();
    cpu.set_reg(1, 0xFFFF_FFFF);
    cpu.set_reg(2, 1);
    // ADD R0, R1, R2
    cpu.execute_thumb(0x1888).unwrap();
    assert_eq!(cpu.reg(0), 0);
    assert!(cpu.cpsr().zero() && cpu.cpsr().carry());
    // SUB R3, R2, #1
    cpu.execute_thumb(0x1E53).unwrap();
    assert_eq!(cpu.reg(3), 0);
    // LSL R4, R2, #31
    cpu.execute_thumb(0x07D4).unwrap();
    assert_eq!(cpu.reg(4), 0x8000_0000);
    assert!(cpu.cpsr().sign());
    // NEG R5, R2
    cpu.execute_thumb(0x4255).unwrap();
    assert_eq!(cpu.reg(5), 0xFFFF_FFFF);
    // ORR R5, R2 -> unchanged; BIC R5, R2
    cpu.execute_thumb(0x4395).unwrap();
    assert_eq!(cpu.reg(5), 0xFFFF_FFFE);
}

#[test]
fn thumb_branches() {
    let mut cpu = thumb_cpu();
    // B +4 halfwords: target = pc + 4 + 8
    assert_eq!(cpu.execute_thumb(0xE004), Ok(3));
    assert_eq!(cpu.reg(15), 0x0800_010C);
    // BEQ back with Z clear: not taken
    assert_eq!(cpu.execute_thumb(0xD0FE), Ok(1));
    assert_eq!(cpu.reg(15), 0x0800_010E);
    // BNE -2 halfwords with Z clear: loops to itself
    assert_eq!(cpu.execute_thumb(0xD1FE), Ok(3));
    assert_eq!(cpu.reg(15), 0x0800_010E);
}

#[test]
fn thumb_long_branch_with_link() {
    let mut cpu = thumb_cpu();
    // BL with offset 0x1000 bytes: F001 F800
    assert_eq!(cpu.execute_thumb(0xF001), Ok(1));
    assert_eq!(cpu.reg(15), 0x0800_0102);
    assert_eq!(cpu.execute_thumb(0xF800), Ok(3));
    assert_eq!(cpu.reg(15), 0x0800_1104);
    assert_eq!(cpu.reg(14), 0x0800_0105);
}

#[test]
fn thumb_bx_to_arm_and_swi() {
    let mut cpu = thumb_cpu();
    cpu.set_reg(3, 0x0800_0200);
    // BX R3
    assert_eq!(cpu.execute_thumb(0x4718), Ok(3));
    assert_eq!(cpu.cpsr().state(), CpuState::Arm);
    assert_eq!(cpu.reg(15), 0x0800_0200);

    let mut cpu = thumb_cpu();
    assert_eq!(cpu.execute_thumb(0xDF00), Ok(3));
    assert_eq!(cpu.current_mode(), CpuMode::Supervisor);
    assert_eq!(cpu.cpsr().state(), CpuState::Arm);
    assert_eq!(cpu.reg(14), 0x0800_0102);
    assert_eq!(cpu.reg(15), 0x08);
}

#[test]
fn execute_dispatches_on_state() {
    let mut cpu = thumb_cpu();
    assert_eq!(cpu.execute(0x2001), Ok(1));
    assert_eq!(cpu.reg(0), 1);
    let mut cpu = Cpu::new();
    assert_eq!(cpu.execute(0xE3A0_0002), Ok(1));
    assert_eq!(cpu.reg(0), 2);
}

#[test]
fn thumb_high_register_ops() {
    let mut cpu = thumb_cpu();
    cpu.set_reg(1, 0x10);
    // MOV R8, R1
    assert_eq!(cpu.execute_thumb(0x4688), Ok(1));
    assert_eq!(cpu.reg(8), 0x10);
    // ADD R8, R1
    assert_eq!(cpu.execute_thumb(0x4488), Ok(1));
    assert_eq!(cpu.reg(8), 0x20);
    // CMP R8, R1
    assert_eq!(cpu.execute_thumb(0x4588), Ok(1));
    assert!(cpu.cpsr().carry() && !cpu.cpsr().zero());
    assert_eq!(cpu.reg(15), 0x0800_0106);
    // MOV PC, R8
    assert_eq!(cpu.execute_thumb(0x46C7), Ok(3));
    assert_eq!(cpu.reg(15), 0x20);
}

#[test]
fn thumb_relative_addresses() {
    let mut cpu = thumb_cpu();
    cpu.set_reg(13, 0x0300_7F00);
    // ADD R0, PC, #8 : (0x08000104 & !2) + 8
    assert_eq!(cpu.execute_thumb(0xA002), Ok(1));
    assert_eq!(cpu.reg(0), 0x0800_010C);
    // ADD R1, SP, #16
    cpu.execute_thumb(0xA904).unwrap();
    assert_eq!(cpu.reg(1), 0x0300_7F10);
    // SUB SP, #8
    cpu.execute_thumb(0xB082).unwrap();
    assert_eq!(cpu.reg(13), 0x0300_7EF8);
    // ADD SP, #8
    cpu.execute_thumb(0xB002).unwrap();
    assert_eq!(cpu.reg(13), 0x0300_7F00);
}

#[test]
fn thumb_loads_and_stores() {
    let mut cpu = thumb_cpu();
    cpu.set_reg(1, 0x0300_0000);
    cpu.set_reg(2, 0x42);
    // STR R2, [R1, #8]
    let t = match cpu.execute_thumb(0x608A) {
        Err(ExecError::Transfer(t)) => t,
        other => panic!("{:?}", other),
    };
    assert_eq!(t.address, 0x0300_0008);
    assert!(!t.load && !t.byte);
    assert_eq!(t.value, 0x42);
    assert_eq!(cpu.complete_transfer(t, 0), 2);
    assert_eq!(cpu.reg(15), 0x0800_0102);
    // LDRB R3, [R1, #5]
    let t = match cpu.execute_thumb(0x794B) {
        Err(ExecError::Transfer(t)) => t,
        other => panic!("{:?}", other),
    };
    assert_eq!(t.address, 0x0300_0005);
    assert!(t.load && t.byte);
    assert_eq!(cpu.complete_transfer(t, 0x1234_56F0), 3);
    assert_eq!(cpu.reg(3), 0xF0);
    assert_eq!(cpu.reg(15), 0x0800_0104);
    // LDR R0, [PC, #4]
    let t = match cpu.execute_thumb(0x4801) {
        Err(ExecError::Transfer(t)) => t,
        other => panic!("{:?}", other),
    };
    assert_eq!(t.address, 0x0800_010C);
    // LDR R4, [R1, R2]
    let t = match cpu.execute_thumb(0x588C) {
        Err(ExecError::Transfer(t)) => t,
        other => panic!("{:?}", other),
    };
    assert_eq!(t.address, 0x0300_0042);
    // STR R0, [SP, #4]
    cpu.set_reg(13, 0x0300_7F00);
    let t = match cpu.execute_thumb(0x9001) {
        Err(ExecError::Transfer(t)) => t,
        other => panic!("{:?}", other),
    };
    assert_eq!(t.address, 0x0300_7F04);
    assert_eq!(t.rn, 13);
}
