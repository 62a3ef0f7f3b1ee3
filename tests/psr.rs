use gba_core::{BitIndex, Cond, CpuMode, CpuState, InvalidCpuMode, Psr};

#[test]
fn bits_round_trip_on_sample_values() {
    let samples: [u32; 5] = [0, 1, 0xDEAD_BEEF, 0xFFFF_FFFF, 0x8000_0001];
    for &x in samples.iter() {
        for start in 0u32..32 {
            for end in (start + 1)..=32 {
                assert_eq!(x.set_bits(start, end, x.bits(start, end)), x);
            }
        }
    }
    let y: u64 = 0x0123_4567_89AB_CDEF;
    assert_eq!(y.set_bits(8, 40, y.bits(8, 40)), y);
    let z: u8 = 0b1010_0110;
    assert_eq!(z.set_bits(1, 6, z.bits(1, 6)), z);
    let w: u16 = 0xBEEF;
    assert_eq!(w.set_bits(4, 16, w.bits(4, 16)), w);
}

#[test]
fn bit_field_values() {
    let x: u32 = 0xDEAD_BEEF;
    assert_eq!(x.bits(0, 4), 0xF);
    assert_eq!(x.bits(28, 32), 0xD);
    assert_eq!(x.bits(8, 24), 0xADBE);
    assert_eq!(x.bits(0, 32), x);
    assert!(x.bit(0));
    assert!(!x.bit(4));
    assert_eq!(x.set_bit(4, true), 0xDEAD_BEFF);
    assert_eq!(x.set_bit(0, false), 0xDEAD_BEEE);
    assert_eq!(x.set_bits(8, 16, 0x12), 0xDEAD_12EF);
    assert_eq!(0u64.set_bits(60, 64, 0xA), 0xA000_0000_0000_0000);
    assert_eq!(0xFFu8.bits(2, 5), 0b111);
    assert_eq!(0x1234u16.bits(4, 12), 0x23);
}

#[test]
fn psr_supervisor_decodes() {
    let psr = Psr::from_raw(0x0000_0013);
    assert_eq!(psr.mode(), CpuMode::Supervisor);
    assert_eq!(psr.state(), CpuState::Arm);
    assert!(!psr.irq_disabled());
    assert!(!psr.fiq_disabled());
    assert!(!psr.sign());
    assert!(!psr.zero());
    assert!(!psr.carry());
    assert!(!psr.overflow());
}

#[test]
fn psr_flags_and_masks() {
    let psr = Psr::from_raw(0xF000_00F1);
    assert_eq!(psr.mode(), CpuMode::Fiq);
    assert_eq!(psr.state(), CpuState::Thumb);
    assert!(psr.irq_disabled() && psr.fiq_disabled());
    assert!(psr.sign() && psr.zero() && psr.carry() && psr.overflow());
    let psr = Psr::from_raw(0x4000_0010);
    assert!(psr.zero() && !psr.sign() && !psr.carry() && !psr.overflow());
}

#[test]
fn psr_mode_valid_patterns_only() {
    let valid: [u32; 7] = [0b10000, 0b10001, 0b10010, 0b10011, 0b10111, 0b11011, 0b11111];
    for p in 0u32..32 {
        let psr = Psr::from_raw(0xFFFF_FF00 | p);
        let r = psr.try_mode();
        if valid.contains(&p) {
            assert!(r.is_ok(), "pattern {:05b}", p);
            assert_eq!(r.unwrap().bits() as u32, p);
        } else {
            assert_eq!(r, Err(InvalidCpuMode { bits: p as u8 }));
        }
    }
}

#[test]
fn cpu_mode_bits_round_trip() {
    let modes = [
        CpuMode::User,
        CpuMode::Fiq,
        CpuMode::Irq,
        CpuMode::Supervisor,
        CpuMode::Abort,
        CpuMode::Undefined,
        CpuMode::System,
    ];
    for m in modes {
        assert_eq!(CpuMode::from_bits(m.bits()), Ok(m));
    }
    assert_eq!(CpuMode::System.name(), "SYS");
    assert_eq!(CpuMode::Supervisor.name(), "SVC");
    assert_eq!(CpuMode::from_bits(0), Err(InvalidCpuMode { bits: 0 }));
}

#[test]
fn cpu_state_bool_conversion() {
    assert_eq!(CpuState::from(true), CpuState::Thumb);
    assert_eq!(CpuState::from(false), CpuState::Arm);
    assert!(bool::from(CpuState::Thumb));
    assert!(!bool::from(CpuState::Arm));
    for b in [false, true] {
        assert_eq!(bool::from(CpuState::from(b)), b);
    }
    assert_eq!(CpuState::Thumb.name(), "THUMB");
}

fn expected(code: u8, n: bool, z: bool, c: bool, v: bool) -> bool {
    match code {
        0x0 => z,
        0x1 => !z,
        0x2 => c,
        0x3 => !c,
        0x4 => n,
        0x5 => !n,
        0x6 => v,
        0x7 => !v,
        0x8 => c && !z,
        0x9 => !c || z,
        0xA => n == v,
        0xB => n != v,
        0xC => !z && n == v,
        0xD => z || n != v,
        0xE => true,
        _ => false,
    }
}

#[test]
fn condition_truth_table() {
    let mut count = 0;
    for flags in 0u32..16 {
        let (n, z, c, v) = (flags & 8 != 0, flags & 4 != 0, flags & 2 != 0, flags & 1 != 0);
        let psr = Psr::from_raw((flags << 28) | 0x10);
        for code in 0u8..16 {
            let cond = Cond::from_bits(code).unwrap();
            assert_eq!(cond.holds(n, z, c, v), expected(code, n, z, c, v));
            assert_eq!(psr.satisfies(cond), expected(code, n, z, c, v));
            count += 1;
        }
    }
    assert_eq!(count, 256);
    assert_eq!(Cond::from_bits(16), None);
    assert_eq!(Cond::from_bits(0xF), Some(Cond::Invalid));
}

#[test]
fn psr_setters() {
    let psr = Psr::from_raw(0x10);
    let p = psr.with_mode(CpuMode::Irq).with_state(CpuState::Thumb).with_irq_disabled(true);
    assert_eq!(p.raw(), 0xB2);
    let p = p.with_sign_zero(true, false).with_carry_overflow(false, true);
    assert_eq!(p.raw(), 0x9000_00B2);
    assert_eq!(p.with_fiq_disabled(true).raw(), 0x9000_00F2);
    assert_eq!(Psr::default().raw(), 0);
}
