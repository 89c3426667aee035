use disco_gb::cpu::Cpu;
use disco_gb::instructions::{dec_reg, op_04, op_05, op_80, op_90, op_af, op_fe};
use disco_gb::memory::Memory;
use disco_gb::registers::{Flags, Regs};

fn fresh_cpu() -> Cpu {
    Cpu::new()
}

#[test]
fn flag_constants_occupy_the_high_nibble() {
    assert_eq!(Flags::Z, 0x80);
    assert_eq!(Flags::N, 0x40);
    assert_eq!(Flags::H, 0x20);
    assert_eq!(Flags::C, 0x10);
}

#[test]
fn is_flag_set_requires_every_requested_bit() {
    let mut regs = Regs::zeroed();
    regs.set_f(0xb0); // Z, H, C
    assert!(regs.is_flag_set(Flags::Z));
    assert!(regs.is_flag_set(Flags::H));
    assert!(regs.is_flag_set(Flags::C));
    assert!(!regs.is_flag_set(Flags::N));
    assert!(regs.are_flags_set(Flags::Z | Flags::C));
    assert!(!regs.are_flags_set(Flags::Z | Flags::N));
}

#[test]
fn set_and_reset_flags_touch_only_the_requested_bits() {
    let mut regs = Regs::zeroed();
    regs.set_flags(Flags::Z | Flags::C);
    assert_eq!(regs.f(), 0x90);
    regs.set_flags(Flags::N);
    assert_eq!(regs.f(), 0xd0);
    regs.reset_flags(Flags::Z);
    assert_eq!(regs.f(), 0x50);
    regs.reset_flags(Flags::N | Flags::C);
    assert_eq!(regs.f(), 0x00);
}

#[test]
fn writes_to_f_clear_the_low_nibble() {
    let mut regs = Regs::zeroed();
    regs.set_f(0xff);
    assert_eq!(regs.f(), 0xf0);
    regs.set_af(0x12ff);
    assert_eq!(regs.a(), 0x12);
    assert_eq!(regs.f(), 0xf0);
    regs.set_flags(0x0f);
    assert_eq!(regs.f(), 0xf0);
}

#[test]
fn register_pairs_compose_high_byte_first() {
    let mut regs = Regs::zeroed();
    regs.set_b(0x12);
    regs.set_c(0x34);
    assert_eq!(regs.bc(), 0x1234);
    regs.set_de(0xbeef);
    assert_eq!(regs.d(), 0xbe);
    assert_eq!(regs.e(), 0xef);
    assert_eq!(regs.de(), 0xbeef);
    regs.set_hl(0x8000);
    assert_eq!(regs.h(), 0x80);
    assert_eq!(regs.l(), 0x00);
    assert_eq!(regs.hl(), 0x8000);
}

#[test]
fn inc_on_0f_sets_half_carry_and_clears_zero() {
    let mut cpu = fresh_cpu();
    cpu.regs.b = 0x0f;
    op_04(&mut cpu);
    assert_eq!(cpu.regs.b, 0x10);
    assert!(cpu.regs.is_flag_set(Flags::H));
    assert!(!cpu.regs.is_flag_set(Flags::Z));
    assert!(!cpu.regs.is_flag_set(Flags::N));
}

#[test]
fn inc_on_ff_wraps_to_zero_with_z_set() {
    let mut cpu = fresh_cpu();
    cpu.regs.b = 0xff;
    op_04(&mut cpu);
    assert_eq!(cpu.regs.b, 0x00);
    assert!(cpu.regs.is_flag_set(Flags::Z));
    // The low nibble of the operand was 0xf, so the nibble carry is set.
    assert!(cpu.regs.is_flag_set(Flags::H));
    assert!(!cpu.regs.is_flag_set(Flags::N));
}

#[test]
fn inc_preserves_the_carry_flag() {
    let mut cpu = fresh_cpu();
    cpu.regs.set_flags(Flags::C);
    cpu.regs.b = 0x41;
    op_04(&mut cpu);
    assert_eq!(cpu.regs.b, 0x42);
    assert!(cpu.regs.is_flag_set(Flags::C));
    assert_eq!(cpu.regs.f & 0x0f, 0);
}

#[test]
fn dec_on_10_sets_half_carry() {
    let mut cpu = fresh_cpu();
    cpu.regs.b = 0x10;
    op_05(&mut cpu);
    assert_eq!(cpu.regs.b, 0x0f);
    assert!(cpu.regs.is_flag_set(Flags::H));
    assert!(cpu.regs.is_flag_set(Flags::N));
    assert!(!cpu.regs.is_flag_set(Flags::Z));
}

#[test]
fn dec_on_01_reaches_zero_with_z_set_h_reset() {
    let mut cpu = fresh_cpu();
    cpu.regs.b = 0x01;
    op_05(&mut cpu);
    assert_eq!(cpu.regs.b, 0x00);
    assert!(cpu.regs.is_flag_set(Flags::Z));
    assert!(!cpu.regs.is_flag_set(Flags::H));
}

#[test]
fn dec_on_00_wraps_to_ff_with_half_carry() {
    let mut cpu = fresh_cpu();
    cpu.regs.b = 0x00;
    op_05(&mut cpu);
    assert_eq!(cpu.regs.b, 0xff);
    assert!(cpu.regs.is_flag_set(Flags::H));
    assert!(!cpu.regs.is_flag_set(Flags::Z));
}

#[test]
fn inc_then_dec_restores_the_value_and_z_tracks_the_second_op() {
    for v in 0..=255u8 {
        let mut cpu = fresh_cpu();
        cpu.regs.b = v;
        op_04(&mut cpu);
        op_05(&mut cpu);
        assert_eq!(cpu.regs.b, v);
        assert_eq!(cpu.regs.is_flag_set(Flags::Z), v == 0);
        let mut cpu2 = fresh_cpu();
        cpu2.regs.b = v;
        op_05(&mut cpu2);
        op_04(&mut cpu2);
        assert_eq!(cpu2.regs.b, v);
        assert_eq!(cpu2.regs.is_flag_set(Flags::Z), v == 0);
    }
}

#[test]
fn dec_reg_reports_value_and_flags() {
    let (v, f) = dec_reg(0x10);
    assert_eq!(v, 0x0f);
    assert_eq!(f, Flags::N | Flags::H);
    let (v, f) = dec_reg(0x01);
    assert_eq!(v, 0x00);
    assert_eq!(f, Flags::Z | Flags::N);
    let (v, f) = dec_reg(0x42);
    assert_eq!(v, 0x41);
    assert_eq!(f, Flags::N);
}

#[test]
fn inc_reg_updates_flags_and_returns_the_new_value() {
    let mut regs = Regs::zeroed();
    regs.set_flags(Flags::C);
    let v = regs.inc_reg(0x0f);
    assert_eq!(v, 0x10);
    assert!(regs.is_flag_set(Flags::H));
    assert!(regs.is_flag_set(Flags::C));
    assert!(!regs.is_flag_set(Flags::Z));
}

#[test]
fn add_a_b_half_carry_on_nibble_overflow() {
    let mut cpu = fresh_cpu();
    cpu.regs.a = 0x0f;
    cpu.regs.b = 0x01;
    op_80(&mut cpu);
    assert_eq!(cpu.regs.a, 0x10);
    assert!(cpu.regs.is_flag_set(Flags::H));
    assert!(!cpu.regs.is_flag_set(Flags::C));
    assert!(!cpu.regs.is_flag_set(Flags::Z));
    assert!(!cpu.regs.is_flag_set(Flags::N));
}

#[test]
fn add_a_b_full_carry_wraps_to_zero() {
    let mut cpu = fresh_cpu();
    cpu.regs.a = 0xff;
    cpu.regs.b = 0x01;
    op_80(&mut cpu);
    assert_eq!(cpu.regs.a, 0x00);
    assert!(cpu.regs.is_flag_set(Flags::Z));
    assert!(cpu.regs.is_flag_set(Flags::C));
    assert!(cpu.regs.is_flag_set(Flags::H));
}

#[test]
fn sub_a_b_sets_borrow_flags() {
    let mut cpu = fresh_cpu();
    cpu.regs.a = 0x10;
    cpu.regs.b = 0x01;
    op_90(&mut cpu);
    assert_eq!(cpu.regs.a, 0x0f);
    assert!(cpu.regs.is_flag_set(Flags::N));
    assert!(cpu.regs.is_flag_set(Flags::H));
    assert!(!cpu.regs.is_flag_set(Flags::C));

    let mut cpu = fresh_cpu();
    cpu.regs.a = 0x01;
    cpu.regs.b = 0x02;
    op_90(&mut cpu);
    assert_eq!(cpu.regs.a, 0xff);
    assert!(cpu.regs.is_flag_set(Flags::C));
    assert!(cpu.regs.is_flag_set(Flags::H));
    assert!(!cpu.regs.is_flag_set(Flags::Z));
}

#[test]
fn xor_a_a_zeroes_a_and_sets_only_z() {
    let mut cpu = fresh_cpu();
    cpu.regs.a = 0x5a;
    cpu.regs.set_flags(Flags::N | Flags::H | Flags::C);
    op_af(&mut cpu);
    assert_eq!(cpu.regs.a, 0x00);
    assert_eq!(cpu.regs.f, Flags::Z);
}

#[test]
fn cp_compares_without_changing_a() {
    let mut cpu = fresh_cpu();
    let mut memory = Memory::new();
    cpu.regs.a = 0x42;
    memory.write_byte(0x0000, 0x42);
    op_fe(&mut cpu, &memory);
    assert_eq!(cpu.regs.a, 0x42);
    assert!(cpu.regs.is_flag_set(Flags::Z));
    assert!(cpu.regs.is_flag_set(Flags::N));

    let mut cpu = fresh_cpu();
    let mut memory = Memory::new();
    cpu.regs.a = 0x10;
    memory.write_byte(0x0000, 0x20);
    op_fe(&mut cpu, &memory);
    assert_eq!(cpu.regs.a, 0x10);
    assert!(cpu.regs.is_flag_set(Flags::C));
    assert!(!cpu.regs.is_flag_set(Flags::Z));
}
