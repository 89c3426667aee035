use disco_gb::cpu::Cpu;
use disco_gb::instructions::{
    op_06, op_11, op_13, op_17, op_18, op_1a, op_20, op_21, op_22, op_23, op_28, op_31, op_32,
    op_4f, op_57, op_67, op_77, op_7b, op_7c, op_c1, op_c5, op_c9, op_cd, op_e0, op_e2, op_ea,
    op_f0, op_f3,
};
use disco_gb::memory::Memory;
use disco_gb::prefixed::{
    op_cb00, op_cb06, op_cb08, op_cb11, op_cb17, op_cb7c, op_op_cb0c,
};
use disco_gb::registers::Flags;

#[test]
fn ld_hl_u16_is_little_endian() {
    let mut cpu = Cpu::new();
    let mut memory = Memory::new();
    memory.write_byte(0x0000, 0x34);
    memory.write_byte(0x0001, 0x12);
    op_21(&mut cpu, &memory);
    assert_eq!(cpu.regs.hl(), 0x1234);
    assert_eq!(cpu.pc, 0x0002);
    assert_eq!(cpu.div_ctrl, 12);
}

#[test]
fn ld_de_and_sp_u16_are_little_endian() {
    let mut cpu = Cpu::new();
    let mut memory = Memory::new();
    memory.write_byte(0x0000, 0xcd);
    memory.write_byte(0x0001, 0xab);
    op_11(&mut cpu, &memory);
    assert_eq!(cpu.regs.de(), 0xabcd);

    let mut cpu = Cpu::new();
    memory.write_byte(0x0000, 0xfe);
    memory.write_byte(0x0001, 0xff);
    op_31(&mut cpu, &memory);
    assert_eq!(cpu.sp, 0xfffe);
}

#[test]
fn ld_r_u8_loads_the_operand_byte() {
    let mut cpu = Cpu::new();
    let mut memory = Memory::new();
    memory.write_byte(0x0000, 0x99);
    op_06(&mut cpu, &memory);
    assert_eq!(cpu.regs.b, 0x99);
    assert_eq!(cpu.pc, 0x0001);
    assert_eq!(cpu.regs.f, 0);
}

#[test]
fn register_moves_copy_without_flags() {
    let mut cpu = Cpu::new();
    cpu.regs.a = 0x7e;
    op_4f(&mut cpu);
    assert_eq!(cpu.regs.c, 0x7e);
    op_57(&mut cpu);
    assert_eq!(cpu.regs.d, 0x7e);
    op_67(&mut cpu);
    assert_eq!(cpu.regs.h, 0x7e);
    cpu.regs.e = 0x11;
    op_7b(&mut cpu);
    assert_eq!(cpu.regs.a, 0x11);
    cpu.regs.h = 0x22;
    op_7c(&mut cpu);
    assert_eq!(cpu.regs.a, 0x22);
    assert_eq!(cpu.regs.f, 0);
}

#[test]
fn inc_de_and_hl_wrap_without_flags() {
    let mut cpu = Cpu::new();
    cpu.regs.set_de(0xffff);
    cpu.regs.set_flags(Flags::C);
    op_13(&mut cpu);
    assert_eq!(cpu.regs.de(), 0x0000);
    assert!(cpu.regs.is_flag_set(Flags::C));

    cpu.regs.set_hl(0x00ff);
    op_23(&mut cpu);
    assert_eq!(cpu.regs.hl(), 0x0100);
}

#[test]
fn jr_with_negative_offset_jumps_backwards() {
    let mut cpu = Cpu::new();
    let mut memory = Memory::new();
    cpu.pc = 0x0101;
    memory.write_byte(0x0101, 0xfe); // -2, consumed leaving PC at 0x0102
    op_18(&mut cpu, &memory);
    assert_eq!(cpu.pc, 0x0100);
}

#[test]
fn jr_with_positive_offset_jumps_forwards() {
    let mut cpu = Cpu::new();
    let mut memory = Memory::new();
    cpu.pc = 0x0200;
    memory.write_byte(0x0200, 0x05);
    op_18(&mut cpu, &memory);
    assert_eq!(cpu.pc, 0x0206);
}

#[test]
fn jr_nz_taken_and_not_taken_charge_different_costs() {
    let mut cpu = Cpu::new();
    let mut memory = Memory::new();
    memory.write_byte(0x0000, 0x10);
    op_20(&mut cpu, &memory); // Z clear: taken
    assert_eq!(cpu.pc, 0x0011);
    assert_eq!(cpu.div_ctrl, 12);

    let mut cpu = Cpu::new();
    cpu.regs.set_flags(Flags::Z);
    op_20(&mut cpu, &memory); // Z set: not taken
    assert_eq!(cpu.pc, 0x0001);
    assert_eq!(cpu.div_ctrl, 8);
}

#[test]
fn jr_z_jumps_only_when_zero_is_set() {
    let mut cpu = Cpu::new();
    let mut memory = Memory::new();
    memory.write_byte(0x0000, 0x10);
    cpu.regs.set_flags(Flags::Z);
    op_28(&mut cpu, &memory);
    assert_eq!(cpu.pc, 0x0011);
    assert_eq!(cpu.div_ctrl, 12);

    let mut cpu = Cpu::new();
    op_28(&mut cpu, &memory);
    assert_eq!(cpu.pc, 0x0001);
    assert_eq!(cpu.div_ctrl, 8);
}

#[test]
fn ld_a_de_reads_memory() {
    let mut cpu = Cpu::new();
    let mut memory = Memory::new();
    cpu.regs.set_de(0x8123);
    memory.write_byte(0x8123, 0x5a);
    op_1a(&mut cpu, &memory);
    assert_eq!(cpu.regs.a, 0x5a);
}

#[test]
fn ld_hl_plus_and_minus_store_then_move_hl() {
    let mut cpu = Cpu::new();
    let mut memory = Memory::new();
    cpu.regs.a = 0x77;
    cpu.regs.set_hl(0x9000);
    op_22(&mut cpu, &mut memory);
    assert_eq!(memory.read_byte(0x9000), 0x77);
    assert_eq!(cpu.regs.hl(), 0x9001);

    op_32(&mut cpu, &mut memory);
    assert_eq!(memory.read_byte(0x9001), 0x77);
    assert_eq!(cpu.regs.hl(), 0x9000);

    cpu.regs.a = 0x12;
    op_77(&mut cpu, &mut memory);
    assert_eq!(memory.read_byte(0x9000), 0x12);
    assert_eq!(cpu.regs.hl(), 0x9000);
}

#[test]
fn io_page_loads_and_stores_use_the_ff00_base() {
    let mut cpu = Cpu::new();
    let mut memory = Memory::new();
    cpu.regs.a = 0xaa;
    memory.write_byte(0x0000, 0x47); // offset operand
    op_e0(&mut cpu, &mut memory);
    assert_eq!(memory.read_byte(0xff47), 0xaa);

    cpu.regs.c = 0x26;
    op_e2(&mut cpu, &mut memory);
    assert_eq!(memory.read_byte(0xff26), 0xaa);

    let mut cpu = Cpu::new();
    memory.write_byte(0x0000, 0x47);
    op_f0(&mut cpu, &memory);
    assert_eq!(cpu.regs.a, 0xaa);
}

#[test]
fn ld_absolute_stores_a_at_the_little_endian_address() {
    let mut cpu = Cpu::new();
    let mut memory = Memory::new();
    cpu.regs.a = 0x3c;
    memory.write_byte(0x0000, 0x00);
    memory.write_byte(0x0001, 0x80);
    op_ea(&mut cpu, &mut memory);
    assert_eq!(memory.read_byte(0x8000), 0x3c);
    assert_eq!(cpu.pc, 0x0002);
}

#[test]
fn di_clears_the_master_enable() {
    let mut cpu = Cpu::new();
    assert!(cpu.ime);
    op_f3(&mut cpu);
    assert!(!cpu.ime);
}

#[test]
fn push_bc_then_pop_bc_round_trips() {
    let mut cpu = Cpu::new();
    let mut memory = Memory::new();
    cpu.sp = 0x8000;
    cpu.regs.set_bc(0x1234);
    op_c5(&mut cpu, &mut memory);
    assert_eq!(cpu.sp, 0x7ffe);
    assert_eq!(memory.read_byte(0x7fff), 0x12); // high byte at the higher address
    assert_eq!(memory.read_byte(0x7ffe), 0x34);
    cpu.regs.set_bc(0x0000);
    op_c1(&mut cpu, &memory);
    assert_eq!(cpu.regs.bc(), 0x1234);
    assert_eq!(cpu.sp, 0x8000);
}

#[test]
fn call_pushes_the_return_address_and_ret_restores_it() {
    let mut cpu = Cpu::new();
    let mut memory = Memory::new();
    // CALL 0x0150 fetched at 0x0200: operands at 0x0201..0x0202.
    cpu.pc = 0x0201;
    cpu.sp = 0xfffe;
    memory.write_byte(0x0201, 0x50);
    memory.write_byte(0x0202, 0x01);
    op_cd(&mut cpu, &mut memory);
    assert_eq!(cpu.pc, 0x0150);
    assert_eq!(cpu.sp, 0xfffc);
    assert_eq!(memory.read_byte(0xfffd), 0x02); // high byte of 0x0203
    assert_eq!(memory.read_byte(0xfffc), 0x03); // low byte of 0x0203
    op_c9(&mut cpu, &memory);
    assert_eq!(cpu.pc, 0x0203);
    assert_eq!(cpu.sp, 0xfffe);
}

#[test]
fn rlc_b_rotates_bit_seven_into_carry_and_bit_zero() {
    let mut cpu = Cpu::new();
    cpu.regs.b = 0x85;
    op_cb00(&mut cpu);
    assert_eq!(cpu.regs.b, 0x0b);
    assert!(cpu.regs.is_flag_set(Flags::C));
    assert!(!cpu.regs.is_flag_set(Flags::Z));

    let mut cpu = Cpu::new();
    cpu.regs.b = 0x00;
    op_cb00(&mut cpu);
    assert_eq!(cpu.regs.b, 0x00);
    assert!(cpu.regs.is_flag_set(Flags::Z));
    assert!(!cpu.regs.is_flag_set(Flags::C));
}

#[test]
fn rrc_rotates_bit_zero_into_carry_and_bit_seven() {
    let mut cpu = Cpu::new();
    cpu.regs.b = 0x01;
    op_cb08(&mut cpu);
    assert_eq!(cpu.regs.b, 0x80);
    assert!(cpu.regs.is_flag_set(Flags::C));

    let mut cpu = Cpu::new();
    cpu.regs.h = 0x02;
    op_op_cb0c(&mut cpu);
    assert_eq!(cpu.regs.h, 0x01);
    assert!(!cpu.regs.is_flag_set(Flags::C));
}

#[test]
fn rlc_hl_rotates_the_byte_in_memory() {
    let mut cpu = Cpu::new();
    let mut memory = Memory::new();
    cpu.regs.set_hl(0x9abc);
    memory.write_byte(0x9abc, 0x80);
    op_cb06(&mut cpu, &mut memory);
    assert_eq!(memory.read_byte(0x9abc), 0x01);
    assert!(cpu.regs.is_flag_set(Flags::C));
    assert_eq!(cpu.div_ctrl, 12);
}

#[test]
fn rl_shifts_the_old_carry_into_bit_zero() {
    let mut cpu = Cpu::new();
    cpu.regs.set_flags(Flags::C);
    cpu.regs.c = 0x80;
    op_cb11(&mut cpu);
    assert_eq!(cpu.regs.c, 0x01);
    assert!(cpu.regs.is_flag_set(Flags::C));
    assert!(!cpu.regs.is_flag_set(Flags::Z));

    let mut cpu = Cpu::new();
    cpu.regs.c = 0x80;
    op_cb11(&mut cpu); // no carry in: result is zero
    assert_eq!(cpu.regs.c, 0x00);
    assert!(cpu.regs.is_flag_set(Flags::Z));
    assert!(cpu.regs.is_flag_set(Flags::C));
}

#[test]
fn rla_clears_z_even_when_the_result_is_zero() {
    let mut cpu = Cpu::new();
    cpu.regs.a = 0x80;
    cpu.regs.set_flags(Flags::Z);
    op_17(&mut cpu);
    assert_eq!(cpu.regs.a, 0x00);
    assert!(!cpu.regs.is_flag_set(Flags::Z));
    assert!(cpu.regs.is_flag_set(Flags::C));

    // The prefixed RL A on the same input does set Z.
    let mut cpu = Cpu::new();
    cpu.regs.a = 0x80;
    op_cb17(&mut cpu);
    assert_eq!(cpu.regs.a, 0x00);
    assert!(cpu.regs.is_flag_set(Flags::Z));
}

#[test]
fn bit7_h_sets_z_iff_bit_seven_is_clear() {
    let mut cpu = Cpu::new();
    cpu.regs.h = 0x00;
    cpu.regs.set_flags(Flags::C);
    op_cb7c(&mut cpu);
    assert!(cpu.regs.is_flag_set(Flags::Z));
    assert!(cpu.regs.is_flag_set(Flags::H));
    assert!(!cpu.regs.is_flag_set(Flags::N));
    assert!(cpu.regs.is_flag_set(Flags::C)); // C untouched
    assert_eq!(cpu.regs.h, 0x00); // operand unmodified

    let mut cpu = Cpu::new();
    cpu.regs.h = 0x80;
    op_cb7c(&mut cpu);
    assert!(!cpu.regs.is_flag_set(Flags::Z));
    assert!(cpu.regs.is_flag_set(Flags::H));
    assert_eq!(cpu.regs.h, 0x80);
}
