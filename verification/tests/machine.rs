use disco_gb::cpu::{Cpu, CpuError};
use disco_gb::interrupts::vblank_interrupt_handler;
use disco_gb::lookup::{lookup, lookup_prefix, InstructionAccess};
use disco_gb::memory::Memory;
use disco_gb::prefixed::prefix;

#[test]
fn new_cpu_starts_zeroed_with_interrupts_enabled() {
    let cpu = Cpu::new();
    assert_eq!(cpu.pc, 0);
    assert_eq!(cpu.sp, 0);
    assert_eq!(cpu.div_ctrl, 0);
    assert!(cpu.ime);
    assert_eq!(cpu.regs.af(), 0);
    assert_eq!(cpu.regs.bc(), 0);
    assert_eq!(cpu.regs.de(), 0);
    assert_eq!(cpu.regs.hl(), 0);
}

#[test]
fn base_lookup_classifies_defined_opcodes() {
    assert_eq!(lookup(0x00), Some(InstructionAccess::Cpu));
    assert_eq!(lookup(0x06), Some(InstructionAccess::CpuWithMemory));
    assert_eq!(lookup(0xcb), Some(InstructionAccess::CpuWithMemory));
    assert_eq!(lookup(0xd9), Some(InstructionAccess::CpuWithMemory));
    assert_eq!(lookup(0xfb), Some(InstructionAccess::Cpu));
    assert_eq!(lookup(0xd3), None);
    assert_eq!(lookup(0x01), None);
}

#[test]
fn prefix_lookup_covers_the_rotate_rows_and_bit7_h() {
    assert_eq!(lookup_prefix(0x00), Some(InstructionAccess::Cpu));
    assert_eq!(lookup_prefix(0x06), Some(InstructionAccess::CpuWithMemory));
    assert_eq!(lookup_prefix(0x7c), Some(InstructionAccess::Cpu));
    assert_eq!(lookup_prefix(0x12), None);
    assert_eq!(lookup_prefix(0xff), None);
}

#[test]
fn step_executes_one_instruction_and_advances_pc() {
    let mut cpu = Cpu::new();
    let mut memory = Memory::new();
    cpu.ime = false;
    memory.write_byte(0x0000, 0x3e); // LD A, 0x42
    memory.write_byte(0x0001, 0x42);
    let result = cpu.step(&mut memory);
    assert_eq!(result, Ok(()));
    assert_eq!(cpu.regs.a, 0x42);
    assert_eq!(cpu.pc, 0x0002);
    assert_eq!(cpu.div_ctrl, 8);
}

#[test]
fn undefined_opcode_reports_the_byte_and_changes_nothing() {
    let mut cpu = Cpu::new();
    let mut memory = Memory::new();
    cpu.pc = 0x0123;
    cpu.sp = 0x8000;
    memory.write_byte(0x0123, 0xd3);
    let before_cpu = cpu;
    let before_bytes = memory.bytes.clone();
    let result = cpu.step(&mut memory);
    assert_eq!(result, Err(CpuError::UnimplementedOpcode(0xd3)));
    assert_eq!(cpu, before_cpu);
    assert_eq!(memory.bytes, before_bytes);
}

#[test]
fn undefined_prefixed_opcode_reports_the_byte_and_changes_nothing() {
    let mut cpu = Cpu::new();
    let mut memory = Memory::new();
    memory.write_byte(0x0000, 0xcb);
    memory.write_byte(0x0001, 0x12);
    let before_cpu = cpu;
    let before_bytes = memory.bytes.clone();
    let result = cpu.step(&mut memory);
    assert_eq!(result, Err(CpuError::UnimplementedPrefixedOpcode(0x12)));
    assert_eq!(cpu, before_cpu);
    assert_eq!(memory.bytes, before_bytes);
}

#[test]
fn prefixed_step_charges_the_prefix_fetch_on_top() {
    let mut cpu = Cpu::new();
    let mut memory = Memory::new();
    cpu.ime = false;
    cpu.regs.c = 0x85;
    memory.write_byte(0x0000, 0xcb);
    memory.write_byte(0x0001, 0x11); // RL C
    let result = cpu.step(&mut memory);
    assert_eq!(result, Ok(()));
    assert_eq!(cpu.regs.c, 0x0a);
    assert_eq!(cpu.pc, 0x0002);
    assert_eq!(cpu.div_ctrl, 8); // 4 for the prefix fetch, 4 for RL C
}

#[test]
fn prefix_alone_rejects_an_unknown_second_byte() {
    let mut cpu = Cpu::new();
    let mut memory = Memory::new();
    memory.write_byte(0x0000, 0x13);
    let before_cpu = cpu;
    let result = prefix(&mut cpu, &mut memory);
    assert_eq!(result, Err(CpuError::UnimplementedPrefixedOpcode(0x13)));
    assert_eq!(cpu, before_cpu);
}

#[test]
fn interrupt_priority_services_vblank_before_lcd_stat() {
    let mut cpu = Cpu::new();
    let mut memory = Memory::new();
    cpu.sp = 0xff00;
    memory.write_byte(0xff0f, 0b0000_0011); // V-Blank and LCD-STAT pending
    memory.write_byte(0xffff, 0b0000_0011); // both enabled
    // NOP at 0x0000; the interrupt check after it must pick bit 0.
    let result = cpu.step(&mut memory);
    assert_eq!(result, Ok(()));
    assert_eq!(cpu.pc, 0x0040); // the V-Blank vector
    assert!(!cpu.ime);
    assert_eq!(memory.read_byte(0xff0f), 0b0000_0010); // only bit 0 cleared
    assert_eq!(cpu.sp, 0xfefe);
    // The pushed return address is the PC after the NOP.
    assert_eq!(memory.read_byte(0xfeff), 0x00);
    assert_eq!(memory.read_byte(0xfefe), 0x01);
    assert_eq!(cpu.div_ctrl, 24); // 4 for NOP, 20 for the dispatch
}

#[test]
fn masked_or_disabled_interrupts_are_not_serviced() {
    let mut cpu = Cpu::new();
    let mut memory = Memory::new();
    memory.write_byte(0xff0f, 0b0000_0001);
    memory.write_byte(0xffff, 0b0000_0000); // pending but not enabled
    let result = cpu.step(&mut memory);
    assert_eq!(result, Ok(()));
    assert_eq!(cpu.pc, 0x0001);
    assert!(cpu.ime);

    let mut cpu = Cpu::new();
    cpu.ime = false;
    memory.write_byte(0xffff, 0b0000_0001);
    let result = cpu.step(&mut memory);
    assert_eq!(result, Ok(()));
    assert_eq!(cpu.pc, 0x0001); // IME off: no dispatch
    assert_eq!(memory.read_byte(0xff0f), 0b0000_0001);
}

#[test]
fn lower_priority_interrupt_is_serviced_when_higher_ones_are_clear() {
    let mut cpu = Cpu::new();
    let mut memory = Memory::new();
    cpu.sp = 0xff00;
    memory.write_byte(0xff0f, 0b0001_0100); // Timer and Joypad pending
    memory.write_byte(0xffff, 0b0001_0100);
    let result = cpu.step(&mut memory);
    assert_eq!(result, Ok(()));
    assert_eq!(cpu.pc, 0x0050); // the Timer vector wins over Joypad
    assert_eq!(memory.read_byte(0xff0f), 0b0001_0000);
}

#[test]
fn vblank_handler_performs_the_dispatch_protocol() {
    let mut cpu = Cpu::new();
    let mut memory = Memory::new();
    cpu.pc = 0x1234;
    cpu.sp = 0xc000;
    memory.write_byte(0xff0f, 0b0001_1111);
    vblank_interrupt_handler(&mut cpu, &mut memory);
    assert!(!cpu.ime);
    assert_eq!(memory.read_byte(0xff0f), 0b0001_1110);
    assert_eq!(cpu.pc, 0x0040);
    assert_eq!(cpu.sp, 0xbffe);
    assert_eq!(memory.read_byte(0xbfff), 0x12);
    assert_eq!(memory.read_byte(0xbffe), 0x34);
    assert_eq!(cpu.div_ctrl, 20);
}

#[test]
fn divider_increments_once_every_256_cycles() {
    let mut cpu = Cpu::new();
    let mut memory = Memory::new();
    cpu.ime = false;
    // 64 NOPs accumulate exactly 256 T-cycles.
    for _ in 0..63 {
        assert_eq!(cpu.step(&mut memory), Ok(()));
    }
    assert_eq!(memory.read_byte(0xff04), 0);
    assert_eq!(cpu.div_ctrl, 252);
    assert_eq!(cpu.step(&mut memory), Ok(()));
    assert_eq!(memory.read_byte(0xff04), 1);
    assert_eq!(cpu.div_ctrl, 0);
    // The next 64 NOPs tick it again.
    for _ in 0..64 {
        assert_eq!(cpu.step(&mut memory), Ok(()));
    }
    assert_eq!(memory.read_byte(0xff04), 2);
}

#[test]
fn divider_wraps_from_ff_to_zero() {
    let mut cpu = Cpu::new();
    let mut memory = Memory::new();
    cpu.ime = false;
    memory.write_byte(0xff04, 0xff);
    for _ in 0..64 {
        assert_eq!(cpu.step(&mut memory), Ok(()));
    }
    assert_eq!(memory.read_byte(0xff04), 0x00);
}

#[test]
fn run_stops_at_the_first_decode_failure() {
    let mut cpu = Cpu::new();
    let mut memory = Memory::new();
    cpu.ime = false;
    memory.write_byte(0x0000, 0x3e); // LD A, 0x07
    memory.write_byte(0x0001, 0x07);
    memory.write_byte(0x0002, 0x04); // INC B
    memory.write_byte(0x0003, 0xd3); // undefined
    let result = cpu.run(&mut memory, 100);
    assert_eq!(result, Some(CpuError::UnimplementedOpcode(0xd3)));
    assert_eq!(cpu.regs.a, 0x07);
    assert_eq!(cpu.regs.b, 0x01);
    assert_eq!(cpu.pc, 0x0003);
}

#[test]
fn run_honours_its_step_budget() {
    let mut cpu = Cpu::new();
    let mut memory = Memory::new();
    cpu.ime = false;
    // All zeroes: an endless run of NOPs.
    let result = cpu.run(&mut memory, 10);
    assert_eq!(result, None);
    assert_eq!(cpu.pc, 0x000a);
    assert_eq!(cpu.div_ctrl, 40);
}

#[test]
fn call_then_ret_through_step_restores_pc_and_sp() {
    let mut cpu = Cpu::new();
    let mut memory = Memory::new();
    cpu.ime = false;
    cpu.pc = 0x0200;
    cpu.sp = 0xfffe;
    memory.write_byte(0x0200, 0xcd); // CALL 0x0150
    memory.write_byte(0x0201, 0x50);
    memory.write_byte(0x0202, 0x01);
    memory.write_byte(0x0150, 0xc9); // RET
    assert_eq!(cpu.step(&mut memory), Ok(()));
    assert_eq!(cpu.pc, 0x0150);
    assert_eq!(cpu.step(&mut memory), Ok(()));
    assert_eq!(cpu.pc, 0x0203);
    assert_eq!(cpu.sp, 0xfffe);
}

#[test]
fn ei_enables_interrupts_only_after_the_following_instruction() {
    let mut cpu = Cpu::new();
    let mut memory = Memory::new();
    cpu.ime = false;
    cpu.sp = 0xff00;
    memory.write_byte(0xff0f, 0b0000_0001); // V-Blank pending
    memory.write_byte(0xffff, 0b0000_0001); // and enabled
    memory.write_byte(0x0000, 0xfb); // EI
    // The step executing EI must not dispatch yet.
    assert_eq!(cpu.step(&mut memory), Ok(()));
    assert!(!cpu.ime);
    assert_eq!(cpu.pc, 0x0001);
    assert_eq!(memory.read_byte(0xff0f), 0b0000_0001);
    // After the following instruction (a NOP) IME is on and the pending
    // interrupt is dispatched.
    assert_eq!(cpu.step(&mut memory), Ok(()));
    assert!(!cpu.ime); // cleared again by the dispatch itself
    assert_eq!(cpu.pc, 0x0040);
    assert_eq!(memory.read_byte(0xff0f), 0b0000_0000);
}

#[test]
fn di_cancels_a_pending_enable() {
    let mut cpu = Cpu::new();
    let mut memory = Memory::new();
    cpu.ime = false;
    memory.write_byte(0xff0f, 0b0000_0001);
    memory.write_byte(0xffff, 0b0000_0001);
    memory.write_byte(0x0000, 0xfb); // EI
    memory.write_byte(0x0001, 0xf3); // DI, the very next instruction
    assert_eq!(cpu.step(&mut memory), Ok(()));
    assert_eq!(cpu.step(&mut memory), Ok(()));
    assert!(!cpu.ime);
    // No dispatch happened on either step.
    assert_eq!(cpu.pc, 0x0002);
    assert_eq!(memory.read_byte(0xff0f), 0b0000_0001);
}

#[test]
fn reti_returns_and_restores_the_master_enable() {
    let mut cpu = Cpu::new();
    let mut memory = Memory::new();
    cpu.ime = false;
    cpu.pc = 0x0040;
    cpu.sp = 0xfffc;
    memory.write_byte(0xfffc, 0x03); // return address 0x0203, low byte first
    memory.write_byte(0xfffd, 0x02);
    memory.write_byte(0x0040, 0xd9); // RETI
    assert_eq!(cpu.step(&mut memory), Ok(()));
    assert_eq!(cpu.pc, 0x0203);
    assert_eq!(cpu.sp, 0xfffe);
    assert!(cpu.ime);
    assert_eq!(cpu.div_ctrl, 16);
}

#[test]
fn fetch_does_not_consume_and_consume_advances_pc() {
    let mut cpu = Cpu::new();
    let mut memory = Memory::new();
    memory.write_byte(0x0000, 0x55);
    assert_eq!(cpu.fetch_next_byte(&memory), 0x55);
    assert_eq!(cpu.pc, 0x0000);
    assert_eq!(cpu.consume_byte(&memory), 0x55);
    assert_eq!(cpu.pc, 0x0001);
}
