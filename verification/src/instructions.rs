//! The base opcode space: one spec function per instruction shape giving its
//! exact effect on the CPU and memory, and two executable forms per opcode.
//! `opcode_xx` performs the architectural operation and reports its T-cycle
//! cost; `op_xx` performs it and charges the cost to the divider-timer
//! accumulator. The program counter has already consumed the opcode byte
//! when these run; operand bytes are fetched here, low byte first.

use vstd::prelude::*;
use crate::alu::{
    add8, add_carry, add_half_carry, compose16, dec8, dec16, hi8, inc8, inc16, jr_target,
    lemma_split_compose, lo8, rl8, sub8, sub_borrow, sub_half_borrow, bit7,
};
use crate::cpu::Cpu;
use crate::memory::Memory;
use crate::registers::{c_set, flag_byte, get8, get16, with8, with16, z_set, Flags, Regs, R16, R8};

verus! {

/// The CPU with `cost` T-cycles charged to the divider accumulator.
pub open spec fn with_cost(cpu: Cpu, cost: u16) -> Cpu {
    Cpu { div_ctrl: (cpu.div_ctrl + cost) as u16, ..cpu }
}

/// NOP: only the cycle cost is charged.
pub open spec fn spec_nop(cpu: Cpu, cost: u16) -> Cpu {
    with_cost(cpu, cost)
}

/// INC r: the register wraps up by one; Z iff the result is zero, N reset,
/// H iff the low nibble of the operand was 0xf, C preserved.
pub open spec fn spec_inc_r(cpu: Cpu, r: R8, cost: u16) -> Cpu {
    let v = get8(cpu.regs, r);
    let regs = Regs {
        f: flag_byte(inc8(v) == 0, false, v % 16 == 15, c_set(cpu.regs.f)),
        ..with8(cpu.regs, r, inc8(v))
    };
    with_cost(Cpu { regs, ..cpu }, cost)
}

/// DEC r: the register wraps down by one; Z iff the result is zero, N set,
/// H iff the low nibble of the operand was 0x0, C preserved.
pub open spec fn spec_dec_r(cpu: Cpu, r: R8, cost: u16) -> Cpu {
    let v = get8(cpu.regs, r);
    let regs = Regs {
        f: flag_byte(dec8(v) == 0, true, v % 16 == 0, c_set(cpu.regs.f)),
        ..with8(cpu.regs, r, dec8(v))
    };
    with_cost(Cpu { regs, ..cpu }, cost)
}

/// LD r, d8: the register is loaded with the operand byte; no flags change.
pub open spec fn spec_ld_r_imm(cpu: Cpu, mem: Seq<u8>, r: R8, cost: u16) -> Cpu {
    let d = mem[cpu.pc as int];
    with_cost(Cpu { regs: with8(cpu.regs, r, d), pc: inc16(cpu.pc), ..cpu }, cost)
}

/// LD dst, src between two 8-bit registers; no flags change.
pub open spec fn spec_ld_r_r(cpu: Cpu, dst: R8, src: R8, cost: u16) -> Cpu {
    with_cost(Cpu { regs: with8(cpu.regs, dst, get8(cpu.regs, src)), ..cpu }, cost)
}

/// LD rr, d16: the pair is loaded with the two operand bytes, the first
/// fetched byte being the low byte; no flags change.
pub open spec fn spec_ld_rr_imm(cpu: Cpu, mem: Seq<u8>, rr: R16, cost: u16) -> Cpu {
    let lo = mem[cpu.pc as int];
    let hi = mem[inc16(cpu.pc) as int];
    with_cost(
        Cpu {
            regs: with16(cpu.regs, rr, compose16(hi, lo)),
            pc: inc16(inc16(cpu.pc)),
            ..cpu
        },
        cost,
    )
}

/// LD SP, d16: the stack pointer is loaded little-endian from the two
/// operand bytes; no flags change.
pub open spec fn spec_ld_sp_imm(cpu: Cpu, mem: Seq<u8>, cost: u16) -> Cpu {
    let lo = mem[cpu.pc as int];
    let hi = mem[inc16(cpu.pc) as int];
    with_cost(Cpu { sp: compose16(hi, lo), pc: inc16(inc16(cpu.pc)), ..cpu }, cost)
}

/// INC rr: 16-bit wraparound increment of a pair; no flags change.
pub open spec fn spec_inc_rr(cpu: Cpu, rr: R16, cost: u16) -> Cpu {
    with_cost(Cpu { regs: with16(cpu.regs, rr, inc16(get16(cpu.regs, rr))), ..cpu }, cost)
}

/// RLA: A shifts left one bit, the old C flag enters bit 0 and the old bit 7
/// becomes the new C flag; Z, N and H are unconditionally reset.
pub open spec fn spec_rla(cpu: Cpu, cost: u16) -> Cpu {
    let a = cpu.regs.a;
    let regs = Regs {
        a: rl8(a, c_set(cpu.regs.f)),
        f: flag_byte(false, false, false, bit7(a)),
        ..cpu.regs
    };
    with_cost(Cpu { regs, ..cpu }, cost)
}

/// JR: the operand byte is a signed offset from the PC already advanced past
/// it. `cond` is `None` for the unconditional form, or `Some(want)` when the
/// jump is taken only if the Z flag equals `want`. Taken and not-taken
/// branches charge their own costs.
pub open spec fn spec_jr(cpu: Cpu, mem: Seq<u8>, cond: Option<bool>, cost_taken: u16, cost_not: u16) -> Cpu {
    let off = mem[cpu.pc as int];
    let pc1 = inc16(cpu.pc);
    let taken = match cond {
        None => true,
        Some(want) => z_set(cpu.regs.f) == want,
    };
    if taken {
        with_cost(Cpu { pc: jr_target(pc1, off), ..cpu }, cost_taken)
    } else {
        with_cost(Cpu { pc: pc1, ..cpu }, cost_not)
    }
}

/// LD A, (DE): A is loaded from the address in DE; no flags change.
pub open spec fn spec_ld_a_de(cpu: Cpu, mem: Seq<u8>, cost: u16) -> Cpu {
    with_cost(
        Cpu { regs: Regs { a: mem[cpu.regs.spec_de() as int], ..cpu.regs }, ..cpu },
        cost,
    )
}

/// The LD (HL), A family: A is stored at the address in HL, and HL is then
/// replaced by `new_hl` (unchanged, incremented or decremented).
pub open spec fn spec_ld_hl_a(cpu: Cpu, mem: Seq<u8>, new_hl: u16, cost: u16) -> (Cpu, Seq<u8>) {
    (
        with_cost(Cpu { regs: with16(cpu.regs, R16::HL, new_hl), ..cpu }, cost),
        mem.update(cpu.regs.spec_hl() as int, cpu.regs.a),
    )
}

/// ADD A, B: 8-bit wraparound sum into A; Z iff the result is zero, N reset,
/// H and C from the nibble and byte carries of the operands.
pub open spec fn spec_add_a_b(cpu: Cpu, cost: u16) -> Cpu {
    let a = cpu.regs.a;
    let b = cpu.regs.b;
    let regs = Regs {
        a: add8(a, b),
        f: flag_byte(add8(a, b) == 0, false, add_half_carry(a, b), add_carry(a, b)),
        ..cpu.regs
    };
    with_cost(Cpu { regs, ..cpu }, cost)
}

/// SUB A, B: 8-bit wraparound difference into A; Z iff the result is zero,
/// N set, H and C from the nibble and byte borrows of the operands.
pub open spec fn spec_sub_a_b(cpu: Cpu, cost: u16) -> Cpu {
    let a = cpu.regs.a;
    let b = cpu.regs.b;
    let regs = Regs {
        a: sub8(a, b),
        f: flag_byte(sub8(a, b) == 0, true, sub_half_borrow(a, b), sub_borrow(a, b)),
        ..cpu.regs
    };
    with_cost(Cpu { regs, ..cpu }, cost)
}

/// XOR A, A: A becomes zero; Z is set, N, H and C are reset.
pub open spec fn spec_xor_a_a(cpu: Cpu, cost: u16) -> Cpu {
    with_cost(
        Cpu {
            regs: Regs { a: 0, f: flag_byte(true, false, false, false), ..cpu.regs },
            ..cpu
        },
        cost,
    )
}

/// CP A, d8: the subtraction flags of A minus the operand byte, with the
/// numeric result discarded; A is unchanged.
pub open spec fn spec_cp_imm(cpu: Cpu, mem: Seq<u8>, cost: u16) -> Cpu {
    let a = cpu.regs.a;
    let d = mem[cpu.pc as int];
    let regs = Regs {
        f: flag_byte(sub8(a, d) == 0, true, sub_half_borrow(a, d), sub_borrow(a, d)),
        ..cpu.regs
    };
    with_cost(Cpu { regs, pc: inc16(cpu.pc), ..cpu }, cost)
}

/// Pushing a 16-bit value: SP decrements before each byte, the high byte is
/// written first so it ends at the higher address. Returns the new SP and
/// memory.
pub open spec fn spec_push16(sp: u16, mem: Seq<u8>, v: u16) -> (u16, Seq<u8>) {
    let sp1 = dec16(sp);
    let mem1 = mem.update(sp1 as int, hi8(v));
    let sp2 = dec16(sp1);
    (sp2, mem1.update(sp2 as int, lo8(v)))
}

/// Popping a 16-bit value: the low byte is read from SP first, SP increments
/// after each byte. Returns the new SP and the value.
pub open spec fn spec_pop16(sp: u16, mem: Seq<u8>) -> (u16, u16) {
    (inc16(inc16(sp)), compose16(mem[inc16(sp) as int], mem[sp as int]))
}

/// POP BC: C from the byte at SP, B from the byte above it; SP rises by two;
/// no flags change.
pub open spec fn spec_pop_bc(cpu: Cpu, mem: Seq<u8>, cost: u16) -> Cpu {
    let regs = Regs { b: mem[inc16(cpu.sp) as int], c: mem[cpu.sp as int], ..cpu.regs };
    with_cost(Cpu { regs, sp: inc16(inc16(cpu.sp)), ..cpu }, cost)
}

/// PUSH BC: B then C are pushed, so C ends at the lower (most recently
/// pushed) address; SP falls by two; no flags change.
pub open spec fn spec_push_bc(cpu: Cpu, mem: Seq<u8>, cost: u16) -> (Cpu, Seq<u8>) {
    let sp1 = dec16(cpu.sp);
    let mem1 = mem.update(sp1 as int, cpu.regs.b);
    let sp2 = dec16(sp1);
    (with_cost(Cpu { sp: sp2, ..cpu }, cost), mem1.update(sp2 as int, cpu.regs.c))
}

/// RET: PC is reconstructed little-endian from the two bytes popped at SP.
pub open spec fn spec_ret(cpu: Cpu, mem: Seq<u8>, cost: u16) -> Cpu {
    let (sp2, v) = spec_pop16(cpu.sp, mem);
    with_cost(Cpu { pc: v, sp: sp2, ..cpu }, cost)
}

/// CALL u16: the address of the byte after the two operand bytes is pushed
/// as the return address, then PC jumps to the little-endian operand.
pub open spec fn spec_call(cpu: Cpu, mem: Seq<u8>, cost: u16) -> (Cpu, Seq<u8>) {
    let lo = mem[cpu.pc as int];
    let hi = mem[inc16(cpu.pc) as int];
    let ret = inc16(inc16(cpu.pc));
    let (sp2, mem2) = spec_push16(cpu.sp, mem, ret);
    (with_cost(Cpu { pc: compose16(hi, lo), sp: sp2, ..cpu }, cost), mem2)
}

/// LD (FF00+d8), A: A is stored into the I/O page at the fixed base plus the
/// operand byte; the sum never leaves the 16-bit address space.
pub open spec fn spec_ldh_imm_a(cpu: Cpu, mem: Seq<u8>, cost: u16) -> (Cpu, Seq<u8>) {
    let off = mem[cpu.pc as int];
    (
        with_cost(Cpu { pc: inc16(cpu.pc), ..cpu }, cost),
        mem.update(0xff00 + off, cpu.regs.a),
    )
}

/// LD (FF00+C), A: A is stored into the I/O page at the fixed base plus C.
pub open spec fn spec_ldh_c_a(cpu: Cpu, mem: Seq<u8>, cost: u16) -> (Cpu, Seq<u8>) {
    (with_cost(cpu, cost), mem.update(0xff00 + cpu.regs.c, cpu.regs.a))
}

/// LD (u16), A: A is stored at the little-endian operand address.
pub open spec fn spec_ld_abs_a(cpu: Cpu, mem: Seq<u8>, cost: u16) -> (Cpu, Seq<u8>) {
    let lo = mem[cpu.pc as int];
    let hi = mem[inc16(cpu.pc) as int];
    (
        with_cost(Cpu { pc: inc16(inc16(cpu.pc)), ..cpu }, cost),
        mem.update(compose16(hi, lo) as int, cpu.regs.a),
    )
}

/// LD A, (FF00+d8): A is loaded from the I/O page at the fixed base plus the
/// operand byte.
pub open spec fn spec_ldh_a_imm(cpu: Cpu, mem: Seq<u8>, cost: u16) -> Cpu {
    let off = mem[cpu.pc as int];
    with_cost(
        Cpu {
            regs: Regs { a: mem[0xff00 + off], ..cpu.regs },
            pc: inc16(cpu.pc),
            ..cpu
        },
        cost,
    )
}

/// DI: the interrupt-master-enable flag is cleared immediately, and any
/// enable still pending from an earlier EI is cancelled.
pub open spec fn spec_di(cpu: Cpu, cost: u16) -> Cpu {
    with_cost(Cpu { ime: false, ime_delay: false, ..cpu }, cost)
}

/// EI: requests the interrupt-master-enable flag; it turns on only after
/// the completion of the following instruction.
pub open spec fn spec_ei(cpu: Cpu, cost: u16) -> Cpu {
    with_cost(Cpu { ime_delay: true, ..cpu }, cost)
}

/// RETI: returns as RET does and restores the interrupt-master-enable flag
/// immediately.
pub open spec fn spec_reti(cpu: Cpu, mem: Seq<u8>, cost: u16) -> Cpu {
    let (sp2, v) = spec_pop16(cpu.sp, mem);
    with_cost(Cpu { pc: v, sp: sp2, ime: true, ..cpu }, cost)
}

/// The effect of one defined, non-prefix base opcode on a CPU whose PC has
/// already consumed the opcode byte, cycle cost included.
pub open spec fn spec_exec_base(opcode: u8, cpu: Cpu, mem: Seq<u8>) -> (Cpu, Seq<u8>) {
    match opcode {
        0x00 => (spec_nop(cpu, 4), mem),
        0x04 => (spec_inc_r(cpu, R8::B, 4), mem),
        0x05 => (spec_dec_r(cpu, R8::B, 4), mem),
        0x06 => (spec_ld_r_imm(cpu, mem, R8::B, 8), mem),
        0x0c => (spec_inc_r(cpu, R8::C, 4), mem),
        0x0d => (spec_dec_r(cpu, R8::C, 4), mem),
        0x0e => (spec_ld_r_imm(cpu, mem, R8::C, 8), mem),
        0x11 => (spec_ld_rr_imm(cpu, mem, R16::DE, 12), mem),
        0x13 => (spec_inc_rr(cpu, R16::DE, 8), mem),
        0x15 => (spec_dec_r(cpu, R8::D, 4), mem),
        0x16 => (spec_ld_r_imm(cpu, mem, R8::D, 8), mem),
        0x17 => (spec_rla(cpu, 4), mem),
        0x18 => (spec_jr(cpu, mem, None, 12, 12), mem),
        0x1a => (spec_ld_a_de(cpu, mem, 8), mem),
        0x1d => (spec_dec_r(cpu, R8::E, 4), mem),
        0x1e => (spec_ld_r_imm(cpu, mem, R8::E, 8), mem),
        0x20 => (spec_jr(cpu, mem, Some(false), 12, 8), mem),
        0x21 => (spec_ld_rr_imm(cpu, mem, R16::HL, 12), mem),
        0x22 => spec_ld_hl_a(cpu, mem, inc16(cpu.regs.spec_hl()), 8),
        0x23 => (spec_inc_rr(cpu, R16::HL, 8), mem),
        0x24 => (spec_inc_r(cpu, R8::H, 4), mem),
        0x28 => (spec_jr(cpu, mem, Some(true), 12, 8), mem),
        0x31 => (spec_ld_sp_imm(cpu, mem, 12), mem),
        0x32 => spec_ld_hl_a(cpu, mem, dec16(cpu.regs.spec_hl()), 8),
        0x3d => (spec_dec_r(cpu, R8::A, 4), mem),
        0x3e => (spec_ld_r_imm(cpu, mem, R8::A, 8), mem),
        0x4f => (spec_ld_r_r(cpu, R8::C, R8::A, 4), mem),
        0x57 => (spec_ld_r_r(cpu, R8::D, R8::A, 4), mem),
        0x67 => (spec_ld_r_r(cpu, R8::H, R8::A, 4), mem),
        0x77 => spec_ld_hl_a(cpu, mem, cpu.regs.spec_hl(), 8),
        0x7b => (spec_ld_r_r(cpu, R8::A, R8::E, 4), mem),
        0x7c => (spec_ld_r_r(cpu, R8::A, R8::H, 4), mem),
        0x80 => (spec_add_a_b(cpu, 4), mem),
        0x90 => (spec_sub_a_b(cpu, 4), mem),
        0xaf => (spec_xor_a_a(cpu, 4), mem),
        0xc1 => (spec_pop_bc(cpu, mem, 12), mem),
        0xc5 => spec_push_bc(cpu, mem, 16),
        0xc9 => (spec_ret(cpu, mem, 16), mem),
        0xcd => spec_call(cpu, mem, 24),
        0xd9 => (spec_reti(cpu, mem, 16), mem),
        0xe0 => spec_ldh_imm_a(cpu, mem, 12),
        0xe2 => spec_ldh_c_a(cpu, mem, 8),
        0xea => spec_ld_abs_a(cpu, mem, 16),
        0xf0 => (spec_ldh_a_imm(cpu, mem, 12), mem),
        0xf3 => (spec_di(cpu, 4), mem),
        0xfb => (spec_ei(cpu, 4), mem),
        0xfe => (spec_cp_imm(cpu, mem, 8), mem),
        _ => (cpu, mem),
    }
}

/// Returns `register - 1` with 8-bit wraparound together with the flag bits
/// the 8-bit DEC instruction produces (Z, N and H; the caller keeps its own
/// C, which DEC never affects).
pub fn dec_reg(register: u8) -> (r: (u8, u8))
    ensures
        r.0 == dec8(register),
        r.1 == flag_byte(dec8(register) == 0, true, register % 16 == 0, false),
{
    let new_value: u8 = if register == 0 {
        0xff
    } else {
        register - 1
    };
    let mut new_flags: u8 = Flags::N;
    if new_value == 0 {
        new_flags = new_flags + Flags::Z;
    }
    if register % 16 == 0 {
        new_flags = new_flags + Flags::H;
    }
    (new_value, new_flags)
}

/// Shared step of the DEC opcodes: computes `v - 1` with wraparound and
/// writes the DEC flag byte (C preserved from the current flags), returning
/// the new value for the caller to store.
fn dec_with_flags(cpu: &mut Cpu, v: u8) -> (r: u8)
    ensures
        r == dec8(v),
        *final(cpu) == (Cpu {
            regs: Regs {
                f: flag_byte(dec8(v) == 0, true, v % 16 == 0, c_set(old(cpu).regs.f)),
                ..old(cpu).regs
            },
            ..*old(cpu)
        }),
{
    let (new_value, flags) = dec_reg(v);
    let new_flags: u8 = if cpu.regs.is_flag_set(Flags::C) {
        flags + Flags::C
    } else {
        flags
    };
    cpu.regs.f = new_flags;
    new_value
}

/* Base opcodes: architectural operation, reporting the T-cycle cost. */

/// NOP
pub fn opcode_00(cpu: &mut Cpu) -> (cost: u16)
    ensures
        *final(cpu) == spec_nop(*old(cpu), 0),
        cost == 4,
{
    4
}

/// INC B
pub fn opcode_04(cpu: &mut Cpu) -> (cost: u16)
    ensures
        *final(cpu) == spec_inc_r(*old(cpu), R8::B, 0),
        cost == 4,
{
    let v = cpu.regs.b;
    let new_value = cpu.regs.inc_reg(v);
    cpu.regs.b = new_value;
    4
}

/// DEC B
pub fn opcode_05(cpu: &mut Cpu) -> (cost: u16)
    ensures
        *final(cpu) == spec_dec_r(*old(cpu), R8::B, 0),
        cost == 4,
{
    let v = cpu.regs.b;
    let new_value = dec_with_flags(cpu, v);
    cpu.regs.b = new_value;
    4
}

/// LD B, u8
pub fn opcode_06(cpu: &mut Cpu, memory: &Memory) -> (cost: u16)
    requires
        memory.wf(),
    ensures
        *final(cpu) == spec_ld_r_imm(*old(cpu), memory@, R8::B, 0),
        cost == 8,
{
    let byte = cpu.consume_byte(memory);
    cpu.regs.b = byte;
    8
}

/// INC C
pub fn opcode_0c(cpu: &mut Cpu) -> (cost: u16)
    ensures
        *final(cpu) == spec_inc_r(*old(cpu), R8::C, 0),
        cost == 4,
{
    let v = cpu.regs.c;
    let new_value = cpu.regs.inc_reg(v);
    cpu.regs.c = new_value;
    4
}

/// DEC C
pub fn opcode_0d(cpu: &mut Cpu) -> (cost: u16)
    ensures
        *final(cpu) == spec_dec_r(*old(cpu), R8::C, 0),
        cost == 4,
{
    let v = cpu.regs.c;
    let new_value = dec_with_flags(cpu, v);
    cpu.regs.c = new_value;
    4
}

/// LD C, u8
pub fn opcode_0e(cpu: &mut Cpu, memory: &Memory) -> (cost: u16)
    requires
        memory.wf(),
    ensures
        *final(cpu) == spec_ld_r_imm(*old(cpu), memory@, R8::C, 0),
        cost == 8,
{
    let byte = cpu.consume_byte(memory);
    cpu.regs.c = byte;
    8
}

/// LD DE, u16
pub fn opcode_11(cpu: &mut Cpu, memory: &Memory) -> (cost: u16)
    requires
        memory.wf(),
    ensures
        *final(cpu) == spec_ld_rr_imm(*old(cpu), memory@, R16::DE, 0),
        cost == 12,
{
    let lower = cpu.consume_byte(memory);
    let upper = cpu.consume_byte(memory);
    cpu.regs.set_de((upper as u16) * 0x100 + (lower as u16));
    12
}

/// INC DE
pub fn opcode_13(cpu: &mut Cpu) -> (cost: u16)
    ensures
        *final(cpu) == spec_inc_rr(*old(cpu), R16::DE, 0),
        cost == 8,
{
    let new_de = cpu.regs.de().wrapping_add(1);
    cpu.regs.set_de(new_de);
    8
}

/// DEC D
pub fn opcode_15(cpu: &mut Cpu) -> (cost: u16)
    ensures
        *final(cpu) == spec_dec_r(*old(cpu), R8::D, 0),
        cost == 4,
{
    let v = cpu.regs.d;
    let new_value = dec_with_flags(cpu, v);
    cpu.regs.d = new_value;
    4
}

/// LD D, u8
pub fn opcode_16(cpu: &mut Cpu, memory: &Memory) -> (cost: u16)
    requires
        memory.wf(),
    ensures
        *final(cpu) == spec_ld_r_imm(*old(cpu), memory@, R8::D, 0),
        cost == 8,
{
    let byte = cpu.consume_byte(memory);
    cpu.regs.d = byte;
    8
}

/// RLA
pub fn opcode_17(cpu: &mut Cpu) -> (cost: u16)
    ensures
        *final(cpu) == spec_rla(*old(cpu), 0),
        cost == 4,
{
    let a = cpu.regs.a;
    let carry_in: u8 = if cpu.regs.is_flag_set(Flags::C) {
        1
    } else {
        0
    };
    cpu.regs.a = (a % 0x80) * 2 + carry_in;
    cpu.regs.f = if a >= 0x80 {
        Flags::C
    } else {
        0
    };
    4
}

/// JR i8
pub fn opcode_18(cpu: &mut Cpu, memory: &Memory) -> (cost: u16)
    requires
        memory.wf(),
    ensures
        *final(cpu) == spec_jr(*old(cpu), memory@, None, 0, 0),
        cost == 12,
{
    let offset = cpu.consume_byte(memory);
    let addend: u16 = if offset >= 0x80 {
        offset as u16 + 0xff00
    } else {
        offset as u16
    };
    cpu.pc = cpu.pc.wrapping_add(addend);
    12
}

/// LD A, (DE)
pub fn opcode_1a(cpu: &mut Cpu, memory: &Memory) -> (cost: u16)
    requires
        memory.wf(),
    ensures
        *final(cpu) == spec_ld_a_de(*old(cpu), memory@, 0),
        cost == 8,
{
    let addr = cpu.regs.de();
    cpu.regs.a = memory.read_byte(addr);
    8
}

/// DEC E
pub fn opcode_1d(cpu: &mut Cpu) -> (cost: u16)
    ensures
        *final(cpu) == spec_dec_r(*old(cpu), R8::E, 0),
        cost == 4,
{
    let v = cpu.regs.e;
    let new_value = dec_with_flags(cpu, v);
    cpu.regs.e = new_value;
    4
}

/// LD E, u8
pub fn opcode_1e(cpu: &mut Cpu, memory: &Memory) -> (cost: u16)
    requires
        memory.wf(),
    ensures
        *final(cpu) == spec_ld_r_imm(*old(cpu), memory@, R8::E, 0),
        cost == 8,
{
    let byte = cpu.consume_byte(memory);
    cpu.regs.e = byte;
    8
}

/// JR NZ, i8
pub fn opcode_20(cpu: &mut Cpu, memory: &Memory) -> (cost: u16)
    requires
        memory.wf(),
    ensures
        *final(cpu) == spec_jr(*old(cpu), memory@, Some(false), 0, 0),
        cost == (if z_set(old(cpu).regs.f) {
            8u16
        } else {
            12u16
        }),
{
    let offset = cpu.consume_byte(memory);
    if !cpu.regs.is_flag_set(Flags::Z) {
        let addend: u16 = if offset >= 0x80 {
            offset as u16 + 0xff00
        } else {
            offset as u16
        };
        cpu.pc = cpu.pc.wrapping_add(addend);
        12
    } else {
        8
    }
}

/// LD HL, u16
pub fn opcode_21(cpu: &mut Cpu, memory: &Memory) -> (cost: u16)
    requires
        memory.wf(),
    ensures
        *final(cpu) == spec_ld_rr_imm(*old(cpu), memory@, R16::HL, 0),
        cost == 12,
{
    let lower = cpu.consume_byte(memory);
    let upper = cpu.consume_byte(memory);
    cpu.regs.set_hl((upper as u16) * 0x100 + (lower as u16));
    12
}

/// LD (HL+), A
pub fn opcode_22(cpu: &mut Cpu, memory: &mut Memory) -> (cost: u16)
    requires
        old(memory).wf(),
    ensures
        final(memory).wf(),
        (*final(cpu), final(memory)@) == spec_ld_hl_a(
            *old(cpu),
            old(memory)@,
            inc16(old(cpu).regs.spec_hl()),
            0,
        ),
        cost == 8,
{
    let hl = cpu.regs.hl();
    memory.write_byte(hl, cpu.regs.a);
    cpu.regs.set_hl(hl.wrapping_add(1));
    8
}

/// INC HL
pub fn opcode_23(cpu: &mut Cpu) -> (cost: u16)
    ensures
        *final(cpu) == spec_inc_rr(*old(cpu), R16::HL, 0),
        cost == 8,
{
    let new_hl = cpu.regs.hl().wrapping_add(1);
    cpu.regs.set_hl(new_hl);
    8
}

/// INC H
pub fn opcode_24(cpu: &mut Cpu) -> (cost: u16)
    ensures
        *final(cpu) == spec_inc_r(*old(cpu), R8::H, 0),
        cost == 4,
{
    let v = cpu.regs.h;
    let new_value = cpu.regs.inc_reg(v);
    cpu.regs.h = new_value;
    4
}

/// JR Z, i8
pub fn opcode_28(cpu: &mut Cpu, memory: &Memory) -> (cost: u16)
    requires
        memory.wf(),
    ensures
        *final(cpu) == spec_jr(*old(cpu), memory@, Some(true), 0, 0),
        cost == (if z_set(old(cpu).regs.f) {
            12u16
        } else {
            8u16
        }),
{
    let offset = cpu.consume_byte(memory);
    if cpu.regs.is_flag_set(Flags::Z) {
        let addend: u16 = if offset >= 0x80 {
            offset as u16 + 0xff00
        } else {
            offset as u16
        };
        cpu.pc = cpu.pc.wrapping_add(addend);
        12
    } else {
        8
    }
}

/// LD SP, u16
pub fn opcode_31(cpu: &mut Cpu, memory: &Memory) -> (cost: u16)
    requires
        memory.wf(),
    ensures
        *final(cpu) == spec_ld_sp_imm(*old(cpu), memory@, 0),
        cost == 12,
{
    let lower = cpu.consume_byte(memory);
    let upper = cpu.consume_byte(memory);
    cpu.sp = (upper as u16) * 0x100 + (lower as u16);
    12
}

/// LD (HL-), A
pub fn opcode_32(cpu: &mut Cpu, memory: &mut Memory) -> (cost: u16)
    requires
        old(memory).wf(),
    ensures
        final(memory).wf(),
        (*final(cpu), final(memory)@) == spec_ld_hl_a(
            *old(cpu),
            old(memory)@,
            dec16(old(cpu).regs.spec_hl()),
            0,
        ),
        cost == 8,
{
    let hl = cpu.regs.hl();
    memory.write_byte(hl, cpu.regs.a);
    cpu.regs.set_hl(hl.wrapping_sub(1));
    8
}

/// DEC A
pub fn opcode_3d(cpu: &mut Cpu) -> (cost: u16)
    ensures
        *final(cpu) == spec_dec_r(*old(cpu), R8::A, 0),
        cost == 4,
{
    let v = cpu.regs.a;
    let new_value = dec_with_flags(cpu, v);
    cpu.regs.a = new_value;
    4
}

/// LD A, u8
pub fn opcode_3e(cpu: &mut Cpu, memory: &Memory) -> (cost: u16)
    requires
        memory.wf(),
    ensures
        *final(cpu) == spec_ld_r_imm(*old(cpu), memory@, R8::A, 0),
        cost == 8,
{
    let byte = cpu.consume_byte(memory);
    cpu.regs.a = byte;
    8
}

/// LD C, A
pub fn opcode_4f(cpu: &mut Cpu) -> (cost: u16)
    ensures
        *final(cpu) == spec_ld_r_r(*old(cpu), R8::C, R8::A, 0),
        cost == 4,
{
    cpu.regs.c = cpu.regs.a;
    4
}

/// LD D, A
pub fn opcode_57(cpu: &mut Cpu) -> (cost: u16)
    ensures
        *final(cpu) == spec_ld_r_r(*old(cpu), R8::D, R8::A, 0),
        cost == 4,
{
    cpu.regs.d = cpu.regs.a;
    4
}

/// LD H, A
pub fn opcode_67(cpu: &mut Cpu) -> (cost: u16)
    ensures
        *final(cpu) == spec_ld_r_r(*old(cpu), R8::H, R8::A, 0),
        cost == 4,
{
    cpu.regs.h = cpu.regs.a;
    4
}

/// LD (HL), A
pub fn opcode_77(cpu: &Cpu, memory: &mut Memory) -> (cost: u16)
    requires
        old(memory).wf(),
    ensures
        final(memory).wf(),
        final(memory)@ == old(memory)@.update(cpu.regs.spec_hl() as int, cpu.regs.a),
        cost == 8,
{
    let hl = cpu.regs.hl();
    memory.write_byte(hl, cpu.regs.a);
    8
}

/// LD A, E
pub fn opcode_7b(cpu: &mut Cpu) -> (cost: u16)
    ensures
        *final(cpu) == spec_ld_r_r(*old(cpu), R8::A, R8::E, 0),
        cost == 4,
{
    cpu.regs.a = cpu.regs.e;
    4
}

/// LD A, H
pub fn opcode_7c(cpu: &mut Cpu) -> (cost: u16)
    ensures
        *final(cpu) == spec_ld_r_r(*old(cpu), R8::A, R8::H, 0),
        cost == 4,
{
    cpu.regs.a = cpu.regs.h;
    4
}

/// ADD A, B
pub fn opcode_80(cpu: &mut Cpu) -> (cost: u16)
    ensures
        *final(cpu) == spec_add_a_b(*old(cpu), 0),
        cost == 4,
{
    let a = cpu.regs.a;
    let b = cpu.regs.b;
    let sum16: u16 = a as u16 + b as u16;
    let sum: u8 = if sum16 > 0xff {
        (sum16 - 0x100) as u8
    } else {
        sum16 as u8
    };
    let mut flags: u8 = 0;
    if sum == 0 {
        flags = flags + Flags::Z;
    }
    if a % 16 + b % 16 > 0xf {
        flags = flags + Flags::H;
    }
    if sum16 > 0xff {
        flags = flags + Flags::C;
    }
    cpu.regs.a = sum;
    cpu.regs.f = flags;
    4
}

/// SUB A, B
pub fn opcode_90(cpu: &mut Cpu) -> (cost: u16)
    ensures
        *final(cpu) == spec_sub_a_b(*old(cpu), 0),
        cost == 4,
{
    let a = cpu.regs.a;
    let b = cpu.regs.b;
    let diff: u8 = if a >= b {
        a - b
    } else {
        (a as u16 + 0x100 - b as u16) as u8
    };
    let mut flags: u8 = Flags::N;
    if diff == 0 {
        flags = flags + Flags::Z;
    }
    if a % 16 < b % 16 {
        flags = flags + Flags::H;
    }
    if b > a {
        flags = flags + Flags::C;
    }
    cpu.regs.a = diff;
    cpu.regs.f = flags;
    4
}

/// XOR A, A
pub fn opcode_af(cpu: &mut Cpu) -> (cost: u16)
    ensures
        *final(cpu) == spec_xor_a_a(*old(cpu), 0),
        cost == 4,
{
    // A XOR A is zero for every value of A.
    cpu.regs.a = 0;
    cpu.regs.f = Flags::Z;
    4
}

/// POP BC
pub fn opcode_c1(cpu: &mut Cpu, memory: &Memory) -> (cost: u16)
    requires
        memory.wf(),
    ensures
        *final(cpu) == spec_pop_bc(*old(cpu), memory@, 0),
        cost == 12,
{
    let lower = memory.read_byte(cpu.sp);
    cpu.sp = cpu.sp.wrapping_add(1);
    let upper = memory.read_byte(cpu.sp);
    cpu.sp = cpu.sp.wrapping_add(1);
    cpu.regs.c = lower;
    cpu.regs.b = upper;
    12
}

/// PUSH BC
pub fn opcode_c5(cpu: &mut Cpu, memory: &mut Memory) -> (cost: u16)
    requires
        old(memory).wf(),
    ensures
        final(memory).wf(),
        (*final(cpu), final(memory)@) == spec_push_bc(*old(cpu), old(memory)@, 0),
        cost == 16,
{
    cpu.sp = cpu.sp.wrapping_sub(1);
    memory.write_byte(cpu.sp, cpu.regs.b);
    cpu.sp = cpu.sp.wrapping_sub(1);
    memory.write_byte(cpu.sp, cpu.regs.c);
    16
}

/// RET
pub fn opcode_c9(cpu: &mut Cpu, memory: &Memory) -> (cost: u16)
    requires
        memory.wf(),
    ensures
        *final(cpu) == spec_ret(*old(cpu), memory@, 0),
        cost == 16,
{
    let lower = memory.read_byte(cpu.sp);
    cpu.sp = cpu.sp.wrapping_add(1);
    let upper = memory.read_byte(cpu.sp);
    cpu.sp = cpu.sp.wrapping_add(1);
    cpu.pc = (upper as u16) * 0x100 + (lower as u16);
    16
}

/// RETI
pub fn opcode_d9(cpu: &mut Cpu, memory: &Memory) -> (cost: u16)
    requires
        memory.wf(),
    ensures
        *final(cpu) == spec_reti(*old(cpu), memory@, 0),
        cost == 16,
{
    let lower = memory.read_byte(cpu.sp);
    cpu.sp = cpu.sp.wrapping_add(1);
    let upper = memory.read_byte(cpu.sp);
    cpu.sp = cpu.sp.wrapping_add(1);
    cpu.pc = (upper as u16) * 0x100 + (lower as u16);
    cpu.ime = true;
    16
}

/// CALL u16
pub fn opcode_cd(cpu: &mut Cpu, memory: &mut Memory) -> (cost: u16)
    requires
        old(memory).wf(),
    ensures
        final(memory).wf(),
        (*final(cpu), final(memory)@) == spec_call(*old(cpu), old(memory)@, 0),
        cost == 24,
{
    let lower = cpu.consume_byte(memory);
    let upper = cpu.consume_byte(memory);
    let return_lo = (cpu.pc % 0x100) as u8;
    let return_hi = (cpu.pc / 0x100) as u8;
    cpu.sp = cpu.sp.wrapping_sub(1);
    memory.write_byte(cpu.sp, return_hi);
    cpu.sp = cpu.sp.wrapping_sub(1);
    memory.write_byte(cpu.sp, return_lo);
    cpu.pc = (upper as u16) * 0x100 + (lower as u16);
    24
}

/// LD (FF00+u8), A
pub fn opcode_e0(cpu: &mut Cpu, memory: &mut Memory) -> (cost: u16)
    requires
        old(memory).wf(),
    ensures
        final(memory).wf(),
        (*final(cpu), final(memory)@) == spec_ldh_imm_a(*old(cpu), old(memory)@, 0),
        cost == 12,
{
    let offset = cpu.consume_byte(memory);
    memory.write_byte(0xff00 + offset as u16, cpu.regs.a);
    12
}

/// LD (FF00+C), A
pub fn opcode_e2(cpu: &Cpu, memory: &mut Memory) -> (cost: u16)
    requires
        old(memory).wf(),
    ensures
        final(memory).wf(),
        final(memory)@ == old(memory)@.update(0xff00 + cpu.regs.c, cpu.regs.a),
        cost == 8,
{
    memory.write_byte(0xff00 + cpu.regs.c as u16, cpu.regs.a);
    8
}

/// LD (u16), A
pub fn opcode_ea(cpu: &mut Cpu, memory: &mut Memory) -> (cost: u16)
    requires
        old(memory).wf(),
    ensures
        final(memory).wf(),
        (*final(cpu), final(memory)@) == spec_ld_abs_a(*old(cpu), old(memory)@, 0),
        cost == 16,
{
    let lower = cpu.consume_byte(memory);
    let upper = cpu.consume_byte(memory);
    memory.write_byte((upper as u16) * 0x100 + (lower as u16), cpu.regs.a);
    16
}

/// LD A, (FF00+u8)
pub fn opcode_f0(cpu: &mut Cpu, memory: &Memory) -> (cost: u16)
    requires
        memory.wf(),
    ensures
        *final(cpu) == spec_ldh_a_imm(*old(cpu), memory@, 0),
        cost == 12,
{
    let offset = cpu.consume_byte(memory);
    cpu.regs.a = memory.read_byte(0xff00 + offset as u16);
    12
}

/// DI
pub fn opcode_f3(cpu: &mut Cpu) -> (cost: u16)
    ensures
        *final(cpu) == spec_di(*old(cpu), 0),
        cost == 4,
{
    cpu.ime = false;
    cpu.ime_delay = false;
    4
}

/// EI
pub fn opcode_fb(cpu: &mut Cpu) -> (cost: u16)
    ensures
        *final(cpu) == spec_ei(*old(cpu), 0),
        cost == 4,
{
    cpu.ime_delay = true;
    4
}

/// CP A, u8
pub fn opcode_fe(cpu: &mut Cpu, memory: &Memory) -> (cost: u16)
    requires
        memory.wf(),
    ensures
        *final(cpu) == spec_cp_imm(*old(cpu), memory@, 0),
        cost == 8,
{
    let a = cpu.regs.a;
    let byte = cpu.consume_byte(memory);
    let diff: u8 = if a >= byte {
        a - byte
    } else {
        (a as u16 + 0x100 - byte as u16) as u8
    };
    let mut flags: u8 = Flags::N;
    if diff == 0 {
        flags = flags + Flags::Z;
    }
    if a % 16 < byte % 16 {
        flags = flags + Flags::H;
    }
    if byte > a {
        flags = flags + Flags::C;
    }
    cpu.regs.f = flags;
    8
}

/* Base opcodes, cycle-accounting form: the same operation with its cost
charged to the divider accumulator. */

/// NOP, charging its cost.
pub fn op_00(cpu: &mut Cpu)
    requires
        old(cpu).div_ctrl <= u16::MAX - 4,
    ensures
        *final(cpu) == spec_nop(*old(cpu), 4),
{
    let cost = opcode_00(cpu);
    cpu.div_ctrl = cpu.div_ctrl + cost;
}

/// INC B, charging its cost.
pub fn op_04(cpu: &mut Cpu)
    requires
        old(cpu).div_ctrl <= u16::MAX - 4,
    ensures
        *final(cpu) == spec_inc_r(*old(cpu), R8::B, 4),
{
    let cost = opcode_04(cpu);
    cpu.div_ctrl = cpu.div_ctrl + cost;
}

/// DEC B, charging its cost.
pub fn op_05(cpu: &mut Cpu)
    requires
        old(cpu).div_ctrl <= u16::MAX - 4,
    ensures
        *final(cpu) == spec_dec_r(*old(cpu), R8::B, 4),
{
    let cost = opcode_05(cpu);
    cpu.div_ctrl = cpu.div_ctrl + cost;
}

/// LD B, u8, charging its cost.
pub fn op_06(cpu: &mut Cpu, memory: &Memory)
    requires
        memory.wf(),
        old(cpu).div_ctrl <= u16::MAX - 8,
    ensures
        *final(cpu) == spec_ld_r_imm(*old(cpu), memory@, R8::B, 8),
{
    let cost = opcode_06(cpu, memory);
    cpu.div_ctrl = cpu.div_ctrl + cost;
}

/// INC C, charging its cost.
pub fn op_0c(cpu: &mut Cpu)
    requires
        old(cpu).div_ctrl <= u16::MAX - 4,
    ensures
        *final(cpu) == spec_inc_r(*old(cpu), R8::C, 4),
{
    let cost = opcode_0c(cpu);
    cpu.div_ctrl = cpu.div_ctrl + cost;
}

/// DEC C, charging its cost.
pub fn op_0d(cpu: &mut Cpu)
    requires
        old(cpu).div_ctrl <= u16::MAX - 4,
    ensures
        *final(cpu) == spec_dec_r(*old(cpu), R8::C, 4),
{
    let cost = opcode_0d(cpu);
    cpu.div_ctrl = cpu.div_ctrl + cost;
}

/// LD C, u8, charging its cost.
pub fn op_0e(cpu: &mut Cpu, memory: &Memory)
    requires
        memory.wf(),
        old(cpu).div_ctrl <= u16::MAX - 8,
    ensures
        *final(cpu) == spec_ld_r_imm(*old(cpu), memory@, R8::C, 8),
{
    let cost = opcode_0e(cpu, memory);
    cpu.div_ctrl = cpu.div_ctrl + cost;
}

/// LD DE, u16, charging its cost.
pub fn op_11(cpu: &mut Cpu, memory: &Memory)
    requires
        memory.wf(),
        old(cpu).div_ctrl <= u16::MAX - 12,
    ensures
        *final(cpu) == spec_ld_rr_imm(*old(cpu), memory@, R16::DE, 12),
{
    let cost = opcode_11(cpu, memory);
    cpu.div_ctrl = cpu.div_ctrl + cost;
}

/// INC DE, charging its cost.
pub fn op_13(cpu: &mut Cpu)
    requires
        old(cpu).div_ctrl <= u16::MAX - 8,
    ensures
        *final(cpu) == spec_inc_rr(*old(cpu), R16::DE, 8),
{
    let cost = opcode_13(cpu);
    cpu.div_ctrl = cpu.div_ctrl + cost;
}

/// DEC D, charging its cost.
pub fn op_15(cpu: &mut Cpu)
    requires
        old(cpu).div_ctrl <= u16::MAX - 4,
    ensures
        *final(cpu) == spec_dec_r(*old(cpu), R8::D, 4),
{
    let cost = opcode_15(cpu);
    cpu.div_ctrl = cpu.div_ctrl + cost;
}

/// LD D, u8, charging its cost.
pub fn op_16(cpu: &mut Cpu, memory: &Memory)
    requires
        memory.wf(),
        old(cpu).div_ctrl <= u16::MAX - 8,
    ensures
        *final(cpu) == spec_ld_r_imm(*old(cpu), memory@, R8::D, 8),
{
    let cost = opcode_16(cpu, memory);
    cpu.div_ctrl = cpu.div_ctrl + cost;
}

/// RLA, charging its cost.
pub fn op_17(cpu: &mut Cpu)
    requires
        old(cpu).div_ctrl <= u16::MAX - 4,
    ensures
        *final(cpu) == spec_rla(*old(cpu), 4),
{
    let cost = opcode_17(cpu);
    cpu.div_ctrl = cpu.div_ctrl + cost;
}

/// JR i8, charging its cost.
pub fn op_18(cpu: &mut Cpu, memory: &Memory)
    requires
        memory.wf(),
        old(cpu).div_ctrl <= u16::MAX - 12,
    ensures
        *final(cpu) == spec_jr(*old(cpu), memory@, None, 12, 12),
{
    let cost = opcode_18(cpu, memory);
    cpu.div_ctrl = cpu.div_ctrl + cost;
}

/// LD A, (DE), charging its cost.
pub fn op_1a(cpu: &mut Cpu, memory: &Memory)
    requires
        memory.wf(),
        old(cpu).div_ctrl <= u16::MAX - 8,
    ensures
        *final(cpu) == spec_ld_a_de(*old(cpu), memory@, 8),
{
    let cost = opcode_1a(cpu, memory);
    cpu.div_ctrl = cpu.div_ctrl + cost;
}

/// DEC E, charging its cost.
pub fn op_1d(cpu: &mut Cpu)
    requires
        old(cpu).div_ctrl <= u16::MAX - 4,
    ensures
        *final(cpu) == spec_dec_r(*old(cpu), R8::E, 4),
{
    let cost = opcode_1d(cpu);
    cpu.div_ctrl = cpu.div_ctrl + cost;
}

/// LD E, u8, charging its cost.
pub fn op_1e(cpu: &mut Cpu, memory: &Memory)
    requires
        memory.wf(),
        old(cpu).div_ctrl <= u16::MAX - 8,
    ensures
        *final(cpu) == spec_ld_r_imm(*old(cpu), memory@, R8::E, 8),
{
    let cost = opcode_1e(cpu, memory);
    cpu.div_ctrl = cpu.div_ctrl + cost;
}

/// JR NZ, i8, charging the taken or not-taken cost.
pub fn op_20(cpu: &mut Cpu, memory: &Memory)
    requires
        memory.wf(),
        old(cpu).div_ctrl <= u16::MAX - 12,
    ensures
        *final(cpu) == spec_jr(*old(cpu), memory@, Some(false), 12, 8),
{
    let cost = opcode_20(cpu, memory);
    cpu.div_ctrl = cpu.div_ctrl + cost;
}

/// LD HL, u16, charging its cost.
pub fn op_21(cpu: &mut Cpu, memory: &Memory)
    requires
        memory.wf(),
        old(cpu).div_ctrl <= u16::MAX - 12,
    ensures
        *final(cpu) == spec_ld_rr_imm(*old(cpu), memory@, R16::HL, 12),
{
    let cost = opcode_21(cpu, memory);
    cpu.div_ctrl = cpu.div_ctrl + cost;
}

/// LD (HL+), A, charging its cost.
pub fn op_22(cpu: &mut Cpu, memory: &mut Memory)
    requires
        old(memory).wf(),
        old(cpu).div_ctrl <= u16::MAX - 8,
    ensures
        final(memory).wf(),
        (*final(cpu), final(memory)@) == spec_ld_hl_a(
            *old(cpu),
            old(memory)@,
            inc16(old(cpu).regs.spec_hl()),
            8,
        ),
{
    let cost = opcode_22(cpu, memory);
    cpu.div_ctrl = cpu.div_ctrl + cost;
}

/// INC HL, charging its cost.
pub fn op_23(cpu: &mut Cpu)
    requires
        old(cpu).div_ctrl <= u16::MAX - 8,
    ensures
        *final(cpu) == spec_inc_rr(*old(cpu), R16::HL, 8),
{
    let cost = opcode_23(cpu);
    cpu.div_ctrl = cpu.div_ctrl + cost;
}

/// INC H, charging its cost.
pub fn op_24(cpu: &mut Cpu)
    requires
        old(cpu).div_ctrl <= u16::MAX - 4,
    ensures
        *final(cpu) == spec_inc_r(*old(cpu), R8::H, 4),
{
    let cost = opcode_24(cpu);
    cpu.div_ctrl = cpu.div_ctrl + cost;
}

/// JR Z, i8, charging the taken or not-taken cost.
pub fn op_28(cpu: &mut Cpu, memory: &Memory)
    requires
        memory.wf(),
        old(cpu).div_ctrl <= u16::MAX - 12,
    ensures
        *final(cpu) == spec_jr(*old(cpu), memory@, Some(true), 12, 8),
{
    let cost = opcode_28(cpu, memory);
    cpu.div_ctrl = cpu.div_ctrl + cost;
}

/// LD SP, u16, charging its cost.
pub fn op_31(cpu: &mut Cpu, memory: &Memory)
    requires
        memory.wf(),
        old(cpu).div_ctrl <= u16::MAX - 12,
    ensures
        *final(cpu) == spec_ld_sp_imm(*old(cpu), memory@, 12),
{
    let cost = opcode_31(cpu, memory);
    cpu.div_ctrl = cpu.div_ctrl + cost;
}

/// LD (HL-), A, charging its cost.
pub fn op_32(cpu: &mut Cpu, memory: &mut Memory)
    requires
        old(memory).wf(),
        old(cpu).div_ctrl <= u16::MAX - 8,
    ensures
        final(memory).wf(),
        (*final(cpu), final(memory)@) == spec_ld_hl_a(
            *old(cpu),
            old(memory)@,
            dec16(old(cpu).regs.spec_hl()),
            8,
        ),
{
    let cost = opcode_32(cpu, memory);
    cpu.div_ctrl = cpu.div_ctrl + cost;
}

/// DEC A, charging its cost.
pub fn op_3d(cpu: &mut Cpu)
    requires
        old(cpu).div_ctrl <= u16::MAX - 4,
    ensures
        *final(cpu) == spec_dec_r(*old(cpu), R8::A, 4),
{
    let cost = opcode_3d(cpu);
    cpu.div_ctrl = cpu.div_ctrl + cost;
}

/// LD A, u8, charging its cost.
pub fn op_3e(cpu: &mut Cpu, memory: &Memory)
    requires
        memory.wf(),
        old(cpu).div_ctrl <= u16::MAX - 8,
    ensures
        *final(cpu) == spec_ld_r_imm(*old(cpu), memory@, R8::A, 8),
{
    let cost = opcode_3e(cpu, memory);
    cpu.div_ctrl = cpu.div_ctrl + cost;
}

/// LD C, A, charging its cost.
pub fn op_4f(cpu: &mut Cpu)
    requires
        old(cpu).div_ctrl <= u16::MAX - 4,
    ensures
        *final(cpu) == spec_ld_r_r(*old(cpu), R8::C, R8::A, 4),
{
    let cost = opcode_4f(cpu);
    cpu.div_ctrl = cpu.div_ctrl + cost;
}

/// LD D, A, charging its cost.
pub fn op_57(cpu: &mut Cpu)
    requires
        old(cpu).div_ctrl <= u16::MAX - 4,
    ensures
        *final(cpu) == spec_ld_r_r(*old(cpu), R8::D, R8::A, 4),
{
    let cost = opcode_57(cpu);
    cpu.div_ctrl = cpu.div_ctrl + cost;
}

/// LD H, A, charging its cost.
pub fn op_67(cpu: &mut Cpu)
    requires
        old(cpu).div_ctrl <= u16::MAX - 4,
    ensures
        *final(cpu) == spec_ld_r_r(*old(cpu), R8::H, R8::A, 4),
{
    let cost = opcode_67(cpu);
    cpu.div_ctrl = cpu.div_ctrl + cost;
}

/// LD (HL), A, charging its cost.
pub fn op_77(cpu: &mut Cpu, memory: &mut Memory)
    requires
        old(memory).wf(),
        old(cpu).div_ctrl <= u16::MAX - 8,
    ensures
        final(memory).wf(),
        (*final(cpu), final(memory)@) == spec_ld_hl_a(
            *old(cpu),
            old(memory)@,
            old(cpu).regs.spec_hl(),
            8,
        ),
{
    let cost = opcode_77(cpu, memory);
    cpu.div_ctrl = cpu.div_ctrl + cost;
    proof {
        lemma_split_compose(old(cpu).regs.h, old(cpu).regs.l);
    }
}

/// LD A, E, charging its cost.
pub fn op_7b(cpu: &mut Cpu)
    requires
        old(cpu).div_ctrl <= u16::MAX - 4,
    ensures
        *final(cpu) == spec_ld_r_r(*old(cpu), R8::A, R8::E, 4),
{
    let cost = opcode_7b(cpu);
    cpu.div_ctrl = cpu.div_ctrl + cost;
}

/// LD A, H, charging its cost.
pub fn op_7c(cpu: &mut Cpu)
    requires
        old(cpu).div_ctrl <= u16::MAX - 4,
    ensures
        *final(cpu) == spec_ld_r_r(*old(cpu), R8::A, R8::H, 4),
{
    let cost = opcode_7c(cpu);
    cpu.div_ctrl = cpu.div_ctrl + cost;
}

/// ADD A, B, charging its cost.
pub fn op_80(cpu: &mut Cpu)
    requires
        old(cpu).div_ctrl <= u16::MAX - 4,
    ensures
        *final(cpu) == spec_add_a_b(*old(cpu), 4),
{
    let cost = opcode_80(cpu);
    cpu.div_ctrl = cpu.div_ctrl + cost;
}

/// SUB A, B, charging its cost.
pub fn op_90(cpu: &mut Cpu)
    requires
        old(cpu).div_ctrl <= u16::MAX - 4,
    ensures
        *final(cpu) == spec_sub_a_b(*old(cpu), 4),
{
    let cost = opcode_90(cpu);
    cpu.div_ctrl = cpu.div_ctrl + cost;
}

/// XOR A, A, charging its cost.
pub fn op_af(cpu: &mut Cpu)
    requires
        old(cpu).div_ctrl <= u16::MAX - 4,
    ensures
        *final(cpu) == spec_xor_a_a(*old(cpu), 4),
{
    let cost = opcode_af(cpu);
    cpu.div_ctrl = cpu.div_ctrl + cost;
}

/// POP BC, charging its cost.
pub fn op_c1(cpu: &mut Cpu, memory: &Memory)
    requires
        memory.wf(),
        old(cpu).div_ctrl <= u16::MAX - 12,
    ensures
        *final(cpu) == spec_pop_bc(*old(cpu), memory@, 12),
{
    let cost = opcode_c1(cpu, memory);
    cpu.div_ctrl = cpu.div_ctrl + cost;
}

/// PUSH BC, charging its cost.
pub fn op_c5(cpu: &mut Cpu, memory: &mut Memory)
    requires
        old(memory).wf(),
        old(cpu).div_ctrl <= u16::MAX - 16,
    ensures
        final(memory).wf(),
        (*final(cpu), final(memory)@) == spec_push_bc(*old(cpu), old(memory)@, 16),
{
    let cost = opcode_c5(cpu, memory);
    cpu.div_ctrl = cpu.div_ctrl + cost;
}

/// RET, charging its cost.
pub fn op_c9(cpu: &mut Cpu, memory: &Memory)
    requires
        memory.wf(),
        old(cpu).div_ctrl <= u16::MAX - 16,
    ensures
        *final(cpu) == spec_ret(*old(cpu), memory@, 16),
{
    let cost = opcode_c9(cpu, memory);
    cpu.div_ctrl = cpu.div_ctrl + cost;
}

/// RETI, charging its cost.
pub fn op_d9(cpu: &mut Cpu, memory: &Memory)
    requires
        memory.wf(),
        old(cpu).div_ctrl <= u16::MAX - 16,
    ensures
        *final(cpu) == spec_reti(*old(cpu), memory@, 16),
{
    let cost = opcode_d9(cpu, memory);
    cpu.div_ctrl = cpu.div_ctrl + cost;
}

/// CALL u16, charging its cost.
pub fn op_cd(cpu: &mut Cpu, memory: &mut Memory)
    requires
        old(memory).wf(),
        old(cpu).div_ctrl <= u16::MAX - 24,
    ensures
        final(memory).wf(),
        (*final(cpu), final(memory)@) == spec_call(*old(cpu), old(memory)@, 24),
{
    let cost = opcode_cd(cpu, memory);
    cpu.div_ctrl = cpu.div_ctrl + cost;
}

/// LD (FF00+u8), A, charging its cost.
pub fn op_e0(cpu: &mut Cpu, memory: &mut Memory)
    requires
        old(memory).wf(),
        old(cpu).div_ctrl <= u16::MAX - 12,
    ensures
        final(memory).wf(),
        (*final(cpu), final(memory)@) == spec_ldh_imm_a(*old(cpu), old(memory)@, 12),
{
    let cost = opcode_e0(cpu, memory);
    cpu.div_ctrl = cpu.div_ctrl + cost;
}

/// LD (FF00+C), A, charging its cost.
pub fn op_e2(cpu: &mut Cpu, memory: &mut Memory)
    requires
        old(memory).wf(),
        old(cpu).div_ctrl <= u16::MAX - 8,
    ensures
        final(memory).wf(),
        (*final(cpu), final(memory)@) == spec_ldh_c_a(*old(cpu), old(memory)@, 8),
{
    let cost = opcode_e2(cpu, memory);
    cpu.div_ctrl = cpu.div_ctrl + cost;
}

/// LD (u16), A, charging its cost.
pub fn op_ea(cpu: &mut Cpu, memory: &mut Memory)
    requires
        old(memory).wf(),
        old(cpu).div_ctrl <= u16::MAX - 16,
    ensures
        final(memory).wf(),
        (*final(cpu), final(memory)@) == spec_ld_abs_a(*old(cpu), old(memory)@, 16),
{
    let cost = opcode_ea(cpu, memory);
    cpu.div_ctrl = cpu.div_ctrl + cost;
}

/// LD A, (FF00+u8), charging its cost.
pub fn op_f0(cpu: &mut Cpu, memory: &Memory)
    requires
        memory.wf(),
        old(cpu).div_ctrl <= u16::MAX - 12,
    ensures
        *final(cpu) == spec_ldh_a_imm(*old(cpu), memory@, 12),
{
    let cost = opcode_f0(cpu, memory);
    cpu.div_ctrl = cpu.div_ctrl + cost;
}

/// DI, charging its cost.
pub fn op_f3(cpu: &mut Cpu)
    requires
        old(cpu).div_ctrl <= u16::MAX - 4,
    ensures
        *final(cpu) == spec_di(*old(cpu), 4),
{
    let cost = opcode_f3(cpu);
    cpu.div_ctrl = cpu.div_ctrl + cost;
}

/// EI, charging its cost.
pub fn op_fb(cpu: &mut Cpu)
    requires
        old(cpu).div_ctrl <= u16::MAX - 4,
    ensures
        *final(cpu) == spec_ei(*old(cpu), 4),
{
    let cost = opcode_fb(cpu);
    cpu.div_ctrl = cpu.div_ctrl + cost;
}

/// For every 8-bit register value, INC followed by DEC (or DEC followed by
/// INC) of the same register returns it unchanged, and the Z flag after the
/// pair reflects only the second operation's result: it is set exactly when
/// the original value was zero.
pub proof fn lemma_inc_dec_roundtrip(cpu: Cpu, r: R8, cost1: u16, cost2: u16)
    ensures
        get8(spec_dec_r(spec_inc_r(cpu, r, cost1), r, cost2).regs, r) == get8(cpu.regs, r),
        z_set(spec_dec_r(spec_inc_r(cpu, r, cost1), r, cost2).regs.f) == (get8(cpu.regs, r) == 0),
        get8(spec_inc_r(spec_dec_r(cpu, r, cost1), r, cost2).regs, r) == get8(cpu.regs, r),
        z_set(spec_inc_r(spec_dec_r(cpu, r, cost1), r, cost2).regs.f) == (get8(cpu.regs, r) == 0),
{
    let v = get8(cpu.regs, r);
    crate::alu::lemma_inc8_dec8_roundtrip(v);
    let mid_inc = spec_inc_r(cpu, r, cost1);
    crate::registers::lemma_flag_byte(
        dec8(get8(mid_inc.regs, r)) == 0,
        true,
        get8(mid_inc.regs, r) % 16 == 0,
        c_set(mid_inc.regs.f),
    );
    let mid_dec = spec_dec_r(cpu, r, cost1);
    crate::registers::lemma_flag_byte(
        inc8(get8(mid_dec.regs, r)) == 0,
        false,
        get8(mid_dec.regs, r) % 16 == 15,
        c_set(mid_dec.regs.f),
    );
}

/// CALL followed by RET, with the pushed stack bytes untouched in between,
/// sets PC to the return address (the byte just past CALL's two operand
/// bytes) and restores SP to its value before the CALL.
pub proof fn lemma_call_ret_roundtrip(cpu: Cpu, mem: Seq<u8>, cost1: u16, cost2: u16)
    requires
        mem.len() == 0x10000,
    ensures
        ({
            let called = spec_call(cpu, mem, cost1);
            let returned = spec_ret(called.0, called.1, cost2);
            &&& returned.pc == inc16(inc16(cpu.pc))
            &&& returned.sp == cpu.sp
        }),
{
    let ret = inc16(inc16(cpu.pc));
    crate::alu::lemma_compose_split(ret);
    crate::alu::lemma_inc16_dec16_roundtrip(cpu.sp);
    crate::alu::lemma_inc16_dec16_roundtrip(dec16(cpu.sp));
}

/// PUSH BC followed by POP BC, with the pushed stack bytes untouched in
/// between, restores both B and C and brings SP back to its value before
/// the PUSH: the byte discipline of the stack round-trips register pairs.
pub proof fn lemma_push_pop_roundtrip(cpu: Cpu, mem: Seq<u8>, cost1: u16, cost2: u16)
    requires
        mem.len() == 0x10000,
    ensures
        ({
            let pushed = spec_push_bc(cpu, mem, cost1);
            let popped = spec_pop_bc(pushed.0, pushed.1, cost2);
            &&& popped.regs.b == cpu.regs.b
            &&& popped.regs.c == cpu.regs.c
            &&& popped.sp == cpu.sp
        }),
{
    crate::alu::lemma_inc16_dec16_roundtrip(cpu.sp);
    crate::alu::lemma_inc16_dec16_roundtrip(dec16(cpu.sp));
}

/// CP A, u8, charging its cost.
pub fn op_fe(cpu: &mut Cpu, memory: &Memory)
    requires
        memory.wf(),
        old(cpu).div_ctrl <= u16::MAX - 8,
    ensures
        *final(cpu) == spec_cp_imm(*old(cpu), memory@, 8),
{
    let cost = opcode_fe(cpu, memory);
    cpu.div_ctrl = cpu.div_ctrl + cost;
}

} // verus!
