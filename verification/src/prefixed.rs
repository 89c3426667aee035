//! The prefixed opcode space, reached through the `0xcb` prefix byte: the
//! rotate family over every register and the HL-indirect operand, the
//! rotate-through-carry forms, and the bit-test instruction. The prefix
//! fetch itself costs 4 T-cycles on top of each entry's own cost.

use vstd::prelude::*;
use crate::alu::{bit0, bit7, inc16, rl8, rotl8, rotr8};
use crate::cpu::{Cpu, CpuError};
use crate::lookup::{lookup_prefix, prefix_defined, spec_lookup_prefix};
use crate::memory::Memory;
use crate::registers::{c_set, flag_byte, get8, with8, Flags, Regs, R8};
use crate::instructions::with_cost;

verus! {

/// RLC r: the register rotates left one bit; the bit leaving bit 7 becomes
/// C and also re-enters at bit 0; Z iff the result is zero, N and H reset.
pub open spec fn spec_rlc_r(cpu: Cpu, r: R8, cost: u16) -> Cpu {
    let v = get8(cpu.regs, r);
    let regs = Regs {
        f: flag_byte(rotl8(v) == 0, false, false, bit7(v)),
        ..with8(cpu.regs, r, rotl8(v))
    };
    with_cost(Cpu { regs, ..cpu }, cost)
}

/// RRC r: the register rotates right one bit; the bit leaving bit 0 becomes
/// C and also re-enters at bit 7; Z iff the result is zero, N and H reset.
pub open spec fn spec_rrc_r(cpu: Cpu, r: R8, cost: u16) -> Cpu {
    let v = get8(cpu.regs, r);
    let regs = Regs {
        f: flag_byte(rotr8(v) == 0, false, false, bit0(v)),
        ..with8(cpu.regs, r, rotr8(v))
    };
    with_cost(Cpu { regs, ..cpu }, cost)
}

/// RLC (HL): the byte at the address in HL rotates left one bit, with the
/// same flags as the register form.
pub open spec fn spec_rlc_hl(cpu: Cpu, mem: Seq<u8>, cost: u16) -> (Cpu, Seq<u8>) {
    let v = mem[cpu.regs.spec_hl() as int];
    let regs = Regs { f: flag_byte(rotl8(v) == 0, false, false, bit7(v)), ..cpu.regs };
    (
        with_cost(Cpu { regs, ..cpu }, cost),
        mem.update(cpu.regs.spec_hl() as int, rotl8(v)),
    )
}

/// RRC (HL): the byte at the address in HL rotates right one bit, with the
/// same flags as the register form.
pub open spec fn spec_rrc_hl(cpu: Cpu, mem: Seq<u8>, cost: u16) -> (Cpu, Seq<u8>) {
    let v = mem[cpu.regs.spec_hl() as int];
    let regs = Regs { f: flag_byte(rotr8(v) == 0, false, false, bit0(v)), ..cpu.regs };
    (
        with_cost(Cpu { regs, ..cpu }, cost),
        mem.update(cpu.regs.spec_hl() as int, rotr8(v)),
    )
}

/// RL r: the register shifts left one bit, the old C flag enters at bit 0
/// and the old bit 7 becomes C; Z iff the result is zero, N and H reset.
pub open spec fn spec_rl_r(cpu: Cpu, r: R8, cost: u16) -> Cpu {
    let v = get8(cpu.regs, r);
    let res = rl8(v, c_set(cpu.regs.f));
    let regs = Regs {
        f: flag_byte(res == 0, false, false, bit7(v)),
        ..with8(cpu.regs, r, res)
    };
    with_cost(Cpu { regs, ..cpu }, cost)
}

/// BIT 7, H: Z iff bit 7 of H is clear; N reset, H flag set, C preserved;
/// the register is unmodified.
pub open spec fn spec_bit7_h(cpu: Cpu, cost: u16) -> Cpu {
    let regs = Regs {
        f: flag_byte(cpu.regs.h < 0x80, false, true, c_set(cpu.regs.f)),
        ..cpu.regs
    };
    with_cost(Cpu { regs, ..cpu }, cost)
}

/// The effect of one defined prefixed opcode on a CPU whose PC has already
/// consumed both instruction bytes; `extra` is the cost of the prefix fetch
/// charged on top of the entry's own cost.
pub open spec fn spec_exec_prefixed(opcode: u8, cpu: Cpu, mem: Seq<u8>, extra: u16) -> (Cpu, Seq<u8>) {
    match opcode {
        0x00 => (spec_rlc_r(cpu, R8::B, (4 + extra) as u16), mem),
        0x01 => (spec_rlc_r(cpu, R8::C, (4 + extra) as u16), mem),
        0x02 => (spec_rlc_r(cpu, R8::D, (4 + extra) as u16), mem),
        0x03 => (spec_rlc_r(cpu, R8::E, (4 + extra) as u16), mem),
        0x04 => (spec_rlc_r(cpu, R8::H, (4 + extra) as u16), mem),
        0x05 => (spec_rlc_r(cpu, R8::L, (4 + extra) as u16), mem),
        0x06 => spec_rlc_hl(cpu, mem, (12 + extra) as u16),
        0x07 => (spec_rlc_r(cpu, R8::A, (4 + extra) as u16), mem),
        0x08 => (spec_rrc_r(cpu, R8::B, (4 + extra) as u16), mem),
        0x09 => (spec_rrc_r(cpu, R8::C, (4 + extra) as u16), mem),
        0x0a => (spec_rrc_r(cpu, R8::D, (4 + extra) as u16), mem),
        0x0b => (spec_rrc_r(cpu, R8::E, (4 + extra) as u16), mem),
        0x0c => (spec_rrc_r(cpu, R8::H, (4 + extra) as u16), mem),
        0x0d => (spec_rrc_r(cpu, R8::L, (4 + extra) as u16), mem),
        0x0e => spec_rrc_hl(cpu, mem, (12 + extra) as u16),
        0x0f => (spec_rrc_r(cpu, R8::A, (4 + extra) as u16), mem),
        0x11 => (spec_rl_r(cpu, R8::C, (4 + extra) as u16), mem),
        0x17 => (spec_rl_r(cpu, R8::A, (4 + extra) as u16), mem),
        0x7c => (spec_bit7_h(cpu, (4 + extra) as u16), mem),
        _ => (cpu, mem),
    }
}

/// One whole prefixed instruction from the point after the `0xcb` byte:
/// the second opcode byte is consumed and executed, and the prefix fetch is
/// charged; `None` when that byte has no entry in the prefixed table.
pub open spec fn spec_prefix_step(cpu: Cpu, mem: Seq<u8>) -> Option<(Cpu, Seq<u8>)> {
    let opcode = mem[cpu.pc as int];
    if spec_lookup_prefix(opcode) is Some {
        Some(spec_exec_prefixed(opcode, Cpu { pc: inc16(cpu.pc), ..cpu }, mem, 4))
    } else {
        None
    }
}

/// Shared step of the RLC opcodes: rotates `v` left and writes the flag
/// byte, returning the rotated value for the caller to store.
fn rlc_with_flags(cpu: &mut Cpu, v: u8) -> (r: u8)
    ensures
        r == rotl8(v),
        *final(cpu) == (Cpu {
            regs: Regs {
                f: flag_byte(rotl8(v) == 0, false, false, bit7(v)),
                ..old(cpu).regs
            },
            ..*old(cpu)
        }),
{
    let rotated: u8 = (v % 0x80) * 2 + v / 0x80;
    let mut flags: u8 = if v >= 0x80 {
        Flags::C
    } else {
        0
    };
    if rotated == 0 {
        flags = flags + Flags::Z;
    }
    cpu.regs.f = flags;
    rotated
}

/// Shared step of the RRC opcodes: rotates `v` right and writes the flag
/// byte, returning the rotated value for the caller to store.
fn rrc_with_flags(cpu: &mut Cpu, v: u8) -> (r: u8)
    ensures
        r == rotr8(v),
        *final(cpu) == (Cpu {
            regs: Regs {
                f: flag_byte(rotr8(v) == 0, false, false, bit0(v)),
                ..old(cpu).regs
            },
            ..*old(cpu)
        }),
{
    let rotated: u8 = v / 2 + (v % 2) * 0x80;
    let mut flags: u8 = if v % 2 == 1 {
        Flags::C
    } else {
        0
    };
    if rotated == 0 {
        flags = flags + Flags::Z;
    }
    cpu.regs.f = flags;
    rotated
}

/// Shared step of the RL opcodes: shifts `v` left through the carry and
/// writes the flag byte, returning the shifted value for the caller to
/// store.
fn rl_with_flags(cpu: &mut Cpu, v: u8) -> (r: u8)
    ensures
        r == rl8(v, c_set(old(cpu).regs.f)),
        *final(cpu) == (Cpu {
            regs: Regs {
                f: flag_byte(rl8(v, c_set(old(cpu).regs.f)) == 0, false, false, bit7(v)),
                ..old(cpu).regs
            },
            ..*old(cpu)
        }),
{
    let carry_in: u8 = if cpu.regs.is_flag_set(Flags::C) {
        1
    } else {
        0
    };
    let shifted: u8 = (v % 0x80) * 2 + carry_in;
    let mut flags: u8 = if v >= 0x80 {
        Flags::C
    } else {
        0
    };
    if shifted == 0 {
        flags = flags + Flags::Z;
    }
    cpu.regs.f = flags;
    shifted
}

/* Prefixed opcodes: architectural operation, reporting the T-cycle cost
(the prefix fetch is charged by the dispatcher on top). */

/// RLC B
pub fn opcode_cb00(cpu: &mut Cpu) -> (cost: u16)
    ensures
        *final(cpu) == spec_rlc_r(*old(cpu), R8::B, 0),
        cost == 4,
{
    let v = cpu.regs.b;
    let rotated = rlc_with_flags(cpu, v);
    cpu.regs.b = rotated;
    4
}

/// RLC C
pub fn opcode_cb01(cpu: &mut Cpu) -> (cost: u16)
    ensures
        *final(cpu) == spec_rlc_r(*old(cpu), R8::C, 0),
        cost == 4,
{
    let v = cpu.regs.c;
    let rotated = rlc_with_flags(cpu, v);
    cpu.regs.c = rotated;
    4
}

/// RLC D
pub fn opcode_cb02(cpu: &mut Cpu) -> (cost: u16)
    ensures
        *final(cpu) == spec_rlc_r(*old(cpu), R8::D, 0),
        cost == 4,
{
    let v = cpu.regs.d;
    let rotated = rlc_with_flags(cpu, v);
    cpu.regs.d = rotated;
    4
}

/// RLC E
pub fn opcode_cb03(cpu: &mut Cpu) -> (cost: u16)
    ensures
        *final(cpu) == spec_rlc_r(*old(cpu), R8::E, 0),
        cost == 4,
{
    let v = cpu.regs.e;
    let rotated = rlc_with_flags(cpu, v);
    cpu.regs.e = rotated;
    4
}

/// RLC H
pub fn opcode_cb04(cpu: &mut Cpu) -> (cost: u16)
    ensures
        *final(cpu) == spec_rlc_r(*old(cpu), R8::H, 0),
        cost == 4,
{
    let v = cpu.regs.h;
    let rotated = rlc_with_flags(cpu, v);
    cpu.regs.h = rotated;
    4
}

/// RLC L
pub fn opcode_cb05(cpu: &mut Cpu) -> (cost: u16)
    ensures
        *final(cpu) == spec_rlc_r(*old(cpu), R8::L, 0),
        cost == 4,
{
    let v = cpu.regs.l;
    let rotated = rlc_with_flags(cpu, v);
    cpu.regs.l = rotated;
    4
}

/// RLC (HL)
pub fn opcode_cb06(cpu: &mut Cpu, memory: &mut Memory) -> (cost: u16)
    requires
        old(memory).wf(),
    ensures
        final(memory).wf(),
        (*final(cpu), final(memory)@) == spec_rlc_hl(*old(cpu), old(memory)@, 0),
        cost == 12,
{
    let hl = cpu.regs.hl();
    let v = memory.read_byte(hl);
    let rotated = rlc_with_flags(cpu, v);
    memory.write_byte(hl, rotated);
    12
}

/// RLC A
pub fn opcode_cb07(cpu: &mut Cpu) -> (cost: u16)
    ensures
        *final(cpu) == spec_rlc_r(*old(cpu), R8::A, 0),
        cost == 4,
{
    let v = cpu.regs.a;
    let rotated = rlc_with_flags(cpu, v);
    cpu.regs.a = rotated;
    4
}

/// RRC B
pub fn opcode_cb08(cpu: &mut Cpu) -> (cost: u16)
    ensures
        *final(cpu) == spec_rrc_r(*old(cpu), R8::B, 0),
        cost == 4,
{
    let v = cpu.regs.b;
    let rotated = rrc_with_flags(cpu, v);
    cpu.regs.b = rotated;
    4
}

/// RRC C
pub fn opcode_cb09(cpu: &mut Cpu) -> (cost: u16)
    ensures
        *final(cpu) == spec_rrc_r(*old(cpu), R8::C, 0),
        cost == 4,
{
    let v = cpu.regs.c;
    let rotated = rrc_with_flags(cpu, v);
    cpu.regs.c = rotated;
    4
}

/// RRC D
pub fn opcode_cb0a(cpu: &mut Cpu) -> (cost: u16)
    ensures
        *final(cpu) == spec_rrc_r(*old(cpu), R8::D, 0),
        cost == 4,
{
    let v = cpu.regs.d;
    let rotated = rrc_with_flags(cpu, v);
    cpu.regs.d = rotated;
    4
}

/// RRC E
pub fn opcode_cb0b(cpu: &mut Cpu) -> (cost: u16)
    ensures
        *final(cpu) == spec_rrc_r(*old(cpu), R8::E, 0),
        cost == 4,
{
    let v = cpu.regs.e;
    let rotated = rrc_with_flags(cpu, v);
    cpu.regs.e = rotated;
    4
}

/// RRC H
pub fn opcode_cb0c(cpu: &mut Cpu) -> (cost: u16)
    ensures
        *final(cpu) == spec_rrc_r(*old(cpu), R8::H, 0),
        cost == 4,
{
    let v = cpu.regs.h;
    let rotated = rrc_with_flags(cpu, v);
    cpu.regs.h = rotated;
    4
}

/// RRC L
pub fn opcode_cb0d(cpu: &mut Cpu) -> (cost: u16)
    ensures
        *final(cpu) == spec_rrc_r(*old(cpu), R8::L, 0),
        cost == 4,
{
    let v = cpu.regs.l;
    let rotated = rrc_with_flags(cpu, v);
    cpu.regs.l = rotated;
    4
}

/// RRC (HL)
pub fn opcode_cb0e(cpu: &mut Cpu, memory: &mut Memory) -> (cost: u16)
    requires
        old(memory).wf(),
    ensures
        final(memory).wf(),
        (*final(cpu), final(memory)@) == spec_rrc_hl(*old(cpu), old(memory)@, 0),
        cost == 12,
{
    let hl = cpu.regs.hl();
    let v = memory.read_byte(hl);
    let rotated = rrc_with_flags(cpu, v);
    memory.write_byte(hl, rotated);
    12
}

/// RRC A
pub fn opcode_cb0f(cpu: &mut Cpu) -> (cost: u16)
    ensures
        *final(cpu) == spec_rrc_r(*old(cpu), R8::A, 0),
        cost == 4,
{
    let v = cpu.regs.a;
    let rotated = rrc_with_flags(cpu, v);
    cpu.regs.a = rotated;
    4
}

/// RL C
pub fn opcode_cb11(cpu: &mut Cpu) -> (cost: u16)
    ensures
        *final(cpu) == spec_rl_r(*old(cpu), R8::C, 0),
        cost == 4,
{
    let v = cpu.regs.c;
    let shifted = rl_with_flags(cpu, v);
    cpu.regs.c = shifted;
    4
}

/// RL A
pub fn opcode_cb17(cpu: &mut Cpu) -> (cost: u16)
    ensures
        *final(cpu) == spec_rl_r(*old(cpu), R8::A, 0),
        cost == 4,
{
    let v = cpu.regs.a;
    let shifted = rl_with_flags(cpu, v);
    cpu.regs.a = shifted;
    4
}

/// BIT 7, H
pub fn opcode_cb7c(cpu: &mut Cpu) -> (cost: u16)
    ensures
        *final(cpu) == spec_bit7_h(*old(cpu), 0),
        cost == 4,
{
    let carry = cpu.regs.is_flag_set(Flags::C);
    let mut flags: u8 = if carry {
        Flags::C
    } else {
        0
    };
    if cpu.regs.h < 0x80 {
        flags = flags + Flags::Z;
    }
    flags = flags + Flags::H;
    cpu.regs.f = flags;
    4
}

/* Prefixed opcodes, cycle-accounting form. */

/// RLC B, charging its cost.
pub fn op_cb00(cpu: &mut Cpu)
    requires
        old(cpu).div_ctrl <= u16::MAX - 4,
    ensures
        *final(cpu) == spec_rlc_r(*old(cpu), R8::B, 4),
{
    let cost = opcode_cb00(cpu);
    cpu.div_ctrl = cpu.div_ctrl + cost;
}

/// RLC C, charging its cost.
pub fn op_cb01(cpu: &mut Cpu)
    requires
        old(cpu).div_ctrl <= u16::MAX - 4,
    ensures
        *final(cpu) == spec_rlc_r(*old(cpu), R8::C, 4),
{
    let cost = opcode_cb01(cpu);
    cpu.div_ctrl = cpu.div_ctrl + cost;
}

/// RLC D, charging its cost.
pub fn op_cb02(cpu: &mut Cpu)
    requires
        old(cpu).div_ctrl <= u16::MAX - 4,
    ensures
        *final(cpu) == spec_rlc_r(*old(cpu), R8::D, 4),
{
    let cost = opcode_cb02(cpu);
    cpu.div_ctrl = cpu.div_ctrl + cost;
}

/// RLC E, charging its cost.
pub fn op_cb03(cpu: &mut Cpu)
    requires
        old(cpu).div_ctrl <= u16::MAX - 4,
    ensures
        *final(cpu) == spec_rlc_r(*old(cpu), R8::E, 4),
{
    let cost = opcode_cb03(cpu);
    cpu.div_ctrl = cpu.div_ctrl + cost;
}

/// RLC H, charging its cost.
pub fn op_cb04(cpu: &mut Cpu)
    requires
        old(cpu).div_ctrl <= u16::MAX - 4,
    ensures
        *final(cpu) == spec_rlc_r(*old(cpu), R8::H, 4),
{
    let cost = opcode_cb04(cpu);
    cpu.div_ctrl = cpu.div_ctrl + cost;
}

/// RLC L, charging its cost.
pub fn op_cb05(cpu: &mut Cpu)
    requires
        old(cpu).div_ctrl <= u16::MAX - 4,
    ensures
        *final(cpu) == spec_rlc_r(*old(cpu), R8::L, 4),
{
    let cost = opcode_cb05(cpu);
    cpu.div_ctrl = cpu.div_ctrl + cost;
}

/// RLC (HL), charging its cost.
pub fn op_cb06(cpu: &mut Cpu, memory: &mut Memory)
    requires
        old(memory).wf(),
        old(cpu).div_ctrl <= u16::MAX - 12,
    ensures
        final(memory).wf(),
        (*final(cpu), final(memory)@) == spec_rlc_hl(*old(cpu), old(memory)@, 12),
{
    let cost = opcode_cb06(cpu, memory);
    cpu.div_ctrl = cpu.div_ctrl + cost;
}

/// RLC A, charging its cost.
pub fn op_cb07(cpu: &mut Cpu)
    requires
        old(cpu).div_ctrl <= u16::MAX - 4,
    ensures
        *final(cpu) == spec_rlc_r(*old(cpu), R8::A, 4),
{
    let cost = opcode_cb07(cpu);
    cpu.div_ctrl = cpu.div_ctrl + cost;
}

/// RRC B, charging its cost.
pub fn op_cb08(cpu: &mut Cpu)
    requires
        old(cpu).div_ctrl <= u16::MAX - 4,
    ensures
        *final(cpu) == spec_rrc_r(*old(cpu), R8::B, 4),
{
    let cost = opcode_cb08(cpu);
    cpu.div_ctrl = cpu.div_ctrl + cost;
}

/// RRC C, charging its cost.
pub fn op_cb09(cpu: &mut Cpu)
    requires
        old(cpu).div_ctrl <= u16::MAX - 4,
    ensures
        *final(cpu) == spec_rrc_r(*old(cpu), R8::C, 4),
{
    let cost = opcode_cb09(cpu);
    cpu.div_ctrl = cpu.div_ctrl + cost;
}

/// RRC D, charging its cost.
pub fn op_cb0a(cpu: &mut Cpu)
    requires
        old(cpu).div_ctrl <= u16::MAX - 4,
    ensures
        *final(cpu) == spec_rrc_r(*old(cpu), R8::D, 4),
{
    let cost = opcode_cb0a(cpu);
    cpu.div_ctrl = cpu.div_ctrl + cost;
}

/// RRC E, charging its cost.
pub fn op_cb0b(cpu: &mut Cpu)
    requires
        old(cpu).div_ctrl <= u16::MAX - 4,
    ensures
        *final(cpu) == spec_rrc_r(*old(cpu), R8::E, 4),
{
    let cost = opcode_cb0b(cpu);
    cpu.div_ctrl = cpu.div_ctrl + cost;
}

/// RRC H, charging its cost.
pub fn op_op_cb0c(cpu: &mut Cpu)
    requires
        old(cpu).div_ctrl <= u16::MAX - 4,
    ensures
        *final(cpu) == spec_rrc_r(*old(cpu), R8::H, 4),
{
    let cost = opcode_cb0c(cpu);
    cpu.div_ctrl = cpu.div_ctrl + cost;
}

/// RRC L, charging its cost.
pub fn op_cb0d(cpu: &mut Cpu)
    requires
        old(cpu).div_ctrl <= u16::MAX - 4,
    ensures
        *final(cpu) == spec_rrc_r(*old(cpu), R8::L, 4),
{
    let cost = opcode_cb0d(cpu);
    cpu.div_ctrl = cpu.div_ctrl + cost;
}

/// RRC (HL), charging its cost.
pub fn op_cb0e(cpu: &mut Cpu, memory: &mut Memory)
    requires
        old(memory).wf(),
        old(cpu).div_ctrl <= u16::MAX - 12,
    ensures
        final(memory).wf(),
        (*final(cpu), final(memory)@) == spec_rrc_hl(*old(cpu), old(memory)@, 12),
{
    let cost = opcode_cb0e(cpu, memory);
    cpu.div_ctrl = cpu.div_ctrl + cost;
}

/// RRC A, charging its cost.
pub fn op_cb0f(cpu: &mut Cpu)
    requires
        old(cpu).div_ctrl <= u16::MAX - 4,
    ensures
        *final(cpu) == spec_rrc_r(*old(cpu), R8::A, 4),
{
    let cost = opcode_cb0f(cpu);
    cpu.div_ctrl = cpu.div_ctrl + cost;
}

/// RL C, charging its cost.
pub fn op_cb11(cpu: &mut Cpu)
    requires
        old(cpu).div_ctrl <= u16::MAX - 4,
    ensures
        *final(cpu) == spec_rl_r(*old(cpu), R8::C, 4),
{
    let cost = opcode_cb11(cpu);
    cpu.div_ctrl = cpu.div_ctrl + cost;
}

/// RL A, charging its cost.
pub fn op_cb17(cpu: &mut Cpu)
    requires
        old(cpu).div_ctrl <= u16::MAX - 4,
    ensures
        *final(cpu) == spec_rl_r(*old(cpu), R8::A, 4),
{
    let cost = opcode_cb17(cpu);
    cpu.div_ctrl = cpu.div_ctrl + cost;
}

/// BIT 7, H, charging its cost.
pub fn op_cb7c(cpu: &mut Cpu)
    requires
        old(cpu).div_ctrl <= u16::MAX - 4,
    ensures
        *final(cpu) == spec_bit7_h(*old(cpu), 4),
{
    let cost = opcode_cb7c(cpu);
    cpu.div_ctrl = cpu.div_ctrl + cost;
}

/// Handles a prefixed instruction: consumes the byte after the `0xcb`
/// prefix, dispatches into the prefixed table, and charges the prefix
/// fetch. When that byte has no entry, nothing changes and the decode
/// failure is returned.
pub fn prefix(cpu: &mut Cpu, memory: &mut Memory) -> (r: Result<(), CpuError>)
    requires
        old(memory).wf(),
        old(cpu).div_ctrl <= u16::MAX - 16,
    ensures
        final(memory).wf(),
        match r {
            Ok(()) => Some((*final(cpu), final(memory)@)) == spec_prefix_step(
                *old(cpu),
                old(memory)@,
            ),
            Err(e) => {
                &&& *final(cpu) == *old(cpu)
                &&& final(memory)@ == old(memory)@
                &&& !prefix_defined(old(memory)@[old(cpu).pc as int])
                &&& e == CpuError::UnimplementedPrefixedOpcode(
                    old(memory)@[old(cpu).pc as int],
                )
            },
        },
{
    let peeked = cpu.fetch_next_byte(memory);
    if lookup_prefix(peeked).is_none() {
        return Err(CpuError::UnimplementedPrefixedOpcode(peeked));
    }
    let opcode = cpu.consume_byte(memory);
    match opcode {
        0x00 => op_cb00(cpu),
        0x01 => op_cb01(cpu),
        0x02 => op_cb02(cpu),
        0x03 => op_cb03(cpu),
        0x04 => op_cb04(cpu),
        0x05 => op_cb05(cpu),
        0x06 => op_cb06(cpu, memory),
        0x07 => op_cb07(cpu),
        0x08 => op_cb08(cpu),
        0x09 => op_cb09(cpu),
        0x0a => op_cb0a(cpu),
        0x0b => op_cb0b(cpu),
        0x0c => op_op_cb0c(cpu),
        0x0d => op_cb0d(cpu),
        0x0e => op_cb0e(cpu, memory),
        0x0f => op_cb0f(cpu),
        0x11 => op_cb11(cpu),
        0x17 => op_cb17(cpu),
        0x7c => op_cb7c(cpu),
        _ => (),
    }
    // The prefix fetch itself.
    cpu.div_ctrl = cpu.div_ctrl + 4;
    Ok(())
}

} // verus!
