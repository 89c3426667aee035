//! The two flat opcode tables: for each defined opcode byte (base space and
//! prefixed space) they record which operands the instruction needs, so the
//! orchestrator can invoke every entry uniformly. Any byte without an entry
//! is a decode failure, never a silent no-op.

use vstd::prelude::*;

verus! {

/// What an instruction-set entry operates on: the register file alone, or
/// the register file together with memory.
#[derive(Clone, Copy, Debug, PartialEq, Eq, Structural)]
pub enum InstructionAccess {
    Cpu,
    CpuWithMemory,
}

/// The base opcode table: the access kind of each defined opcode byte, and
/// `None` for every byte with no entry.
pub open spec fn spec_lookup(opcode: u8) -> Option<InstructionAccess> {
    match opcode {
        0x00 => Some(InstructionAccess::Cpu),  // NOP
        0x04 => Some(InstructionAccess::Cpu),  // INC B
        0x05 => Some(InstructionAccess::Cpu),  // DEC B
        0x06 => Some(InstructionAccess::CpuWithMemory),  // LD B, u8
        0x0c => Some(InstructionAccess::Cpu),  // INC C
        0x0d => Some(InstructionAccess::Cpu),  // DEC C
        0x0e => Some(InstructionAccess::CpuWithMemory),  // LD C, u8
        0x11 => Some(InstructionAccess::CpuWithMemory),  // LD DE, u16
        0x13 => Some(InstructionAccess::Cpu),  // INC DE
        0x15 => Some(InstructionAccess::Cpu),  // DEC D
        0x16 => Some(InstructionAccess::CpuWithMemory),  // LD D, u8
        0x17 => Some(InstructionAccess::Cpu),  // RLA
        0x18 => Some(InstructionAccess::CpuWithMemory),  // JR i8
        0x1a => Some(InstructionAccess::CpuWithMemory),  // LD A, (DE)
        0x1d => Some(InstructionAccess::Cpu),  // DEC E
        0x1e => Some(InstructionAccess::CpuWithMemory),  // LD E, u8
        0x20 => Some(InstructionAccess::CpuWithMemory),  // JR NZ, i8
        0x21 => Some(InstructionAccess::CpuWithMemory),  // LD HL, u16
        0x22 => Some(InstructionAccess::CpuWithMemory),  // LD (HL+), A
        0x23 => Some(InstructionAccess::Cpu),  // INC HL
        0x24 => Some(InstructionAccess::Cpu),  // INC H
        0x28 => Some(InstructionAccess::CpuWithMemory),  // JR Z, i8
        0x31 => Some(InstructionAccess::CpuWithMemory),  // LD SP, u16
        0x32 => Some(InstructionAccess::CpuWithMemory),  // LD (HL-), A
        0x3d => Some(InstructionAccess::Cpu),  // DEC A
        0x3e => Some(InstructionAccess::CpuWithMemory),  // LD A, u8
        0x4f => Some(InstructionAccess::Cpu),  // LD C, A
        0x57 => Some(InstructionAccess::Cpu),  // LD D, A
        0x67 => Some(InstructionAccess::Cpu),  // LD H, A
        0x77 => Some(InstructionAccess::CpuWithMemory),  // LD (HL), A
        0x7b => Some(InstructionAccess::Cpu),  // LD A, E
        0x7c => Some(InstructionAccess::Cpu),  // LD A, H
        0x80 => Some(InstructionAccess::Cpu),  // ADD A, B
        0x90 => Some(InstructionAccess::Cpu),  // SUB A, B
        0xaf => Some(InstructionAccess::Cpu),  // XOR A, A
        0xc1 => Some(InstructionAccess::CpuWithMemory),  // POP BC
        0xc5 => Some(InstructionAccess::CpuWithMemory),  // PUSH BC
        0xc9 => Some(InstructionAccess::CpuWithMemory),  // RET
        0xcb => Some(InstructionAccess::CpuWithMemory),  // prefixed instructions
        0xcd => Some(InstructionAccess::CpuWithMemory),  // CALL u16
        0xd9 => Some(InstructionAccess::CpuWithMemory),  // RETI
        0xe0 => Some(InstructionAccess::CpuWithMemory),  // LD (FF00+u8), A
        0xe2 => Some(InstructionAccess::CpuWithMemory),  // LD (FF00+C), A
        0xea => Some(InstructionAccess::CpuWithMemory),  // LD (u16), A
        0xf0 => Some(InstructionAccess::CpuWithMemory),  // LD A, (FF00+u8)
        0xf3 => Some(InstructionAccess::Cpu),  // DI
        0xfb => Some(InstructionAccess::Cpu),  // EI
        0xfe => Some(InstructionAccess::CpuWithMemory),  // CP A, u8
        _ => None,
    }
}

/// True when the opcode byte has an entry in the base table.
pub open spec fn base_defined(opcode: u8) -> bool {
    spec_lookup(opcode) is Some
}

/// The prefixed opcode table, keyed by the byte following the `0xcb`
/// prefix.
pub open spec fn spec_lookup_prefix(opcode: u8) -> Option<InstructionAccess> {
    match opcode {
        0x00 => Some(InstructionAccess::Cpu),  // RLC B
        0x01 => Some(InstructionAccess::Cpu),  // RLC C
        0x02 => Some(InstructionAccess::Cpu),  // RLC D
        0x03 => Some(InstructionAccess::Cpu),  // RLC E
        0x04 => Some(InstructionAccess::Cpu),  // RLC H
        0x05 => Some(InstructionAccess::Cpu),  // RLC L
        0x06 => Some(InstructionAccess::CpuWithMemory),  // RLC (HL)
        0x07 => Some(InstructionAccess::Cpu),  // RLC A
        0x08 => Some(InstructionAccess::Cpu),  // RRC B
        0x09 => Some(InstructionAccess::Cpu),  // RRC C
        0x0a => Some(InstructionAccess::Cpu),  // RRC D
        0x0b => Some(InstructionAccess::Cpu),  // RRC E
        0x0c => Some(InstructionAccess::Cpu),  // RRC H
        0x0d => Some(InstructionAccess::Cpu),  // RRC L
        0x0e => Some(InstructionAccess::CpuWithMemory),  // RRC (HL)
        0x0f => Some(InstructionAccess::Cpu),  // RRC A
        0x11 => Some(InstructionAccess::Cpu),  // RL C
        0x17 => Some(InstructionAccess::Cpu),  // RL A
        0x7c => Some(InstructionAccess::Cpu),  // BIT 7, H
        _ => None,
    }
}

/// True when the byte after the prefix has an entry in the prefixed table.
pub open spec fn prefix_defined(opcode: u8) -> bool {
    spec_lookup_prefix(opcode) is Some
}

/// Looks an opcode byte up in the base table.
pub fn lookup(opcode: u8) -> (r: Option<InstructionAccess>)
    ensures
        r == spec_lookup(opcode),
{
    match opcode {
        0x00 => Some(InstructionAccess::Cpu),
        0x04 => Some(InstructionAccess::Cpu),
        0x05 => Some(InstructionAccess::Cpu),
        0x06 => Some(InstructionAccess::CpuWithMemory),
        0x0c => Some(InstructionAccess::Cpu),
        0x0d => Some(InstructionAccess::Cpu),
        0x0e => Some(InstructionAccess::CpuWithMemory),
        0x11 => Some(InstructionAccess::CpuWithMemory),
        0x13 => Some(InstructionAccess::Cpu),
        0x15 => Some(InstructionAccess::Cpu),
        0x16 => Some(InstructionAccess::CpuWithMemory),
        0x17 => Some(InstructionAccess::Cpu),
        0x18 => Some(InstructionAccess::CpuWithMemory),
        0x1a => Some(InstructionAccess::CpuWithMemory),
        0x1d => Some(InstructionAccess::Cpu),
        0x1e => Some(InstructionAccess::CpuWithMemory),
        0x20 => Some(InstructionAccess::CpuWithMemory),
        0x21 => Some(InstructionAccess::CpuWithMemory),
        0x22 => Some(InstructionAccess::CpuWithMemory),
        0x23 => Some(InstructionAccess::Cpu),
        0x24 => Some(InstructionAccess::Cpu),
        0x28 => Some(InstructionAccess::CpuWithMemory),
        0x31 => Some(InstructionAccess::CpuWithMemory),
        0x32 => Some(InstructionAccess::CpuWithMemory),
        0x3d => Some(InstructionAccess::Cpu),
        0x3e => Some(InstructionAccess::CpuWithMemory),
        0x4f => Some(InstructionAccess::Cpu),
        0x57 => Some(InstructionAccess::Cpu),
        0x67 => Some(InstructionAccess::Cpu),
        0x77 => Some(InstructionAccess::CpuWithMemory),
        0x7b => Some(InstructionAccess::Cpu),
        0x7c => Some(InstructionAccess::Cpu),
        0x80 => Some(InstructionAccess::Cpu),
        0x90 => Some(InstructionAccess::Cpu),
        0xaf => Some(InstructionAccess::Cpu),
        0xc1 => Some(InstructionAccess::CpuWithMemory),
        0xc5 => Some(InstructionAccess::CpuWithMemory),
        0xc9 => Some(InstructionAccess::CpuWithMemory),
        0xcb => Some(InstructionAccess::CpuWithMemory),
        0xcd => Some(InstructionAccess::CpuWithMemory),
        0xd9 => Some(InstructionAccess::CpuWithMemory),
        0xe0 => Some(InstructionAccess::CpuWithMemory),
        0xe2 => Some(InstructionAccess::CpuWithMemory),
        0xea => Some(InstructionAccess::CpuWithMemory),
        0xf0 => Some(InstructionAccess::CpuWithMemory),
        0xf3 => Some(InstructionAccess::Cpu),
        0xfb => Some(InstructionAccess::Cpu),
        0xfe => Some(InstructionAccess::CpuWithMemory),
        _ => None,
    }
}

/// Looks the byte after the `0xcb` prefix up in the prefixed table.
pub fn lookup_prefix(opcode: u8) -> (r: Option<InstructionAccess>)
    ensures
        r == spec_lookup_prefix(opcode),
{
    match opcode {
        0x00 => Some(InstructionAccess::Cpu),
        0x01 => Some(InstructionAccess::Cpu),
        0x02 => Some(InstructionAccess::Cpu),
        0x03 => Some(InstructionAccess::Cpu),
        0x04 => Some(InstructionAccess::Cpu),
        0x05 => Some(InstructionAccess::Cpu),
        0x06 => Some(InstructionAccess::CpuWithMemory),
        0x07 => Some(InstructionAccess::Cpu),
        0x08 => Some(InstructionAccess::Cpu),
        0x09 => Some(InstructionAccess::Cpu),
        0x0a => Some(InstructionAccess::Cpu),
        0x0b => Some(InstructionAccess::Cpu),
        0x0c => Some(InstructionAccess::Cpu),
        0x0d => Some(InstructionAccess::Cpu),
        0x0e => Some(InstructionAccess::CpuWithMemory),
        0x0f => Some(InstructionAccess::Cpu),
        0x11 => Some(InstructionAccess::Cpu),
        0x17 => Some(InstructionAccess::Cpu),
        0x7c => Some(InstructionAccess::Cpu),
        _ => None,
    }
}

} // verus!
