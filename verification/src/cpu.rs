//! The CPU orchestrator: the register file, program counter, stack pointer,
//! interrupt-master-enable flag and the divider-timer accumulator, and the
//! fetch, decode, execute, timer-tick, interrupt-check loop that drives them.

use vstd::prelude::*;
use crate::alu::{inc8, inc16};
use crate::instructions::{
    op_00, op_04, op_05, op_06, op_0c, op_0d, op_0e, op_11, op_13, op_15, op_16, op_17, op_18,
    op_1a, op_1d, op_1e, op_20, op_21, op_22, op_23, op_24, op_28, op_31, op_32, op_3d, op_3e,
    op_4f, op_57, op_67, op_77, op_7b, op_7c, op_80, op_90, op_af, op_c1, op_c5, op_c9, op_cd,
    op_d9, op_e0, op_e2, op_ea, op_f0, op_f3, op_fb, op_fe, spec_exec_base,
};
use crate::interrupts::{check_interrupts, spec_check_interrupts};
use crate::lookup::{base_defined, lookup, lookup_prefix, spec_lookup, spec_lookup_prefix};
use crate::memory::{Memory, DIV_ADDR};
use crate::prefixed::{prefix, spec_exec_prefixed};
use crate::registers::Regs;

verus! {

/// A decode failure: the fetched byte (or, for a prefixed instruction, the
/// byte after the prefix) has no entry in the corresponding opcode table.
/// The instruction cannot be executed; the caller decides how to proceed.
#[derive(Clone, Copy, Debug, PartialEq, Eq, Structural)]
pub enum CpuError {
    /// The byte has no entry in the base opcode table.
    UnimplementedOpcode(u8),
    /// The byte after the `0xcb` prefix has no entry in the prefixed opcode
    /// table.
    UnimplementedPrefixedOpcode(u8),
}

/// The CPU state: register file, stack pointer, program counter, the
/// interrupt-master-enable flag (with the pending-enable bit EI uses for
/// its one-instruction delay), and the free-running T-cycle accumulator
/// the divider register is derived from.
#[derive(Clone, Copy, Debug, PartialEq, Eq, Structural)]
pub struct Cpu {
    pub regs: Regs,
    pub sp: u16,
    pub pc: u16,
    pub ime: bool,
    /// Set by EI; IME itself turns on only after the *next* instruction
    /// completes.
    pub ime_delay: bool,
    pub div_ctrl: u16,
}

/// The divider register ticks each time the accumulator crosses this many
/// T-cycles.
pub const DIV_PERIOD: u16 = 0x100;

/// What the divider-timer step does: every time the accumulator has reached
/// a full period, the divider register (in memory) is incremented by one
/// with 8-bit wraparound and the accumulator keeps the remainder.
pub open spec fn spec_tick(cpu: Cpu, mem: Seq<u8>) -> (Cpu, Seq<u8>) {
    if cpu.div_ctrl >= DIV_PERIOD {
        (
            Cpu { div_ctrl: (cpu.div_ctrl - DIV_PERIOD) as u16, ..cpu },
            mem.update(DIV_ADDR as int, inc8(mem[DIV_ADDR as int])),
        )
    } else {
        (cpu, mem)
    }
}

impl Cpu {
    /// The accumulator never strays more than one instruction's worth of
    /// cycles past a full divider period, so a single subtraction per step
    /// keeps the remainder exact.
    pub open spec fn wf(&self) -> bool {
        self.div_ctrl < 2 * DIV_PERIOD
    }

    /// A fresh CPU: all registers zeroed, PC and SP zero, interrupts
    /// enabled, no cycles accumulated.
    pub fn new() -> (r: Cpu)
        ensures
            r == (Cpu {
                regs: Regs { a: 0, f: 0, b: 0, c: 0, d: 0, e: 0, h: 0, l: 0 },
                sp: 0,
                pc: 0,
                ime: true,
                ime_delay: false,
                div_ctrl: 0,
            }),
            r.wf(),
    {
        Cpu { regs: Regs::zeroed(), sp: 0, pc: 0, ime: true, ime_delay: false, div_ctrl: 0 }
    }

    /// The byte at the current PC, without consuming it.
    pub fn fetch_next_byte(&self, memory: &Memory) -> (r: u8)
        requires
            memory.wf(),
        ensures
            r == memory@[self.pc as int],
    {
        memory.read_byte(self.pc)
    }

    /// The byte at the current PC; PC moves past it (with 16-bit
    /// wraparound).
    pub fn consume_byte(&mut self, memory: &Memory) -> (r: u8)
        requires
            memory.wf(),
        ensures
            r == memory@[old(self).pc as int],
            *final(self) == (Cpu { pc: inc16(old(self).pc), ..*old(self) }),
    {
        let byte = memory.read_byte(self.pc);
        self.pc = self.pc.wrapping_add(1);
        byte
    }

    /// Adds one instruction's cycle cost to the divider accumulator and
    /// ticks the divider register when a full period has elapsed.
    pub fn tick_divider(&mut self, memory: &mut Memory)
        requires
            old(memory).wf(),
        ensures
            final(memory).wf(),
            (*final(self), final(memory)@) == spec_tick(*old(self), old(memory)@),
    {
        if self.div_ctrl >= DIV_PERIOD {
            self.div_ctrl = self.div_ctrl - DIV_PERIOD;
            let div = memory.read_byte(DIV_ADDR);
            let new_div: u8 = if div == 0xff {
                0
            } else {
                div + 1
            };
            memory.write_byte(DIV_ADDR, new_div);
        }
    }

    /// Executes one already-consumed, defined, non-prefix base opcode by
    /// dispatching to its instruction-set entry.
    pub fn decode_execute(&mut self, opcode: u8, memory: &mut Memory)
        requires
            old(memory).wf(),
            base_defined(opcode),
            opcode != 0xcb,
            old(self).div_ctrl <= u16::MAX - 24,
        ensures
            final(memory).wf(),
            (*final(self), final(memory)@) == spec_exec_base(opcode, *old(self), old(memory)@),
    {
        match opcode {
            0x00 => op_00(self),
            0x04 => op_04(self),
            0x05 => op_05(self),
            0x06 => op_06(self, memory),
            0x0c => op_0c(self),
            0x0d => op_0d(self),
            0x0e => op_0e(self, memory),
            0x11 => op_11(self, memory),
            0x13 => op_13(self),
            0x15 => op_15(self),
            0x16 => op_16(self, memory),
            0x17 => op_17(self),
            0x18 => op_18(self, memory),
            0x1a => op_1a(self, memory),
            0x1d => op_1d(self),
            0x1e => op_1e(self, memory),
            0x20 => op_20(self, memory),
            0x21 => op_21(self, memory),
            0x22 => op_22(self, memory),
            0x23 => op_23(self),
            0x24 => op_24(self),
            0x28 => op_28(self, memory),
            0x31 => op_31(self, memory),
            0x32 => op_32(self, memory),
            0x3d => op_3d(self),
            0x3e => op_3e(self, memory),
            0x4f => op_4f(self),
            0x57 => op_57(self),
            0x67 => op_67(self),
            0x77 => op_77(self, memory),
            0x7b => op_7b(self),
            0x7c => op_7c(self),
            0x80 => op_80(self),
            0x90 => op_90(self),
            0xaf => op_af(self),
            0xc1 => op_c1(self, memory),
            0xc5 => op_c5(self, memory),
            0xc9 => op_c9(self, memory),
            0xcd => op_cd(self, memory),
            0xd9 => op_d9(self, memory),
            0xe0 => op_e0(self, memory),
            0xe2 => op_e2(self, memory),
            0xea => op_ea(self, memory),
            0xf0 => op_f0(self, memory),
            0xf3 => op_f3(self),
            0xfb => op_fb(self),
            0xfe => op_fe(self, memory),
            _ => (),
        }
    }

    /// Executes exactly one instruction's worth of fetch, decode, execute,
    /// divider tick and interrupt check. On a decode failure nothing at all
    /// changes and the failure is reported.
    #[verifier::rlimit(60)]
    pub fn step(&mut self, memory: &mut Memory) -> (r: Result<(), CpuError>)
        requires
            old(self).wf(),
            old(memory).wf(),
        ensures
            final(self).wf(),
            final(memory).wf(),
            match r {
                Ok(()) => Some((*final(self), final(memory)@)) == spec_step(
                    *old(self),
                    old(memory)@,
                ),
                Err(e) => {
                    &&& *final(self) == *old(self)
                    &&& final(memory)@ == old(memory)@
                    &&& spec_step(*old(self), old(memory)@) is None
                    &&& e == spec_step_error(*old(self), old(memory)@)
                },
            },
    {
        let enable_after = self.ime_delay;
        let opcode = self.fetch_next_byte(memory);
        if opcode == 0xcb {
            let prefixed_opcode = memory.read_byte(self.pc.wrapping_add(1));
            if lookup_prefix(prefixed_opcode).is_none() {
                return Err(CpuError::UnimplementedPrefixedOpcode(prefixed_opcode));
            }
            let _prefix_byte: u8 = self.consume_byte(memory);
            match prefix(self, memory) {
                Ok(()) => (),
                Err(e) => {
                    // Unreachable: the prefixed entry was checked above.
                    return Err(e);
                },
            }
        } else {
            if lookup(opcode).is_none() {
                return Err(CpuError::UnimplementedOpcode(opcode));
            }
            let _opcode_byte: u8 = self.consume_byte(memory);
            self.decode_execute(opcode, memory);
        }
        // An EI from the *previous* instruction takes effect now, after the
        // following instruction has completed — unless that instruction
        // itself cancelled the request (DI).
        if enable_after && self.ime_delay {
            self.ime = true;
            self.ime_delay = false;
        }
        self.tick_divider(memory);
        check_interrupts(self, memory);
        Ok(())
    }

    /// Runs the CPU for up to `max_steps` instructions. Stops early only on
    /// a decode failure, reporting it with the state left exactly as it was
    /// when decoding failed; the budget is the host's termination decision,
    /// the core itself has no stopping condition.
    pub fn run(&mut self, memory: &mut Memory, max_steps: u64) -> (r: Option<CpuError>)
        requires
            old(self).wf(),
            old(memory).wf(),
        ensures
            final(self).wf(),
            final(memory).wf(),
            (*final(self), final(memory)@, r) == spec_run(
                *old(self),
                old(memory)@,
                max_steps as nat,
            ),
    {
        let mut steps_left: u64 = max_steps;
        loop
            invariant
                self.wf(),
                memory.wf(),
                spec_run(*old(self), old(memory)@, max_steps as nat) == spec_run(
                    *self,
                    memory@,
                    steps_left as nat,
                ),
            decreases steps_left,
        {
            if steps_left == 0 {
                return None;
            }
            steps_left = steps_left - 1;
            match self.step(memory) {
                Ok(()) => (),
                Err(e) => {
                    return Some(e);
                },
            }
        }
    }
}

/// Repeated stepping with a fuel budget: the state and report after at most
/// `fuel` instructions, stopping early exactly at the first decode failure.
pub open spec fn spec_run(cpu: Cpu, mem: Seq<u8>, fuel: nat) -> (Cpu, Seq<u8>, Option<CpuError>)
    decreases fuel,
{
    if fuel == 0 {
        (cpu, mem, None)
    } else {
        match spec_step(cpu, mem) {
            Some(stepped) => spec_run(stepped.0, stepped.1, (fuel - 1) as nat),
            None => (cpu, mem, Some(spec_step_error(cpu, mem))),
        }
    }
}

/// The delayed effect of EI: an enable that was pending when an instruction
/// began takes hold once that instruction completes, unless the instruction
/// itself withdrew the request (DI).
pub open spec fn spec_apply_pending_enable(cpu: Cpu, pending: bool) -> Cpu {
    if pending && cpu.ime_delay {
        Cpu { ime: true, ime_delay: false, ..cpu }
    } else {
        cpu
    }
}

/// One whole step of the machine, as a function of the starting state:
/// `None` exactly when the byte at PC (or, after a `0xcb` prefix, the byte
/// after it) has no table entry; otherwise the state after the instruction,
/// the delayed interrupt enable, the divider tick, and the interrupt check.
pub open spec fn spec_step(cpu: Cpu, mem: Seq<u8>) -> Option<(Cpu, Seq<u8>)> {
    let opcode = mem[cpu.pc as int];
    if opcode == 0xcb {
        if spec_lookup_prefix(mem[inc16(cpu.pc) as int]) is Some {
            let executed = spec_exec_prefixed(
                mem[inc16(cpu.pc) as int],
                Cpu { pc: inc16(inc16(cpu.pc)), ..cpu },
                mem,
                4,
            );
            let enabled = spec_apply_pending_enable(executed.0, cpu.ime_delay);
            let ticked = spec_tick(enabled, executed.1);
            Some(spec_check_interrupts(ticked.0, ticked.1))
        } else {
            None
        }
    } else if spec_lookup(opcode) is Some {
        let executed = spec_exec_base(opcode, Cpu { pc: inc16(cpu.pc), ..cpu }, mem);
        let enabled = spec_apply_pending_enable(executed.0, cpu.ime_delay);
        let ticked = spec_tick(enabled, executed.1);
        Some(spec_check_interrupts(ticked.0, ticked.1))
    } else {
        None
    }
}

/// The divider register advances by exactly one for every full period of
/// 256 T-cycles of accumulated cost, and by nothing sooner: charging `cost`
/// cycles to an in-range accumulator and running the divider tick increments
/// the divider (with 8-bit wraparound, through `inc8`) exactly when a full
/// period has elapsed, and the cycles are conserved: 256 times the number of
/// increments plus the new accumulator value equals the cycles accumulated.
pub proof fn lemma_divider_period(cpu: Cpu, mem: Seq<u8>, cost: u16)
    requires
        mem.len() == 0x10000,
        cpu.div_ctrl < DIV_PERIOD,
        cost < DIV_PERIOD,
    ensures
        ({
            let charged = Cpu { div_ctrl: (cpu.div_ctrl + cost) as u16, ..cpu };
            let ticked = spec_tick(charged, mem);
            let increments: int = if cpu.div_ctrl + cost >= DIV_PERIOD {
                1
            } else {
                0
            };
            &&& ticked.1[DIV_ADDR as int] == (if cpu.div_ctrl + cost >= DIV_PERIOD {
                inc8(mem[DIV_ADDR as int])
            } else {
                mem[DIV_ADDR as int]
            })
            &&& 256 * increments + ticked.0.div_ctrl == cpu.div_ctrl + cost
            &&& ticked.0.div_ctrl < DIV_PERIOD
        }),
{
}

/// The decode failure a step from this state reports, meaningful when
/// `spec_step` is `None`.
pub open spec fn spec_step_error(cpu: Cpu, mem: Seq<u8>) -> CpuError {
    if mem[cpu.pc as int] == 0xcb {
        CpuError::UnimplementedPrefixedOpcode(mem[inc16(cpu.pc) as int])
    } else {
        CpuError::UnimplementedOpcode(mem[cpu.pc as int])
    }
}

} // verus!
