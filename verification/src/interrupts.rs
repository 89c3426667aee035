//! The interrupt-dispatch protocol. After each instruction, if the
//! interrupt-master-enable flag is set, the pending (IF) and enabled (IE)
//! bits are intersected; the lowest-numbered set bit wins, in the fixed
//! order V-Blank, LCD-STAT, Timer, Serial, Joypad. Servicing one clears
//! IME and the pending bit, pushes the current PC with the CALL byte
//! discipline, jumps to the interrupt's fixed vector, and charges a fixed
//! dispatch cost of 20 T-cycles.

use vstd::prelude::*;
use crate::alu::{dec16, hi8, lo8};
use crate::cpu::Cpu;
use crate::memory::{Memory, IE_ADDR, IF_ADDR};

verus! {

/// T-cycles charged for dispatching one interrupt (on top of the cost of
/// the instruction that just completed).
pub const ISR_DISPATCH_COST: u16 = 20;

/// Servicing one interrupt source: IME cleared, the source's IF bit
/// cleared, PC pushed (high byte at the higher address), PC set to the
/// vector, and the dispatch cost charged.
pub open spec fn spec_service(cpu: Cpu, mem: Seq<u8>, mask: u8, vector: u16) -> (Cpu, Seq<u8>) {
    let mem1 = mem.update(IF_ADDR as int, mem[IF_ADDR as int] & (mask ^ 0xff));
    let sp1 = dec16(cpu.sp);
    let mem2 = mem1.update(sp1 as int, hi8(cpu.pc));
    let sp2 = dec16(sp1);
    let mem3 = mem2.update(sp2 as int, lo8(cpu.pc));
    (
        Cpu {
            ime: false,
            sp: sp2,
            pc: vector,
            div_ctrl: (cpu.div_ctrl + ISR_DISPATCH_COST) as u16,
            ..cpu
        },
        mem3,
    )
}

/// The interrupt check run after every instruction: nothing happens unless
/// IME is set and some enabled interrupt is pending; otherwise the
/// lowest-numbered pending-and-enabled bit is serviced.
pub open spec fn spec_check_interrupts(cpu: Cpu, mem: Seq<u8>) -> (Cpu, Seq<u8>) {
    if !cpu.ime {
        (cpu, mem)
    } else {
        let pending = mem[IF_ADDR as int] & mem[IE_ADDR as int];
        if pending & 0x01 == 0x01 {
            spec_service(cpu, mem, 0x01, 0x40)
        } else if pending & 0x02 == 0x02 {
            spec_service(cpu, mem, 0x02, 0x48)
        } else if pending & 0x04 == 0x04 {
            spec_service(cpu, mem, 0x04, 0x50)
        } else if pending & 0x08 == 0x08 {
            spec_service(cpu, mem, 0x08, 0x58)
        } else if pending & 0x10 == 0x10 {
            spec_service(cpu, mem, 0x10, 0x60)
        } else {
            (cpu, mem)
        }
    }
}

/// Performs the dispatch protocol for one source: clears IME and the
/// source's IF bit, pushes PC, jumps to the vector, charges the cost.
fn service_interrupt(cpu: &mut Cpu, memory: &mut Memory, mask: u8, vector: u16)
    requires
        old(memory).wf(),
        old(cpu).div_ctrl <= u16::MAX - 20,
    ensures
        final(memory).wf(),
        (*final(cpu), final(memory)@) == spec_service(*old(cpu), old(memory)@, mask, vector),
{
    cpu.ime = false;
    let requests = memory.read_byte(IF_ADDR);
    memory.write_byte(IF_ADDR, requests & (mask ^ 0xff));
    cpu.sp = cpu.sp.wrapping_sub(1);
    memory.write_byte(cpu.sp, (cpu.pc / 0x100) as u8);
    cpu.sp = cpu.sp.wrapping_sub(1);
    memory.write_byte(cpu.sp, (cpu.pc % 0x100) as u8);
    cpu.pc = vector;
    cpu.div_ctrl = cpu.div_ctrl + ISR_DISPATCH_COST;
}

/// Dispatches the V-Blank interrupt (bit 0, vector 0x40).
pub fn vblank_interrupt_handler(cpu: &mut Cpu, memory: &mut Memory)
    requires
        old(memory).wf(),
        old(cpu).div_ctrl <= u16::MAX - 20,
    ensures
        final(memory).wf(),
        (*final(cpu), final(memory)@) == spec_service(*old(cpu), old(memory)@, 0x01, 0x40),
{
    service_interrupt(cpu, memory, 0x01, 0x40);
}

/// Dispatches the LCD-STAT interrupt (bit 1, vector 0x48).
pub fn lcd_stat_interrupt_handler(cpu: &mut Cpu, memory: &mut Memory)
    requires
        old(memory).wf(),
        old(cpu).div_ctrl <= u16::MAX - 20,
    ensures
        final(memory).wf(),
        (*final(cpu), final(memory)@) == spec_service(*old(cpu), old(memory)@, 0x02, 0x48),
{
    service_interrupt(cpu, memory, 0x02, 0x48);
}

/// Dispatches the Timer interrupt (bit 2, vector 0x50).
pub fn timer_interrupt_handler(cpu: &mut Cpu, memory: &mut Memory)
    requires
        old(memory).wf(),
        old(cpu).div_ctrl <= u16::MAX - 20,
    ensures
        final(memory).wf(),
        (*final(cpu), final(memory)@) == spec_service(*old(cpu), old(memory)@, 0x04, 0x50),
{
    service_interrupt(cpu, memory, 0x04, 0x50);
}

/// Dispatches the Serial interrupt (bit 3, vector 0x58).
pub fn serial_interrupt_handler(cpu: &mut Cpu, memory: &mut Memory)
    requires
        old(memory).wf(),
        old(cpu).div_ctrl <= u16::MAX - 20,
    ensures
        final(memory).wf(),
        (*final(cpu), final(memory)@) == spec_service(*old(cpu), old(memory)@, 0x08, 0x58),
{
    service_interrupt(cpu, memory, 0x08, 0x58);
}

/// Dispatches the Joypad interrupt (bit 4, vector 0x60).
pub fn joypad_interrupt_handler(cpu: &mut Cpu, memory: &mut Memory)
    requires
        old(memory).wf(),
        old(cpu).div_ctrl <= u16::MAX - 20,
    ensures
        final(memory).wf(),
        (*final(cpu), final(memory)@) == spec_service(*old(cpu), old(memory)@, 0x10, 0x60),
{
    service_interrupt(cpu, memory, 0x10, 0x60);
}

/// Runs the interrupt check: reads IF and IE and services the highest-
/// priority pending, enabled interrupt, if IME allows any at all.
pub fn check_interrupts(cpu: &mut Cpu, memory: &mut Memory)
    requires
        old(memory).wf(),
        old(cpu).div_ctrl <= u16::MAX - 20,
    ensures
        final(memory).wf(),
        (*final(cpu), final(memory)@) == spec_check_interrupts(*old(cpu), old(memory)@),
{
    if cpu.ime {
        let requests = memory.read_byte(IF_ADDR);
        let enables = memory.read_byte(IE_ADDR);
        let pending = requests & enables;
        if pending & 0x01 == 0x01 {
            vblank_interrupt_handler(cpu, memory);
        } else if pending & 0x02 == 0x02 {
            lcd_stat_interrupt_handler(cpu, memory);
        } else if pending & 0x04 == 0x04 {
            timer_interrupt_handler(cpu, memory);
        } else if pending & 0x08 == 0x08 {
            serial_interrupt_handler(cpu, memory);
        } else if pending & 0x10 == 0x10 {
            joypad_interrupt_handler(cpu, memory);
        }
    }
}

} // verus!
