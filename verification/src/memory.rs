//! A byte-addressable 64 KiB memory image, the surface the CPU core reads
//! opcodes and operands from and writes stores and stack pushes to. Reads
//! and writes are total over the full 16-bit address space. The divider,
//! interrupt-flag and interrupt-enable registers live at fixed addresses in
//! this space.

use vstd::prelude::*;

verus! {

/// Address of the divider register, incremented every 256 elapsed T-cycles.
pub const DIV_ADDR: u16 = 0xff04;

/// Address of the interrupt-flag register (one pending bit per source).
pub const IF_ADDR: u16 = 0xff0f;

/// Address of the interrupt-enable register (one mask bit per source).
pub const IE_ADDR: u16 = 0xffff;

/// A flat 64 KiB byte-addressable memory.
pub struct Memory {
    pub bytes: Vec<u8>,
}

impl View for Memory {
    type V = Seq<u8>;

    open spec fn view(&self) -> Seq<u8> {
        self.bytes@
    }
}

impl Memory {
    /// The memory covers the whole 16-bit address space.
    pub open spec fn wf(&self) -> bool {
        self.bytes@.len() == 0x10000
    }

    /// A fresh memory with every byte zero.
    pub fn new() -> (r: Memory)
        ensures
            r.wf(),
            r@ == Seq::new(0x10000, |i: int| 0u8),
    {
        let mut bytes: Vec<u8> = Vec::new();
        let mut i: usize = 0;
        while i < 0x10000
            invariant
                i <= 0x10000,
                bytes@.len() == i,
                forall|j: int| 0 <= j < i ==> bytes@[j] == 0u8,
            decreases 0x10000 - i,
        {
            bytes.push(0);
            i = i + 1;
        }
        proof {
            assert(bytes@ =~= Seq::new(0x10000, |i: int| 0u8));
        }
        Memory { bytes }
    }

    /// The byte at `address`; total over the full address space.
    pub fn read_byte(&self, address: u16) -> (r: u8)
        requires
            self.wf(),
        ensures
            r == self@[address as int],
    {
        self.bytes[address as usize]
    }

    /// Replaces the byte at `address`; total over the full address space.
    pub fn write_byte(&mut self, address: u16, value: u8)
        requires
            old(self).wf(),
        ensures
            final(self).wf(),
            final(self)@ == old(self)@.update(address as int, value),
    {
        self.bytes.set(address as usize, value);
    }
}

} // verus!
