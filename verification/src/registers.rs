//! The register file: eight 8-bit registers with paired 16-bit views, and the
//! four flag bits (Z, N, H, C) packed into the high nibble of F. The low
//! nibble of F is architecturally always zero, so every write to F masks it
//! off.

use vstd::prelude::*;
use crate::alu::{compose16, hi8, inc8, lo8};

verus! {

/// Names for the four flag bits packed into the high nibble of F.
pub struct Flags;

impl Flags {
    /// Zero flag: the last arithmetic result was zero.
    pub const Z: u8 = 0x80;

    /// Subtraction flag: the last arithmetic operation was a subtraction.
    pub const N: u8 = 0x40;

    /// Half-carry flag: a carry or borrow crossed the nibble boundary.
    pub const H: u8 = 0x20;

    /// Carry flag: a carry or borrow crossed bit 7.
    pub const C: u8 = 0x10;
}

/// True exactly when the Z bit of a flag byte is set.
pub open spec fn z_set(f: u8) -> bool {
    f & 0x80 == 0x80
}

/// True exactly when the N bit of a flag byte is set.
pub open spec fn n_set(f: u8) -> bool {
    f & 0x40 == 0x40
}

/// True exactly when the H bit of a flag byte is set.
pub open spec fn h_set(f: u8) -> bool {
    f & 0x20 == 0x20
}

/// True exactly when the C bit of a flag byte is set.
pub open spec fn c_set(f: u8) -> bool {
    f & 0x10 == 0x10
}

/// The flag byte with exactly the given four flags set and the low nibble
/// clear.
pub open spec fn flag_byte(z: bool, n: bool, h: bool, c: bool) -> u8 {
    ((if z {
        0x80int
    } else {
        0
    }) + (if n {
        0x40int
    } else {
        0
    }) + (if h {
        0x20int
    } else {
        0
    }) + (if c {
        0x10int
    } else {
        0
    })) as u8
}

proof fn lemma_flag_nibble_bits(zb: u8, nb: u8, hb: u8, cb: u8)
    by (bit_vector)
    requires
        zb == 0x80 || zb == 0,
        nb == 0x40 || nb == 0,
        hb == 0x20 || hb == 0,
        cb == 0x10 || cb == 0,
    ensures
        ((zb + nb + hb + cb) as u8) & 0xf0 == (zb + nb + hb + cb) as u8,
        ((zb + nb + hb + cb) as u8) & 0x0f == 0,
        (((zb + nb + hb + cb) as u8) & 0x80 == 0x80) <==> zb == 0x80,
        (((zb + nb + hb + cb) as u8) & 0x40 == 0x40) <==> nb == 0x40,
        (((zb + nb + hb + cb) as u8) & 0x20 == 0x20) <==> hb == 0x20,
        (((zb + nb + hb + cb) as u8) & 0x10 == 0x10) <==> cb == 0x10,
{
}

/// A flag byte built by `flag_byte` has a clear low nibble, and testing any
/// one of its four bits recovers the argument that bit was built from.
pub broadcast proof fn lemma_flag_byte(z: bool, n: bool, h: bool, c: bool)
    ensures
        #[trigger] flag_byte(z, n, h, c) & 0xf0 == flag_byte(z, n, h, c),
        flag_byte(z, n, h, c) & 0x0f == 0,
        z_set(flag_byte(z, n, h, c)) == z,
        n_set(flag_byte(z, n, h, c)) == n,
        h_set(flag_byte(z, n, h, c)) == h,
        c_set(flag_byte(z, n, h, c)) == c,
{
    lemma_flag_nibble_bits(
        if z {
            0x80
        } else {
            0
        },
        if n {
            0x40
        } else {
            0
        },
        if h {
            0x20
        } else {
            0
        },
        if c {
            0x10
        } else {
            0
        },
    );
}

/// Spec-level name of one 8-bit register, used to state instruction
/// semantics once for a whole family of opcodes.
pub enum R8 {
    A,
    B,
    C,
    D,
    E,
    H,
    L,
}

/// Spec-level name of one 16-bit register pair held in the register file.
pub enum R16 {
    BC,
    DE,
    HL,
}

/// The value of the named 8-bit register.
pub open spec fn get8(regs: Regs, which: R8) -> u8 {
    match which {
        R8::A => regs.a,
        R8::B => regs.b,
        R8::C => regs.c,
        R8::D => regs.d,
        R8::E => regs.e,
        R8::H => regs.h,
        R8::L => regs.l,
    }
}

/// The register file with the named 8-bit register replaced by `v`.
pub open spec fn with8(regs: Regs, which: R8, v: u8) -> Regs {
    match which {
        R8::A => Regs { a: v, ..regs },
        R8::B => Regs { b: v, ..regs },
        R8::C => Regs { c: v, ..regs },
        R8::D => Regs { d: v, ..regs },
        R8::E => Regs { e: v, ..regs },
        R8::H => Regs { h: v, ..regs },
        R8::L => Regs { l: v, ..regs },
    }
}

/// The value of the named 16-bit register pair.
pub open spec fn get16(regs: Regs, which: R16) -> u16 {
    match which {
        R16::BC => regs.spec_bc(),
        R16::DE => regs.spec_de(),
        R16::HL => regs.spec_hl(),
    }
}

/// The register file with the named pair replaced by `v` (high byte to the
/// first-named register, low byte to the second).
pub open spec fn with16(regs: Regs, which: R16, v: u16) -> Regs {
    match which {
        R16::BC => Regs { b: hi8(v), c: lo8(v), ..regs },
        R16::DE => Regs { d: hi8(v), e: lo8(v), ..regs },
        R16::HL => Regs { h: hi8(v), l: lo8(v), ..regs },
    }
}

/// The eight 8-bit registers. AF, BC, DE and HL pair them into 16-bit views
/// with the first-named register in the high byte.
#[derive(Clone, Copy, Debug, PartialEq, Eq, Structural)]
pub struct Regs {
    pub a: u8,
    pub f: u8,
    pub b: u8,
    pub c: u8,
    pub d: u8,
    pub e: u8,
    pub h: u8,
    pub l: u8,
}

impl Regs {
    /// The register file with every register zeroed.
    pub fn zeroed() -> (r: Regs)
        ensures
            r == (Regs { a: 0, f: 0, b: 0, c: 0, d: 0, e: 0, h: 0, l: 0 }),
    {
        Regs { a: 0, f: 0, b: 0, c: 0, d: 0, e: 0, h: 0, l: 0 }
    }

    /// True only if every bit of `flag` is set in F.
    pub fn is_flag_set(&self, flag: u8) -> (r: bool)
        ensures
            r == (self.f & flag == flag),
    {
        self.f & flag == flag
    }

    /// True only if every bit of `flags` is set in F.
    pub fn are_flags_set(&self, flags: u8) -> (r: bool)
        ensures
            r == (self.f & flags == flags),
    {
        self.f & flags == flags
    }

    /// ORs the given flag bits into F without disturbing the others; the low
    /// nibble of F stays clear.
    pub fn set_flags(&mut self, flags: u8)
        ensures
            *final(self) == (Regs { f: (old(self).f | flags) & 0xf0, ..*old(self) }),
    {
        self.f = (self.f | flags) & 0xf0;
    }

    /// Clears the given flag bits in F without disturbing the others.
    pub fn reset_flags(&mut self, flags: u8)
        ensures
            *final(self) == (Regs { f: old(self).f & (flags ^ 0xff), ..*old(self) }),
    {
        self.f = self.f & (flags ^ 0xff);
    }

    /* Getters */

    pub fn a(&self) -> (r: u8)
        ensures
            r == self.a,
    {
        self.a
    }

    pub fn f(&self) -> (r: u8)
        ensures
            r == self.f,
    {
        self.f
    }

    pub fn b(&self) -> (r: u8)
        ensures
            r == self.b,
    {
        self.b
    }

    pub fn c(&self) -> (r: u8)
        ensures
            r == self.c,
    {
        self.c
    }

    pub fn d(&self) -> (r: u8)
        ensures
            r == self.d,
    {
        self.d
    }

    pub fn e(&self) -> (r: u8)
        ensures
            r == self.e,
    {
        self.e
    }

    pub fn h(&self) -> (r: u8)
        ensures
            r == self.h,
    {
        self.h
    }

    pub fn l(&self) -> (r: u8)
        ensures
            r == self.l,
    {
        self.l
    }

    /// The AF pair: A in the high byte, F in the low byte.
    pub open spec fn spec_af(&self) -> u16 {
        compose16(self.a, self.f)
    }

    /// The BC pair: B in the high byte, C in the low byte.
    pub open spec fn spec_bc(&self) -> u16 {
        compose16(self.b, self.c)
    }

    /// The DE pair: D in the high byte, E in the low byte.
    pub open spec fn spec_de(&self) -> u16 {
        compose16(self.d, self.e)
    }

    /// The HL pair: H in the high byte, L in the low byte.
    pub open spec fn spec_hl(&self) -> u16 {
        compose16(self.h, self.l)
    }

    pub fn af(&self) -> (r: u16)
        ensures
            r == self.spec_af(),
    {
        (self.a as u16) * 0x100 + (self.f as u16)
    }

    pub fn bc(&self) -> (r: u16)
        ensures
            r == self.spec_bc(),
    {
        (self.b as u16) * 0x100 + (self.c as u16)
    }

    pub fn de(&self) -> (r: u16)
        ensures
            r == self.spec_de(),
    {
        (self.d as u16) * 0x100 + (self.e as u16)
    }

    pub fn hl(&self) -> (r: u16)
        ensures
            r == self.spec_hl(),
    {
        (self.h as u16) * 0x100 + (self.l as u16)
    }

    /* Setters */

    pub fn set_a(&mut self, x: u8)
        ensures
            *final(self) == (Regs { a: x, ..*old(self) }),
    {
        self.a = x;
    }

    /// Writes F; the architecturally meaningless low nibble is cleared.
    pub fn set_f(&mut self, x: u8)
        ensures
            *final(self) == (Regs { f: x & 0xf0, ..*old(self) }),
    {
        self.f = x & 0xf0;
    }

    pub fn set_b(&mut self, x: u8)
        ensures
            *final(self) == (Regs { b: x, ..*old(self) }),
    {
        self.b = x;
    }

    pub fn set_c(&mut self, x: u8)
        ensures
            *final(self) == (Regs { c: x, ..*old(self) }),
    {
        self.c = x;
    }

    pub fn set_d(&mut self, x: u8)
        ensures
            *final(self) == (Regs { d: x, ..*old(self) }),
    {
        self.d = x;
    }

    pub fn set_e(&mut self, x: u8)
        ensures
            *final(self) == (Regs { e: x, ..*old(self) }),
    {
        self.e = x;
    }

    pub fn set_h(&mut self, x: u8)
        ensures
            *final(self) == (Regs { h: x, ..*old(self) }),
    {
        self.h = x;
    }

    pub fn set_l(&mut self, x: u8)
        ensures
            *final(self) == (Regs { l: x, ..*old(self) }),
    {
        self.l = x;
    }

    /// Writes the AF pair: high byte to A, flag nibble of the low byte to F.
    pub fn set_af(&mut self, x: u16)
        ensures
            *final(self) == (Regs { a: hi8(x), f: lo8(x) & 0xf0, ..*old(self) }),
    {
        self.a = (x / 0x100) as u8;
        self.f = ((x % 0x100) as u8) & 0xf0;
    }

    /// Writes the BC pair: high byte to B, low byte to C.
    pub fn set_bc(&mut self, x: u16)
        ensures
            *final(self) == (Regs { b: hi8(x), c: lo8(x), ..*old(self) }),
    {
        self.b = (x / 0x100) as u8;
        self.c = (x % 0x100) as u8;
    }

    /// Writes the DE pair: high byte to D, low byte to E.
    pub fn set_de(&mut self, x: u16)
        ensures
            *final(self) == (Regs { d: hi8(x), e: lo8(x), ..*old(self) }),
    {
        self.d = (x / 0x100) as u8;
        self.e = (x % 0x100) as u8;
    }

    /// Writes the HL pair: high byte to H, low byte to L.
    pub fn set_hl(&mut self, x: u16)
        ensures
            *final(self) == (Regs { h: hi8(x), l: lo8(x), ..*old(self) }),
    {
        self.h = (x / 0x100) as u8;
        self.l = (x % 0x100) as u8;
    }

    /// Returns `value + 1` with 8-bit wraparound and updates the flags as the
    /// 8-bit INC instruction does: Z iff the result is zero, N reset, H iff
    /// the low nibble of `value` was 0xf; C is preserved.
    pub fn inc_reg(&mut self, value: u8) -> (r: u8)
        ensures
            r == inc8(value),
            *final(self) == (Regs {
                f: flag_byte(inc8(value) == 0, false, value % 16 == 15, c_set(old(self).f)),
                ..*old(self)
            }),
    {
        let new_value: u8 = if value == 0xff {
            0
        } else {
            value + 1
        };
        let carry = self.is_flag_set(Flags::C);
        let mut new_flags: u8 = if carry {
            Flags::C
        } else {
            0
        };
        if new_value == 0 {
            new_flags = new_flags + Flags::Z;
        }
        if value % 16 == 15 {
            new_flags = new_flags + Flags::H;
        }
        self.f = new_flags;
        new_value
    }
}

} // verus!
