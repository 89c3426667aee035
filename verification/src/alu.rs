//! Mathematical model of the 8-bit and 16-bit arithmetic the instruction set
//! is built from: wraparound increment/decrement, add/subtract with their
//! carry and half-carry conditions, rotates, byte composition for the
//! little-endian 16-bit values, and sign extension for relative jumps.

use vstd::prelude::*;

verus! {

/// `v + 1` with 8-bit wraparound (`0xff` rolls over to `0x00`).
pub open spec fn inc8(v: u8) -> u8 {
    if v == 0xff {
        0
    } else {
        (v + 1) as u8
    }
}

/// `v - 1` with 8-bit wraparound (`0x00` rolls over to `0xff`).
pub open spec fn dec8(v: u8) -> u8 {
    if v == 0 {
        0xff
    } else {
        (v - 1) as u8
    }
}

/// `a + b` with 8-bit wraparound.
pub open spec fn add8(a: u8, b: u8) -> u8 {
    if a + b > 0xff {
        (a + b - 0x100) as u8
    } else {
        (a + b) as u8
    }
}

/// `a - b` with 8-bit wraparound.
pub open spec fn sub8(a: u8, b: u8) -> u8 {
    if a >= b {
        (a - b) as u8
    } else {
        (a + 0x100 - b) as u8
    }
}

/// Carry out of bit 3 when the low nibbles of `a` and `b` are added.
pub open spec fn add_half_carry(a: u8, b: u8) -> bool {
    a % 16 + b % 16 > 0xf
}

/// Carry out of bit 7 when `a` and `b` are added as full bytes.
pub open spec fn add_carry(a: u8, b: u8) -> bool {
    a + b > 0xff
}

/// Borrow across the nibble boundary when `b` is subtracted from `a`.
pub open spec fn sub_half_borrow(a: u8, b: u8) -> bool {
    a % 16 < b % 16
}

/// Borrow out of bit 7 when `b` is subtracted from `a`.
pub open spec fn sub_borrow(a: u8, b: u8) -> bool {
    b > a
}

/// Rotate left by one bit: bit 7 wraps around to bit 0.
pub open spec fn rotl8(v: u8) -> u8 {
    ((v % 0x80) * 2 + v / 0x80) as u8
}

/// Rotate right by one bit: bit 0 wraps around to bit 7.
pub open spec fn rotr8(v: u8) -> u8 {
    (v / 2 + (v % 2) * 0x80) as u8
}

/// Shift left by one bit, shifting `carry_in` into bit 0 (the rotate-through-
/// carry step; the bit shifted out of bit 7 becomes the new carry).
pub open spec fn rl8(v: u8, carry_in: bool) -> u8 {
    ((v % 0x80) * 2 + if carry_in {
        1int
    } else {
        0
    }) as u8
}

/// True exactly when bit 7 of `v` is set.
pub open spec fn bit7(v: u8) -> bool {
    v >= 0x80
}

/// True exactly when bit 0 of `v` is set.
pub open spec fn bit0(v: u8) -> bool {
    v % 2 == 1
}

/// `x + y` with 16-bit wraparound.
pub open spec fn wrap_add16(x: u16, y: u16) -> u16 {
    vstd::wrapping::u16_specs::wrapping_add(x, y)
}

/// `x - y` with 16-bit wraparound.
pub open spec fn wrap_sub16(x: u16, y: u16) -> u16 {
    vstd::wrapping::u16_specs::wrapping_sub(x, y)
}

/// `x + 1` with 16-bit wraparound.
pub open spec fn inc16(x: u16) -> u16 {
    wrap_add16(x, 1)
}

/// `x - 1` with 16-bit wraparound.
pub open spec fn dec16(x: u16) -> u16 {
    wrap_sub16(x, 1)
}

/// Low byte of a 16-bit value.
pub open spec fn lo8(x: u16) -> u8 {
    (x % 0x100) as u8
}

/// High byte of a 16-bit value.
pub open spec fn hi8(x: u16) -> u8 {
    (x / 0x100) as u8
}

/// The 16-bit value with high byte `hi` and low byte `lo`.
pub open spec fn compose16(hi: u8, lo: u8) -> u16 {
    (hi * 0x100 + lo) as u16
}

/// The two's-complement offset byte of a relative jump, sign-extended to a
/// 16-bit addend (`0xfe` stands for -2, which is `0xfffe` modulo 2^16).
pub open spec fn sign_ext8(off: u8) -> u16 {
    if off >= 0x80 {
        (off + 0xff00) as u16
    } else {
        off as u16
    }
}

/// The target of a relative jump: the program counter (already past the
/// offset byte) plus the sign-extended offset, with 16-bit wraparound.
pub open spec fn jr_target(pc: u16, off: u8) -> u16 {
    wrap_add16(pc, sign_ext8(off))
}

/// Splitting a 16-bit value into its two bytes and recomposing them is the
/// identity.
pub proof fn lemma_compose_split(x: u16)
    ensures
        compose16(hi8(x), lo8(x)) == x,
{
    vstd::arithmetic::div_mod::lemma_fundamental_div_mod(x as int, 0x100);
}

/// Composing two bytes and splitting the result returns the same two bytes.
pub proof fn lemma_split_compose(hi: u8, lo: u8)
    ensures
        hi8(compose16(hi, lo)) == hi,
        lo8(compose16(hi, lo)) == lo,
{
    assert((hi * 0x100 + lo) / 0x100 == hi as int) by (nonlinear_arith)
        requires
            lo < 0x100,
    ;
    assert((hi * 0x100 + lo) % 0x100 == lo as int) by (nonlinear_arith)
        requires
            lo < 0x100,
    ;
}

/// Incrementing then decrementing an 8-bit value (or the other way round)
/// returns it unchanged.
pub proof fn lemma_inc8_dec8_roundtrip(v: u8)
    ensures
        dec8(inc8(v)) == v,
        inc8(dec8(v)) == v,
{
}

/// Incrementing then decrementing a 16-bit value (or the other way round)
/// returns it unchanged.
pub proof fn lemma_inc16_dec16_roundtrip(x: u16)
    ensures
        inc16(dec16(x)) == x,
        dec16(inc16(x)) == x,
{
}

} // verus!
