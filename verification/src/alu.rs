//! Flag byte layout and the 8-bit arithmetic/logic core of the LR35902.
//!
//! The flag byte F keeps Z in bit 7, N in bit 6, H in bit 5 and C in bit 4;
//! bits 3..0 are always zero.  Every helper here returns both the value and
//! the complete new flag byte, so instruction handlers state their effect as
//! one equation per register.

use vstd::prelude::*;

verus! {

/// Zero flag: bit 7 of F.
pub open spec fn f_z(f: u8) -> bool {
    f & 0x80 != 0
}

/// Subtraction flag: bit 6 of F.
pub open spec fn f_n(f: u8) -> bool {
    f & 0x40 != 0
}

/// Half-carry flag: bit 5 of F.
pub open spec fn f_h(f: u8) -> bool {
    f & 0x20 != 0
}

/// Carry flag: bit 4 of F.
pub open spec fn f_c(f: u8) -> bool {
    f & 0x10 != 0
}

/// The flag byte encoding the four flags; bits 3..0 are zero.
pub open spec fn flags(z: bool, n: bool, h: bool, c: bool) -> u8 {
    (if z {
        0x80u8
    } else {
        0u8
    }) | (if n {
        0x40u8
    } else {
        0u8
    }) | (if h {
        0x20u8
    } else {
        0u8
    }) | (if c {
        0x10u8
    } else {
        0u8
    })
}

/// A freshly packed flag byte has a zero low nibble.
pub broadcast proof fn lemma_flags_low_nibble(z: bool, n: bool, h: bool, c: bool)
    by (bit_vector)
    ensures
        (#[trigger] flags(z, n, h, c)) & 0x0F == 0,
{
}

/// Reading a flag out of a packed flag byte returns what was packed.
pub broadcast proof fn lemma_flags_bits(z: bool, n: bool, h: bool, c: bool)
    by (bit_vector)
    ensures
        f_z(#[trigger] flags(z, n, h, c)) == z,
        f_n(#[trigger] flags(z, n, h, c)) == n,
        f_h(#[trigger] flags(z, n, h, c)) == h,
        f_c(#[trigger] flags(z, n, h, c)) == c,
{
}

/// Packs the four flags into a flag byte.
pub fn make_flags(z: bool, n: bool, h: bool, c: bool) -> (f: u8)
    ensures
        f == flags(z, n, h, c),
{
    (if z {
        0x80u8
    } else {
        0u8
    }) | (if n {
        0x40u8
    } else {
        0u8
    }) | (if h {
        0x20u8
    } else {
        0u8
    }) | (if c {
        0x10u8
    } else {
        0u8
    })
}

/// 8-bit addition, wrapping modulo 256.
pub open spec fn add8(a: u8, b: u8) -> u8 {
    ((a + b) % 256) as u8
}

/// Carry out of bit 7 of `a + b`.
pub open spec fn add_carry(a: u8, b: u8) -> bool {
    a + b > 0xFF
}

/// Carry out of bit 3 of `a + b`.
pub open spec fn add_half(a: u8, b: u8) -> bool {
    (a & 0xF) + (b & 0xF) > 0xF
}

/// 8-bit addition with carry in, wrapping modulo 256.
pub open spec fn adc8(a: u8, b: u8, cin: bool) -> u8 {
    ((a + b + if cin {
        1int
    } else {
        0int
    }) % 256) as u8
}

/// Carry out of bit 7 of `a + b + cin`.
pub open spec fn adc_carry(a: u8, b: u8, cin: bool) -> bool {
    a + b + (if cin {
        1int
    } else {
        0int
    }) > 0xFF
}

/// Carry out of bit 3 of `a + b + cin`.
pub open spec fn adc_half(a: u8, b: u8, cin: bool) -> bool {
    (a & 0xF) + (b & 0xF) + (if cin {
        1int
    } else {
        0int
    }) > 0xF
}

/// 8-bit subtraction, wrapping modulo 256.
pub open spec fn sub8(a: u8, b: u8) -> u8 {
    (if a >= b {
        a - b
    } else {
        a - b + 256
    }) as u8
}

/// Borrow from bit 8 of `a - b`.
pub open spec fn sub_carry(a: u8, b: u8) -> bool {
    b > a
}

/// Borrow from bit 4 of `a - b`.
pub open spec fn sub_half(a: u8, b: u8) -> bool {
    (b & 0xF) > (a & 0xF)
}

/// 8-bit subtraction with borrow in, wrapping modulo 256.
pub open spec fn sbc8(a: u8, b: u8, cin: bool) -> u8 {
    let d = a - b - (if cin {
        1int
    } else {
        0int
    });
    (if d >= 0 {
        d
    } else {
        d + 256
    }) as u8
}

/// Borrow from bit 8 of `a - b - cin`.
pub open spec fn sbc_carry(a: u8, b: u8, cin: bool) -> bool {
    b + (if cin {
        1int
    } else {
        0int
    }) > a
}

/// Borrow from bit 4 of `a - b - cin`.
pub open spec fn sbc_half(a: u8, b: u8, cin: bool) -> bool {
    (b & 0xF) + (if cin {
        1int
    } else {
        0int
    }) > (a & 0xF)
}

/// 8-bit increment, wrapping modulo 256.
pub open spec fn inc8(v: u8) -> u8 {
    add8(v, 1)
}

/// 8-bit decrement, wrapping modulo 256.
pub open spec fn dec8(v: u8) -> u8 {
    sub8(v, 1)
}

/// ADD: value and flag byte (Z from result, N = 0, H and C from the
/// pre-operation operands).
pub fn alu_add(a: u8, b: u8) -> (r: (u8, u8))
    ensures
        r.0 == add8(a, b),
        r.1 == flags(add8(a, b) == 0, false, add_half(a, b), add_carry(a, b)),
{
    let res = a.wrapping_add(b);
    let h = ((a & 0xF) as u16) + ((b & 0xF) as u16) > 0xF;
    let c = (a as u16) + (b as u16) > 0xFF;
    (res, make_flags(res == 0, false, h, c))
}

/// ADC: like ADD but with the previous carry added in.
pub fn alu_adc(a: u8, b: u8, cin: bool) -> (r: (u8, u8))
    ensures
        r.0 == adc8(a, b, cin),
        r.1 == flags(adc8(a, b, cin) == 0, false, adc_half(a, b, cin), adc_carry(a, b, cin)),
{
    let ci: u8 = if cin {
        1
    } else {
        0
    };
    let res = a.wrapping_add(b).wrapping_add(ci);
    let h = ((a & 0xF) as u16) + ((b & 0xF) as u16) + (ci as u16) > 0xF;
    let c = (a as u16) + (b as u16) + (ci as u16) > 0xFF;
    (res, make_flags(res == 0, false, h, c))
}

/// SUB/CP: value and flag byte (Z from result, N = 1, H and C are the
/// borrows from the pre-operation operands).
pub fn alu_sub(a: u8, b: u8) -> (r: (u8, u8))
    ensures
        r.0 == sub8(a, b),
        r.1 == flags(sub8(a, b) == 0, true, sub_half(a, b), sub_carry(a, b)),
{
    let res = a.wrapping_sub(b);
    let h = (b & 0xF) > (a & 0xF);
    let c = b > a;
    (res, make_flags(res == 0, true, h, c))
}

/// SBC: like SUB but with the previous carry borrowed in.
pub fn alu_sbc(a: u8, b: u8, cin: bool) -> (r: (u8, u8))
    ensures
        r.0 == sbc8(a, b, cin),
        r.1 == flags(sbc8(a, b, cin) == 0, true, sbc_half(a, b, cin), sbc_carry(a, b, cin)),
{
    let ci: u8 = if cin {
        1
    } else {
        0
    };
    let res = a.wrapping_sub(b).wrapping_sub(ci);
    let h = ((b & 0xF) as u16) + (ci as u16) > ((a & 0xF) as u16);
    let c = (b as u16) + (ci as u16) > (a as u16);
    (res, make_flags(res == 0, true, h, c))
}

/// AND: N = 0, H = 1, C = 0, Z from the result.
pub fn alu_and(a: u8, b: u8) -> (r: (u8, u8))
    ensures
        r.0 == (a & b),
        r.1 == flags((a & b) == 0, false, true, false),
{
    let res = a & b;
    (res, make_flags(res == 0, false, true, false))
}

/// OR: N = H = C = 0, Z from the result.
pub fn alu_or(a: u8, b: u8) -> (r: (u8, u8))
    ensures
        r.0 == (a | b),
        r.1 == flags((a | b) == 0, false, false, false),
{
    let res = a | b;
    (res, make_flags(res == 0, false, false, false))
}

/// XOR: N = H = C = 0, Z from the result.
pub fn alu_xor(a: u8, b: u8) -> (r: (u8, u8))
    ensures
        r.0 == (a ^ b),
        r.1 == flags((a ^ b) == 0, false, false, false),
{
    let res = a ^ b;
    (res, make_flags(res == 0, false, false, false))
}

/// INC r8: Z and H from the result, N = 0, C untouched.
pub fn alu_inc(v: u8, old_c: bool) -> (r: (u8, u8))
    ensures
        r.0 == inc8(v),
        r.1 == flags(inc8(v) == 0, false, (v & 0xF) == 0xF, old_c),
{
    let res = v.wrapping_add(1);
    (res, make_flags(res == 0, false, (v & 0xF) == 0xF, old_c))
}

/// DEC r8: Z and H from the result, N = 1, C untouched.
pub fn alu_dec(v: u8, old_c: bool) -> (r: (u8, u8))
    ensures
        r.0 == dec8(v),
        r.1 == flags(dec8(v) == 0, true, (v & 0xF) == 0, old_c),
{
    let res = v.wrapping_sub(1);
    (res, make_flags(res == 0, true, (v & 0xF) == 0, old_c))
}

/// Adding then subtracting the same operand restores the accumulator.
pub proof fn lemma_add_sub_round_trip(a: u8, b: u8)
    by (bit_vector)
    ensures
        sub8(add8(a, b), b) == a,
{
}

/// Incrementing then decrementing restores the value, and the other way
/// round.
pub proof fn lemma_inc_dec_round_trip(a: u8)
    by (bit_vector)
    ensures
        dec8(inc8(a)) == a,
        inc8(dec8(a)) == a,
{
}

} // verus!
