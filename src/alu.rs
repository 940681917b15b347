use vstd::prelude::*;

use crate::registers::{bit_c, flag_byte};

verus! {

/// 8-bit addition with optional carry-in: result and flag byte.
pub open spec fn spec_add8(a: u8, b: u8, carry_in: bool) -> (u8, u8) {
    let cin: int = if carry_in { 1 } else { 0 };
    let sum = a as int + b as int + cin;
    let result = (sum % 256) as u8;
    (result, flag_byte(result == 0, false, a as int % 16 + b as int % 16 + cin > 15, sum > 255))
}

/// 8-bit subtraction with optional borrow-in: result and flag byte.
pub open spec fn spec_sub8(a: u8, b: u8, carry_in: bool) -> (u8, u8) {
    let cin: int = if carry_in { 1 } else { 0 };
    let diff = a as int - b as int - cin;
    let result = (diff % 256) as u8;
    (result, flag_byte(result == 0, true, a as int % 16 < b as int % 16 + cin, (a as int) < b as int + cin))
}

/// Bitwise AND: Half-Carry set, Carry clear.
pub open spec fn spec_and8(a: u8, b: u8) -> (u8, u8) {
    let result = a & b;
    (result, flag_byte(result == 0, false, true, false))
}

/// Bitwise XOR: Half-Carry and Carry clear.
pub open spec fn spec_xor8(a: u8, b: u8) -> (u8, u8) {
    let result = a ^ b;
    (result, flag_byte(result == 0, false, false, false))
}

/// Bitwise OR: Half-Carry and Carry clear.
pub open spec fn spec_or8(a: u8, b: u8) -> (u8, u8) {
    let result = a | b;
    (result, flag_byte(result == 0, false, false, false))
}

/// Increment: Carry is kept from the flag byte `f`.
pub open spec fn spec_inc8(x: u8, f: u8) -> (u8, u8) {
    let result = ((x as int + 1) % 256) as u8;
    (result, flag_byte(result == 0, false, x as int % 16 == 15, bit_c(f)))
}

/// Decrement: Carry is kept from the flag byte `f`.
pub open spec fn spec_dec8(x: u8, f: u8) -> (u8, u8) {
    let result = ((x as int - 1) % 256) as u8;
    (result, flag_byte(result == 0, true, x as int % 16 == 0, bit_c(f)))
}

/// The value of bit 7 of `x`.
pub open spec fn top_bit(x: u8) -> int {
    x as int / 128
}

/// The value of bit 0 of `x`.
pub open spec fn low_bit(x: u8) -> int {
    x as int % 2
}

/// `x` shifted one place left; `fill` enters at bit 0.
pub open spec fn shifted_left(x: u8, fill: int) -> u8 {
    ((x as int * 2) % 256 + fill) as u8
}

/// `x` shifted one place right; `fill` enters at bit 7.
pub open spec fn shifted_right(x: u8, fill: int) -> u8 {
    (x as int / 2 + fill * 128) as u8
}

/// The rotate and shift family, selected by `kind` (0 RLC, 1 RRC, 2 RL, 3 RR,
/// 4 SLA, 5 SRA, 6 SWAP, 7 SRL). `carry_in` feeds the vacated bit of the
/// through-carry forms. Returns the result and the new Carry.
pub open spec fn spec_shift(kind: u8, x: u8, carry_in: bool) -> (u8, bool) {
    let cin: int = if carry_in { 1 } else { 0 };
    if kind == 0 {
        (shifted_left(x, top_bit(x)), top_bit(x) == 1)
    } else if kind == 1 {
        (shifted_right(x, low_bit(x)), low_bit(x) == 1)
    } else if kind == 2 {
        (shifted_left(x, cin), top_bit(x) == 1)
    } else if kind == 3 {
        (shifted_right(x, cin), low_bit(x) == 1)
    } else if kind == 4 {
        (shifted_left(x, 0), top_bit(x) == 1)
    } else if kind == 5 {
        (shifted_right(x, top_bit(x)), low_bit(x) == 1)
    } else if kind == 6 {
        ((x as int % 16 * 16 + x as int / 16) as u8, false)
    } else {
        (shifted_right(x, 0), low_bit(x) == 1)
    }
}

/// 16-bit addition for `ADD HL,rr`: Half-Carry out of bit 11, Carry out of bit 15,
/// Zero kept from `f`.
pub open spec fn spec_add16(a: u16, b: u16, f: u8) -> (u16, u8) {
    let sum = a as int + b as int;
    (
        (sum % 65536) as u16,
        flag_byte(
            crate::registers::bit_z(f),
            false,
            a as int % 4096 + b as int % 4096 > 4095,
            sum > 65535,
        ),
    )
}

/// The signed value of a displacement byte.
pub open spec fn signed(d: u8) -> int {
    if d < 128 {
        d as int
    } else {
        d as int - 256
    }
}

/// The displacement byte `d` sign-extended to 16 bits.
pub open spec fn extended(d: u8) -> u16 {
    if d < 128 {
        d as u16
    } else {
        (d as int + 0xFF00) as u16
    }
}

/// Stack pointer plus a signed displacement byte (for `ADD SP,i8` and
/// `LD HL,SP+i8`), as a 16-bit add of the sign-extended displacement: Zero and
/// Subtraction clear, Half-Carry from bit 11, Carry from bit 15.
pub open spec fn spec_offset_sp(sp: u16, d: u8) -> (u16, u8) {
    let e = extended(d);
    (
        ((sp as int + signed(d)) % 65536) as u16,
        flag_byte(false, false, sp as int % 4096 + e as int % 4096 > 4095, sp as int + e as int > 65535),
    )
}

/// Decimal adjust of the accumulator after a BCD addition or subtraction,
/// driven by the Subtraction, Half-Carry and Carry flags of `f`.
pub open spec fn spec_daa(a: u8, f: u8) -> (u8, u8) {
    let n = crate::registers::bit_n(f);
    let low = crate::registers::bit_h(f) || (!n && a as int % 16 > 9);
    let high = bit_c(f) || (!n && a as int > 0x99);
    let correction: int = (if low { 6int } else { 0 }) + (if high { 0x60int } else { 0 });
    let result = (if n {
        (a as int - correction) % 256
    } else {
        (a as int + correction) % 256
    }) as u8;
    (result, flag_byte(result == 0, n, false, high))
}

pub fn add8(a: u8, b: u8, carry_in: bool) -> (r: (u8, u8))
    ensures
        r == spec_add8(a, b, carry_in),
{
    let cin: u16 = if carry_in { 1 } else { 0 };
    let sum: u16 = a as u16 + b as u16 + cin;
    let result = (sum % 256) as u8;
    let half = (a % 16) as u16 + (b % 16) as u16 + cin > 15;
    (result, flags(result == 0, false, half, sum > 255))
}

pub fn sub8(a: u8, b: u8, carry_in: bool) -> (r: (u8, u8))
    ensures
        r == spec_sub8(a, b, carry_in),
{
    let cin: u16 = if carry_in { 1 } else { 0 };
    let result = a.wrapping_sub(b).wrapping_sub(cin as u8);
    let half = ((a % 16) as u16) < (b % 16) as u16 + cin;
    let borrow = (a as u16) < b as u16 + cin;
    (result, flags(result == 0, true, half, borrow))
}

pub fn and8(a: u8, b: u8) -> (r: (u8, u8))
    ensures
        r == spec_and8(a, b),
{
    let result = a & b;
    (result, flags(result == 0, false, true, false))
}

pub fn xor8(a: u8, b: u8) -> (r: (u8, u8))
    ensures
        r == spec_xor8(a, b),
{
    let result = a ^ b;
    (result, flags(result == 0, false, false, false))
}

pub fn or8(a: u8, b: u8) -> (r: (u8, u8))
    ensures
        r == spec_or8(a, b),
{
    let result = a | b;
    (result, flags(result == 0, false, false, false))
}

pub fn inc8(x: u8, f: u8) -> (r: (u8, u8))
    ensures
        r == spec_inc8(x, f),
{
    let result = x.wrapping_add(1);
    (result, flags(result == 0, false, x % 16 == 15, f / 16 % 2 == 1))
}

pub fn dec8(x: u8, f: u8) -> (r: (u8, u8))
    ensures
        r == spec_dec8(x, f),
{
    let result = x.wrapping_sub(1);
    (result, flags(result == 0, true, x % 16 == 0, f / 16 % 2 == 1))
}

pub fn shift(kind: u8, x: u8, carry_in: bool) -> (r: (u8, bool))
    ensures
        r == spec_shift(kind, x, carry_in),
{
    let cin: u8 = if carry_in { 1 } else { 0 };
    let top = x / 128;
    let low = x % 2;
    if kind == 0 {
        ((x % 128) * 2 + top, top == 1)
    } else if kind == 1 {
        (x / 2 + low * 128, low == 1)
    } else if kind == 2 {
        ((x % 128) * 2 + cin, top == 1)
    } else if kind == 3 {
        (x / 2 + cin * 128, low == 1)
    } else if kind == 4 {
        ((x % 128) * 2, top == 1)
    } else if kind == 5 {
        (x / 2 + top * 128, low == 1)
    } else if kind == 6 {
        ((x % 16) * 16 + x / 16, false)
    } else {
        (x / 2, low == 1)
    }
}

pub fn add16(a: u16, b: u16, f: u8) -> (r: (u16, u8))
    ensures
        r == spec_add16(a, b, f),
{
    let sum: u32 = a as u32 + b as u32;
    let half = (a % 4096) + (b % 4096) > 4095;
    ((sum % 65536) as u16, flags(f / 128 % 2 == 1, false, half, sum > 65535))
}

pub fn offset_sp(sp: u16, d: u8) -> (r: (u16, u8))
    ensures
        r == spec_offset_sp(sp, d),
{
    let e: u16 = if d < 128 { d as u16 } else { d as u16 + 0xFF00 };
    let result = sp.wrapping_add(e);
    let half = sp % 4096 + e % 4096 > 4095;
    let carry = sp as u32 + e as u32 > 65535;
    (result, flags(false, false, half, carry))
}

pub fn daa8(a: u8, f: u8) -> (r: (u8, u8))
    ensures
        r == spec_daa(a, f),
{
    let n = f / 64 % 2 == 1;
    let low = f / 32 % 2 == 1 || (!n && a % 16 > 9);
    let high = f / 16 % 2 == 1 || (!n && a > 0x99);
    let mut correction: u8 = 0;
    if low {
        correction = correction + 6;
    }
    if high {
        correction = correction + 0x60;
    }
    let result = if n { a.wrapping_sub(correction) } else { a.wrapping_add(correction) };
    (result, flags(result == 0, n, false, high))
}

/// The flag byte holding exactly the four given flags.
pub fn flags(z: bool, n: bool, h: bool, c: bool) -> (r: u8)
    ensures
        r == flag_byte(z, n, h, c),
{
    let mut f: u8 = 0;
    if z {
        f = f + 0x80;
    }
    if n {
        f = f + 0x40;
    }
    if h {
        f = f + 0x20;
    }
    if c {
        f = f + 0x10;
    }
    f
}

/// Incrementing a byte and then decrementing the result restores the byte. The
/// Zero and Half-Carry flags after each step depend only on the operand, and
/// neither step touches Carry.
pub proof fn lemma_inc_then_dec(x: u8, f: u8)
    ensures
        spec_dec8(spec_inc8(x, f).0, spec_inc8(x, f).1).0 == x,
        crate::registers::bit_z(spec_inc8(x, f).1) == (x == 255),
        crate::registers::bit_h(spec_inc8(x, f).1) == (x as int % 16 == 15),
        !crate::registers::bit_n(spec_inc8(x, f).1),
        bit_c(spec_inc8(x, f).1) == bit_c(f),
        crate::registers::bit_z(spec_dec8(spec_inc8(x, f).0, spec_inc8(x, f).1).1) == (x == 0),
        crate::registers::bit_h(spec_dec8(spec_inc8(x, f).0, spec_inc8(x, f).1).1) == ((x as int + 1)
            % 16 == 0),
        crate::registers::bit_n(spec_dec8(spec_inc8(x, f).0, spec_inc8(x, f).1).1),
        bit_c(spec_dec8(spec_inc8(x, f).0, spec_inc8(x, f).1).1) == bit_c(f),
{
    let (y, g) = spec_inc8(x, f);
    crate::registers::lemma_flag_byte(y == 0, false, x as int % 16 == 15, bit_c(f));
    let (w, k) = spec_dec8(y, g);
    crate::registers::lemma_flag_byte(w == 0, true, y as int % 16 == 0, bit_c(g));
}

} // verus!
