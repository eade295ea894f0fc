//! Flag encoding and the arithmetic/logic primitives of the register file.
use vstd::prelude::*;

verus! {

/// The four condition flags held in the top nibble of the flag register.
#[derive(Clone, Copy, Debug, PartialEq, Eq, Structural)]
pub struct Flags {
    pub z: bool,
    pub n: bool,
    pub h: bool,
    pub c: bool,
}

/// A computed 8-bit value together with the flags it produces.
#[derive(Clone, Copy, Debug, PartialEq, Eq, Structural)]
pub struct AluResult {
    pub value: u8,
    pub flags: Flags,
}

/// A computed 16-bit value together with the flags it produces.
#[derive(Clone, Copy, Debug, PartialEq, Eq, Structural)]
pub struct AluResult16 {
    pub value: u16,
    pub flags: Flags,
}

pub open spec fn bit_val(b: bool) -> int {
    if b { 1 } else { 0 }
}

/// The flag byte: Z, N, H, C in bits 7..4, the low nibble always zero.
pub open spec fn flags_byte(f: Flags) -> int {
    bit_val(f.z) * 128 + bit_val(f.n) * 64 + bit_val(f.h) * 32 + bit_val(f.c) * 16
}

/// The flags that a byte encodes (its low nibble is ignored).
pub open spec fn flags_of_byte(v: u8) -> Flags {
    Flags {
        z: (v as int / 128) % 2 == 1,
        n: (v as int / 64) % 2 == 1,
        h: (v as int / 32) % 2 == 1,
        c: (v as int / 16) % 2 == 1,
    }
}

/// 2 to the power `n`, for the bit positions of a byte.
pub open spec fn bit_weight_spec(n: int) -> int {
    if n == 0 { 1 }
    else if n == 1 { 2 }
    else if n == 2 { 4 }
    else if n == 3 { 8 }
    else if n == 4 { 16 }
    else if n == 5 { 32 }
    else if n == 6 { 64 }
    else { 128 }
}

pub open spec fn bit_is_set(v: int, n: int) -> bool {
    (v / bit_weight_spec(n)) % 2 == 1
}


pub open spec fn add8_spec(a: u8, b: u8, carry_in: bool) -> AluResult {
    let v = (a + b + bit_val(carry_in)) % 256;
    AluResult {
        value: v as u8,
        flags: Flags { z: v == 0, n: false, h: a % 16 + b % 16 + bit_val(carry_in) > 15, c: a + b + bit_val(carry_in) > 255 },
    }
}

pub open spec fn sub8_spec(a: u8, b: u8, borrow_in: bool) -> AluResult {
    let v = (a - b - bit_val(borrow_in) + 512) % 256;
    AluResult {
        value: v as u8,
        flags: Flags { z: v == 0, n: true, h: a % 16 < b % 16 + bit_val(borrow_in), c: a < b + bit_val(borrow_in) },
    }
}

pub open spec fn logic_result(v: u8, h: bool) -> AluResult {
    AluResult { value: v, flags: Flags { z: v == 0, n: false, h: h, c: false } }
}

pub open spec fn shift_result(v: int, carry: bool) -> AluResult {
    AluResult { value: v as u8, flags: shift_flags(v, carry) }
}

pub open spec fn rlc_spec(a: u8) -> AluResult { shift_result((a * 2) % 256 + a / 128, a >= 128) }
pub open spec fn rrc_spec(a: u8) -> AluResult { shift_result(a / 2 + (a % 2) * 128, a % 2 == 1) }
pub open spec fn rl_spec(a: u8, cin: bool) -> AluResult { shift_result((a * 2) % 256 + bit_val(cin), a >= 128) }
pub open spec fn rr_spec(a: u8, cin: bool) -> AluResult { shift_result(a / 2 + bit_val(cin) * 128, a % 2 == 1) }
pub open spec fn sla_spec(a: u8) -> AluResult { shift_result((a * 2) % 256, a >= 128) }
pub open spec fn sra_spec(a: u8) -> AluResult { shift_result(a / 2 + (a / 128) * 128, a % 2 == 1) }
pub open spec fn srl_spec(a: u8) -> AluResult { shift_result(a as int / 2, a % 2 == 1) }
pub open spec fn swap_spec(a: u8) -> AluResult { shift_result((a % 16) * 16 + a / 16, false) }

pub open spec fn res_spec(n: int, a: u8) -> u8 {
    (if bit_is_set(a as int, n) { a - bit_weight_spec(n) } else { a as int }) as u8
}

pub open spec fn set_spec(n: int, a: u8) -> u8 {
    (if bit_is_set(a as int, n) { a as int } else { a + bit_weight_spec(n) }) as u8
}

impl Flags {
    pub fn to_byte(&self) -> (r: u8)
        ensures
            r as int == flags_byte(*self),
            r % 16 == 0,
    {
        let mut r: u8 = 0;
        if self.z {
            r = r + 128;
        }
        if self.n {
            r = r + 64;
        }
        if self.h {
            r = r + 32;
        }
        if self.c {
            r = r + 16;
        }
        r
    }

    pub fn from_byte(v: u8) -> (r: Flags)
        ensures
            r == flags_of_byte(v),
    {
        Flags { z: (v / 128) % 2 == 1, n: (v / 64) % 2 == 1, h: (v / 32) % 2 == 1, c: (v / 16) % 2 == 1 }
    }
}

/// Setting a bit leaves it set, and setting it again changes nothing.
pub proof fn lemma_set_bit_idempotent(n: int, v: u8)
    requires
        0 <= n < 8,
    ensures
        bit_is_set(set_spec(n, v) as int, n),
        set_spec(n, set_spec(n, v)) == set_spec(n, v),
{
    let w = bit_weight_spec(n);
    let x = v as int;
    assert(w == 1 || w == 2 || w == 4 || w == 8 || w == 16 || w == 32 || w == 64 || w == 128);
    if !bit_is_set(x, n) {
        assert(x + w < 256 && ((x + w) / w) % 2 == 1) by (nonlinear_arith)
            requires (x / w) % 2 == 0, 0 <= x < 256,
                w == 1 || w == 2 || w == 4 || w == 8 || w == 16 || w == 32 || w == 64 || w == 128;
    }
}

/// Decoding a flag byte gives back the flags it was encoded from.
pub proof fn lemma_flags_round_trip(f: Flags)
    ensures
        flags_byte(f) < 256,
        flags_of_byte(flags_byte(f) as u8) == f,
{
}

/// Addition with optional carry in (ADD, ADC): half-carry is the carry out of bit 3.
pub fn add8(a: u8, b: u8, carry_in: bool) -> (r: AluResult)
    ensures
        r == add8_spec(a, b, carry_in),
        r.value as int == (a + b + bit_val(carry_in)) % 256,
        r.flags.z == (r.value == 0),
        !r.flags.n,
        r.flags.h == (a % 16 + b % 16 + bit_val(carry_in) > 15),
        r.flags.c == (a + b + bit_val(carry_in) > 255),
{
    let cin: u16 = if carry_in { 1 } else { 0 };
    let sum: u16 = a as u16 + b as u16 + cin;
    let value = (sum % 256) as u8;
    AluResult {
        value,
        flags: Flags { z: value == 0, n: false, h: (a % 16) as u16 + (b % 16) as u16 + cin > 15, c: sum > 255 },
    }
}

/// Subtraction with optional borrow in (SUB, SBC, CP): half-carry is the borrow into bit 4.
pub fn sub8(a: u8, b: u8, borrow_in: bool) -> (r: AluResult)
    ensures
        r == sub8_spec(a, b, borrow_in),
        r.value as int == (a - b - bit_val(borrow_in) + 512) % 256,
        r.flags.z == (r.value == 0),
        r.flags.n,
        r.flags.h == (a % 16 < b % 16 + bit_val(borrow_in)),
        r.flags.c == (a < b + bit_val(borrow_in)),
{
    let bin: u16 = if borrow_in { 1 } else { 0 };
    let diff: u16 = (a as u16 + 512 - b as u16 - bin) % 256;
    let value = diff as u8;
    AluResult {
        value,
        flags: Flags {
            z: value == 0,
            n: true,
            h: ((a % 16) as u16) < (b % 16) as u16 + bin,
            c: (a as u16) < b as u16 + bin,
        },
    }
}

pub fn and8(a: u8, b: u8) -> (r: AluResult)
    ensures
        r == logic_result(a & b, true),
        r.value == a & b,
        r.flags == (Flags { z: a & b == 0, n: false, h: true, c: false }),
{
    let value = a & b;
    AluResult { value, flags: Flags { z: value == 0, n: false, h: true, c: false } }
}

pub fn or8(a: u8, b: u8) -> (r: AluResult)
    ensures
        r == logic_result(a | b, false),
        r.value == a | b,
        r.flags == (Flags { z: a | b == 0, n: false, h: false, c: false }),
{
    let value = a | b;
    AluResult { value, flags: Flags { z: value == 0, n: false, h: false, c: false } }
}

pub fn xor8(a: u8, b: u8) -> (r: AluResult)
    ensures
        r == logic_result(a ^ b, false),
        r.value == a ^ b,
        r.flags == (Flags { z: a ^ b == 0, n: false, h: false, c: false }),
{
    let value = a ^ b;
    AluResult { value, flags: Flags { z: value == 0, n: false, h: false, c: false } }
}

/// Increment: the carry flag is left as it was.
pub fn inc8(a: u8, f: Flags) -> (r: AluResult)
    ensures
        r.value as int == (a + 1) % 256,
        r.flags == (Flags { z: r.value == 0, n: false, h: a % 16 == 15, c: f.c }),
{
    let value: u8 = if a == 255 { 0 } else { a + 1 };
    AluResult { value, flags: Flags { z: value == 0, n: false, h: a % 16 == 15, c: f.c } }
}

/// Decrement: the carry flag is left as it was.
pub fn dec8(a: u8, f: Flags) -> (r: AluResult)
    ensures
        r.value as int == (a + 255) % 256,
        r.flags == (Flags { z: r.value == 0, n: true, h: a % 16 == 0, c: f.c }),
{
    let value: u8 = if a == 0 { 255 } else { a - 1 };
    AluResult { value, flags: Flags { z: value == 0, n: true, h: a % 16 == 0, c: f.c } }
}

/// Flags after a shift or rotate: Z from the result, N and H cleared.
pub open spec fn shift_flags(value: int, carry: bool) -> Flags {
    Flags { z: value == 0, n: false, h: false, c: carry }
}

/// Rotate left, bit 7 into bit 0 and into the carry.
pub fn rlc(a: u8) -> (r: AluResult)
    ensures
        r == rlc_spec(a),
        r.value as int == (a * 2) % 256 + a / 128,
        r.flags == shift_flags(r.value as int, a >= 128),
{
    let value = ((a as u16 * 2) % 256 + (a / 128) as u16) as u8;
    AluResult { value, flags: Flags { z: value == 0, n: false, h: false, c: a >= 128 } }
}

/// Rotate right, bit 0 into bit 7 and into the carry.
pub fn rrc(a: u8) -> (r: AluResult)
    ensures
        r == rrc_spec(a),
        r.value as int == a / 2 + (a % 2) * 128,
        r.flags == shift_flags(r.value as int, a % 2 == 1),
{
    let value = a / 2 + (a % 2) * 128;
    AluResult { value, flags: Flags { z: value == 0, n: false, h: false, c: a % 2 == 1 } }
}

/// Rotate left through the carry.
pub fn rl(a: u8, carry_in: bool) -> (r: AluResult)
    ensures
        r == rl_spec(a, carry_in),
        r.value as int == (a * 2) % 256 + bit_val(carry_in),
        r.flags == shift_flags(r.value as int, a >= 128),
{
    let cin: u16 = if carry_in { 1 } else { 0 };
    let value = ((a as u16 * 2) % 256 + cin) as u8;
    AluResult { value, flags: Flags { z: value == 0, n: false, h: false, c: a >= 128 } }
}

/// Rotate right through the carry.
pub fn rr(a: u8, carry_in: bool) -> (r: AluResult)
    ensures
        r == rr_spec(a, carry_in),
        r.value as int == a / 2 + bit_val(carry_in) * 128,
        r.flags == shift_flags(r.value as int, a % 2 == 1),
{
    let cin: u8 = if carry_in { 128 } else { 0 };
    let value = a / 2 + cin;
    AluResult { value, flags: Flags { z: value == 0, n: false, h: false, c: a % 2 == 1 } }
}

/// Arithmetic shift left.
pub fn sla(a: u8) -> (r: AluResult)
    ensures
        r == sla_spec(a),
        r.value as int == (a * 2) % 256,
        r.flags == shift_flags(r.value as int, a >= 128),
{
    let value = ((a as u16 * 2) % 256) as u8;
    AluResult { value, flags: Flags { z: value == 0, n: false, h: false, c: a >= 128 } }
}

/// Arithmetic shift right: bit 7 is kept.
pub fn sra(a: u8) -> (r: AluResult)
    ensures
        r == sra_spec(a),
        r.value as int == a / 2 + (a / 128) * 128,
        r.flags == shift_flags(r.value as int, a % 2 == 1),
{
    let value = a / 2 + (a / 128) * 128;
    AluResult { value, flags: Flags { z: value == 0, n: false, h: false, c: a % 2 == 1 } }
}

/// Logical shift right.
pub fn srl(a: u8) -> (r: AluResult)
    ensures
        r == srl_spec(a),
        r.value as int == a / 2,
        r.flags == shift_flags(r.value as int, a % 2 == 1),
{
    let value = a / 2;
    AluResult { value, flags: Flags { z: value == 0, n: false, h: false, c: a % 2 == 1 } }
}

/// Exchange of the two nibbles.
pub fn swap(a: u8) -> (r: AluResult)
    ensures
        r == swap_spec(a),
        r.value as int == (a % 16) * 16 + a / 16,
        r.flags == shift_flags(r.value as int, false),
{
    let value = (a % 16) * 16 + a / 16;
    AluResult { value, flags: Flags { z: value == 0, n: false, h: false, c: false } }
}

pub fn bit_weight(n: u8) -> (r: u8)
    requires
        n < 8,
    ensures
        r as int == bit_weight_spec(n as int),
{
    if n == 0 { 1 }
    else if n == 1 { 2 }
    else if n == 2 { 4 }
    else if n == 3 { 8 }
    else if n == 4 { 16 }
    else if n == 5 { 32 }
    else if n == 6 { 64 }
    else { 128 }
}

/// Bit test: Z is set when the bit is clear; the carry is left as it was.
pub fn test_bit(n: u8, a: u8, f: Flags) -> (r: Flags)
    requires
        n < 8,
    ensures
        r == (Flags { z: !bit_is_set(a as int, n as int), n: false, h: true, c: f.c }),
{
    let w = bit_weight(n);
    Flags { z: (a / w) % 2 == 0, n: false, h: true, c: f.c }
}

/// Clears bit `n`.
pub fn res_bit(n: u8, a: u8) -> (r: u8)
    requires
        n < 8,
    ensures
        r as int == if bit_is_set(a as int, n as int) { a - bit_weight_spec(n as int) } else { a as int },
        r == res_spec(n as int, a),
{
    let w = bit_weight(n);
    if (a / w) % 2 == 1 {
        assert(a >= w) by (nonlinear_arith)
            requires (a / w) % 2 == 1, w > 0;
        a - w
    } else {
        a
    }
}

/// Sets bit `n`.
pub fn set_bit(n: u8, a: u8) -> (r: u8)
    requires
        n < 8,
    ensures
        r as int == if bit_is_set(a as int, n as int) { a as int } else { a + bit_weight_spec(n as int) },
        r == set_spec(n as int, a),
{
    let w = bit_weight(n);
    if (a / w) % 2 == 1 {
        a
    } else {
        assert(a + w < 256) by (nonlinear_arith)
            requires (a / w) % 2 == 0, w > 0, w <= 128, a < 256,
                w == 1 || w == 2 || w == 4 || w == 8 || w == 16 || w == 32 || w == 64 || w == 128;
        a + w
    }
}

/// 16-bit addition into HL: H is the carry out of bit 11, C out of bit 15, Z kept.
pub fn add16(a: u16, b: u16, f: Flags) -> (r: AluResult16)
    ensures
        r.value as int == (a + b) % 65536,
        r.flags == (Flags { z: f.z, n: false, h: a % 4096 + b % 4096 > 4095, c: a + b > 65535 }),
{
    let sum: u32 = a as u32 + b as u32;
    AluResult16 {
        value: (sum % 65536) as u16,
        flags: Flags { z: f.z, n: false, h: (a % 4096) as u32 + (b % 4096) as u32 > 4095, c: sum > 65535 },
    }
}

/// The signed value of an offset byte.
pub open spec fn signed8(e: u8) -> int {
    if e < 128 { e as int } else { e - 256 }
}

/// Stack pointer plus a signed offset (ADD SP,e and LD HL,SP+e): the flags come
/// from the unsigned addition of the low byte.
pub fn add_sp_offset(sp: u16, e: u8) -> (r: AluResult16)
    ensures
        r.value as int == (sp + signed8(e) + 65536) % 65536,
        r.flags == (Flags { z: false, n: false, h: sp % 16 + e % 16 > 15, c: sp % 256 + e > 255 }),
{
    let s: u32 = (sp as u32 + 65536 + e as u32 - if e < 128 { 0u32 } else { 256u32 }) % 65536;
    AluResult16 {
        value: s as u16,
        flags: Flags { z: false, n: false, h: (sp % 16) as u32 + (e % 16) as u32 > 15, c: (sp % 256) as u32 + e as u32 > 255 },
    }
}

/// The decimal adjustment that DAA applies to A, from the flags of the last operation.
pub open spec fn daa_spec(a: u8, f: Flags) -> AluResult {
    let lo_fix: int = if f.h || (!f.n && a % 16 > 9) { 6 } else { 0 };
    let hi_fix: int = if f.c || (!f.n && a > 0x99) { 0x60 } else { 0 };
    let v: int = if f.n { (a - lo_fix - hi_fix + 512) % 256 } else { (a + lo_fix + hi_fix) % 256 };
    AluResult { value: v as u8, flags: Flags { z: v == 0, n: f.n, h: false, c: hi_fix != 0 } }
}

pub fn daa(a: u8, f: Flags) -> (r: AluResult)
    ensures
        r == daa_spec(a, f),
{
    let lo_fix: u16 = if f.h || (!f.n && a % 16 > 9) { 6 } else { 0 };
    let hi_fix: u16 = if f.c || (!f.n && a > 0x99) { 0x60 } else { 0 };
    let v: u16 = if f.n { (a as u16 + 512 - lo_fix - hi_fix) % 256 } else { (a as u16 + lo_fix + hi_fix) % 256 };
    AluResult { value: v as u8, flags: Flags { z: v == 0, n: f.n, h: false, c: hi_fix != 0 } }
}

} // verus!
