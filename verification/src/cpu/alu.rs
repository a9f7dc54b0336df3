//! Arithmetic and logic on bytes and words, with the flags they produce.

use vstd::prelude::*;

verus! {

/// The four flags.
#[derive(Clone, Copy, Debug, PartialEq, Eq, Structural)]
pub struct Flags {
    pub zero: bool,
    pub subtract: bool,
    pub half_carry: bool,
    pub carry: bool,
}

/// A byte result with the flags that go with it.
#[derive(Clone, Copy, Debug, PartialEq, Eq, Structural)]
pub struct AluOut {
    pub value: u8,
    pub flags: Flags,
}

/// A word result with the flags that go with it.
#[derive(Clone, Copy, Debug, PartialEq, Eq, Structural)]
pub struct WordOut {
    pub value: u16,
    pub flags: Flags,
}

pub open spec fn bit(b: bool) -> int {
    if b { 1 } else { 0 }
}

/// The offset that a byte stands for when it is read as a signed number.
pub open spec fn signed(e: u8) -> int {
    if e < 128 { e as int } else { e - 256 }
}

/// `a + b + carry_in`, kept to a byte.
pub open spec fn add8_spec(a: u8, b: u8, carry_in: bool) -> AluOut {
    let sum = a + b + bit(carry_in);
    AluOut {
        value: (sum % 256) as u8,
        flags: Flags {
            zero: sum % 256 == 0,
            subtract: false,
            half_carry: a % 16 + b % 16 + bit(carry_in) > 15,
            carry: sum > 255,
        },
    }
}

/// `a - b - carry_in`, kept to a byte.
pub open spec fn sub8_spec(a: u8, b: u8, carry_in: bool) -> AluOut {
    let diff = a - b - bit(carry_in);
    AluOut {
        value: (diff % 256) as u8,
        flags: Flags {
            zero: diff % 256 == 0,
            subtract: true,
            half_carry: a % 16 < b % 16 + bit(carry_in),
            carry: diff < 0,
        },
    }
}

pub open spec fn and8_spec(a: u8, b: u8) -> AluOut {
    AluOut {
        value: a & b,
        flags: Flags { zero: a & b == 0, subtract: false, half_carry: true, carry: false },
    }
}

pub open spec fn or8_spec(a: u8, b: u8) -> AluOut {
    AluOut {
        value: a | b,
        flags: Flags { zero: a | b == 0, subtract: false, half_carry: false, carry: false },
    }
}

pub open spec fn xor8_spec(a: u8, b: u8) -> AluOut {
    AluOut {
        value: a ^ b,
        flags: Flags { zero: a ^ b == 0, subtract: false, half_carry: false, carry: false },
    }
}

/// `a + 1`; the carry flag is the one passed in.
pub open spec fn inc8_spec(a: u8, carry: bool) -> AluOut {
    AluOut {
        value: ((a + 1) % 256) as u8,
        flags: Flags { zero: a == 255, subtract: false, half_carry: a % 16 == 15, carry },
    }
}

/// `a - 1`; the carry flag is the one passed in.
pub open spec fn dec8_spec(a: u8, carry: bool) -> AluOut {
    AluOut {
        value: ((a - 1) % 256) as u8,
        flags: Flags { zero: a == 1, subtract: true, half_carry: a % 16 == 0, carry },
    }
}

/// The eight operations of the arithmetic block, by their number in the
/// opcode: add, add with carry, subtract, subtract with carry, and, xor,
/// or, compare. Compare gives the flags of a subtraction and leaves `a`.
pub open spec fn alu_spec(op: u8, a: u8, b: u8, carry: bool) -> AluOut
    recommends
        op < 8,
{
    if op == 0 {
        add8_spec(a, b, false)
    } else if op == 1 {
        add8_spec(a, b, carry)
    } else if op == 2 {
        sub8_spec(a, b, false)
    } else if op == 3 {
        sub8_spec(a, b, carry)
    } else if op == 4 {
        and8_spec(a, b)
    } else if op == 5 {
        xor8_spec(a, b)
    } else if op == 6 {
        or8_spec(a, b)
    } else {
        AluOut { value: a, flags: sub8_spec(a, b, false).flags }
    }
}

/// The eight rotations and shifts, by their number in the opcode: rotate
/// left, rotate right, rotate left through carry, rotate right through
/// carry, shift left, shift right keeping the sign, swap the halves, shift
/// right.
pub open spec fn shift_spec(op: u8, a: u8, carry: bool) -> AluOut
    recommends
        op < 8,
{
    let x: int = a as int;
    let value: int = if op == 0 {
        (x * 2) % 256 + x / 128
    } else if op == 1 {
        x / 2 + (x % 2) * 128
    } else if op == 2 {
        (x * 2) % 256 + bit(carry)
    } else if op == 3 {
        x / 2 + bit(carry) * 128
    } else if op == 4 {
        (x * 2) % 256
    } else if op == 5 {
        x / 2 + (x / 128) * 128
    } else if op == 6 {
        (x % 16) * 16 + x / 16
    } else {
        x / 2
    };
    let carry_out = if op == 0 || op == 2 || op == 4 {
        a >= 128
    } else if op == 6 {
        false
    } else {
        a % 2 == 1
    };
    AluOut {
        value: value as u8,
        flags: Flags { zero: value == 0, subtract: false, half_carry: false, carry: carry_out },
    }
}

/// The weight of bit `n` of a byte.
pub open spec fn weight(n: u8) -> int
    recommends
        n < 8,
{
    if n == 0 { 1 } else if n == 1 { 2 } else if n == 2 { 4 } else if n == 3 { 8 }
    else if n == 4 { 16 } else if n == 5 { 32 } else if n == 6 { 64 } else { 128 }
}

/// Whether bit `n` of `a` is set.
pub open spec fn test_bit(a: u8, n: u8) -> bool
    recommends
        n < 8,
{
    (a as int / weight(n)) % 2 == 1
}

/// `a` with bit `n` set to `on`.
pub open spec fn with_bit(a: u8, n: u8, on: bool) -> u8
    recommends
        n < 8,
{
    if test_bit(a, n) == on {
        a
    } else if on {
        (a + weight(n)) as u8
    } else {
        (a - weight(n)) as u8
    }
}

/// Decimal adjustment of `a` after an addition or a subtraction of packed
/// decimal numbers.
pub open spec fn daa_spec(a: u8, flags: Flags) -> AluOut {
    let low = if flags.half_carry || (!flags.subtract && a % 16 > 9) { 6int } else { 0 };
    let high = if flags.carry || (!flags.subtract && a > 0x99) { 0x60int } else { 0 };
    let raw = if flags.subtract { a - low - high } else { a + low + high };
    AluOut {
        value: (raw % 256) as u8,
        flags: Flags {
            zero: raw % 256 == 0,
            subtract: flags.subtract,
            half_carry: false,
            carry: high != 0,
        },
    }
}

/// `a + b` on words; the zero flag is the one passed in.
pub open spec fn add16_spec(a: u16, b: u16, zero: bool) -> WordOut {
    WordOut {
        value: ((a + b) % 0x10000) as u16,
        flags: Flags {
            zero,
            subtract: false,
            half_carry: a % 0x1000 + b % 0x1000 > 0xFFF,
            carry: a + b > 0xFFFF,
        },
    }
}

/// `a` plus the signed offset `e`, as the two instructions on the stack
/// pointer compute it: the flags are those of the low bytes' addition.
pub open spec fn add_offset_spec(a: u16, e: u8) -> WordOut {
    WordOut {
        value: ((a + signed(e)) % 0x10000) as u16,
        flags: Flags {
            zero: false,
            subtract: false,
            half_carry: a % 16 + e % 16 > 15,
            carry: a % 256 + e > 255,
        },
    }
}

/// `a + n` on words, wrapping.
pub open spec fn wrap16(a: int) -> u16 {
    (a % 0x10000) as u16
}

pub fn add8(a: u8, b: u8, carry_in: bool) -> (out: AluOut)
    ensures
        out == add8_spec(a, b, carry_in),
{
    let cin: u16 = if carry_in { 1 } else { 0 };
    let sum: u16 = a as u16 + b as u16 + cin;
    AluOut {
        value: (sum % 256) as u8,
        flags: Flags {
            zero: sum % 256 == 0,
            subtract: false,
            half_carry: (a % 16) as u16 + (b % 16) as u16 + cin > 15,
            carry: sum > 255,
        },
    }
}

pub fn sub8(a: u8, b: u8, carry_in: bool) -> (out: AluOut)
    ensures
        out == sub8_spec(a, b, carry_in),
{
    let cin: u16 = if carry_in { 1 } else { 0 };
    let raw: u16 = 256 + a as u16 - b as u16 - cin;
    AluOut {
        value: (raw % 256) as u8,
        flags: Flags {
            zero: raw % 256 == 0,
            subtract: true,
            half_carry: ((a % 16) as u16) < (b % 16) as u16 + cin,
            carry: raw < 256,
        },
    }
}

pub fn inc8(a: u8, carry: bool) -> (out: AluOut)
    ensures
        out == inc8_spec(a, carry),
{
    AluOut {
        value: if a == 255 { 0 } else { a + 1 },
        flags: Flags { zero: a == 255, subtract: false, half_carry: a % 16 == 15, carry },
    }
}

pub fn dec8(a: u8, carry: bool) -> (out: AluOut)
    ensures
        out == dec8_spec(a, carry),
{
    AluOut {
        value: if a == 0 { 255 } else { a - 1 },
        flags: Flags { zero: a == 1, subtract: true, half_carry: a % 16 == 0, carry },
    }
}

/// One of the eight operations of the arithmetic block.
pub fn alu(op: u8, a: u8, b: u8, carry: bool) -> (out: AluOut)
    requires
        op < 8,
    ensures
        out == alu_spec(op, a, b, carry),
{
    if op == 0 {
        add8(a, b, false)
    } else if op == 1 {
        add8(a, b, carry)
    } else if op == 2 {
        sub8(a, b, false)
    } else if op == 3 {
        sub8(a, b, carry)
    } else if op == 4 {
        let value: u8 = a & b;
        AluOut {
            value,
            flags: Flags { zero: value == 0, subtract: false, half_carry: true, carry: false },
        }
    } else if op == 5 {
        let value: u8 = a ^ b;
        AluOut {
            value,
            flags: Flags { zero: value == 0, subtract: false, half_carry: false, carry: false },
        }
    } else if op == 6 {
        let value: u8 = a | b;
        AluOut {
            value,
            flags: Flags { zero: value == 0, subtract: false, half_carry: false, carry: false },
        }
    } else {
        AluOut { value: a, flags: sub8(a, b, false).flags }
    }
}

/// One of the eight rotations and shifts.
pub fn shift(op: u8, a: u8, carry: bool) -> (out: AluOut)
    requires
        op < 8,
    ensures
        out == shift_spec(op, a, carry),
{
    let cin: u8 = if carry { 1 } else { 0 };
    let doubled: u8 = ((a as u16 * 2) % 256) as u8;
    let value: u8 = if op == 0 {
        doubled + a / 128
    } else if op == 1 {
        a / 2 + (a % 2) * 128
    } else if op == 2 {
        doubled + cin
    } else if op == 3 {
        a / 2 + cin * 128
    } else if op == 4 {
        doubled
    } else if op == 5 {
        a / 2 + (a / 128) * 128
    } else if op == 6 {
        (a % 16) * 16 + a / 16
    } else {
        a / 2
    };
    let carry_out: bool = if op == 0 || op == 2 || op == 4 {
        a >= 128
    } else if op == 6 {
        false
    } else {
        a % 2 == 1
    };
    AluOut {
        value,
        flags: Flags { zero: value == 0, subtract: false, half_carry: false, carry: carry_out },
    }
}

/// The weight of bit `n`.
pub fn bit_weight(n: u8) -> (out: u8)
    requires
        n < 8,
    ensures
        out == weight(n),
{
    if n == 0 { 1 } else if n == 1 { 2 } else if n == 2 { 4 } else if n == 3 { 8 }
    else if n == 4 { 16 } else if n == 5 { 32 } else if n == 6 { 64 } else { 128 }
}

pub fn bit_is_set(a: u8, n: u8) -> (out: bool)
    requires
        n < 8,
    ensures
        out == test_bit(a, n),
{
    (a / bit_weight(n)) % 2 == 1
}

pub fn set_bit(a: u8, n: u8, on: bool) -> (out: u8)
    requires
        n < 8,
    ensures
        out == with_bit(a, n, on),
{
    let w: u8 = bit_weight(n);
    let set: bool = (a / w) % 2 == 1;
    if set == on {
        a
    } else if on {
        proof {
            lemma_clear_bit_has_room(a, n);
        }
        a + w
    } else {
        proof {
            lemma_set_bit_has_weight(a, n);
        }
        a - w
    }
}

/// A byte whose bit `n` is clear stays a byte when the bit's weight is
/// added.
pub proof fn lemma_clear_bit_has_room(a: u8, n: u8)
    requires
        n < 8,
        !test_bit(a, n),
    ensures
        a + weight(n) <= 255,
{
    if n == 0 {
        let q = a as int / 1;
        assert(a < (q + 1) * 1);
        assert(q <= 254);
    } else if n == 1 {
        let q = a as int / 2;
        assert(a < (q + 1) * 2);
        assert(q <= 126);
    } else if n == 2 {
        let q = a as int / 4;
        assert(a < (q + 1) * 4);
        assert(q <= 62);
    } else if n == 3 {
        let q = a as int / 8;
        assert(a < (q + 1) * 8);
        assert(q <= 30);
    } else if n == 4 {
        let q = a as int / 16;
        assert(a < (q + 1) * 16);
        assert(q <= 14);
    } else if n == 5 {
        let q = a as int / 32;
        assert(a < (q + 1) * 32);
        assert(q <= 6);
    } else if n == 6 {
        let q = a as int / 64;
        assert(a < (q + 1) * 64);
        assert(q <= 2);
    } else {
        let q = a as int / 128;
        assert(a < (q + 1) * 128);
        assert(q <= 0);
    }
}

/// A byte whose bit `n` is set is at least the bit's weight.
pub proof fn lemma_set_bit_has_weight(a: u8, n: u8)
    requires
        n < 8,
        test_bit(a, n),
    ensures
        a >= weight(n),
{
}

pub fn daa(a: u8, flags: Flags) -> (out: AluOut)
    ensures
        out == daa_spec(a, flags),
{
    let low: u16 = if flags.half_carry || (!flags.subtract && a % 16 > 9) { 6 } else { 0 };
    let high: u16 = if flags.carry || (!flags.subtract && a > 0x99) { 0x60 } else { 0 };
    let raw: u16 = if flags.subtract { 256 + a as u16 - low - high } else { a as u16 + low + high };
    AluOut {
        value: (raw % 256) as u8,
        flags: Flags {
            zero: raw % 256 == 0,
            subtract: flags.subtract,
            half_carry: false,
            carry: high != 0,
        },
    }
}

pub fn add16(a: u16, b: u16, zero: bool) -> (out: WordOut)
    ensures
        out == add16_spec(a, b, zero),
{
    let sum: u32 = a as u32 + b as u32;
    WordOut {
        value: (sum % 0x10000) as u16,
        flags: Flags {
            zero,
            subtract: false,
            half_carry: (a % 0x1000) as u32 + (b % 0x1000) as u32 > 0xFFF,
            carry: sum > 0xFFFF,
        },
    }
}

pub fn add_offset(a: u16, e: u8) -> (out: WordOut)
    ensures
        out == add_offset_spec(a, e),
{
    let raw: u32 = if e < 128 { a as u32 + e as u32 } else { 0x10000 + a as u32 + e as u32 - 256 };
    WordOut {
        value: (raw % 0x10000) as u16,
        flags: Flags {
            zero: false,
            subtract: false,
            half_carry: (a % 16) as u32 + (e % 16) as u32 > 15,
            carry: (a % 256) as u32 + e as u32 > 255,
        },
    }
}

} // verus!
