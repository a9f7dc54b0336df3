//! The register file.

use vstd::prelude::*;

verus! {

/// The eight-bit registers, the four flags, the stack pointer and the
/// program counter.
#[derive(Clone, Copy, Debug, PartialEq, Eq, Structural)]
pub struct Registers {
    pub a: u8,
    pub b: u8,
    pub c: u8,
    pub d: u8,
    pub e: u8,
    pub h: u8,
    pub l: u8,
    pub zero: bool,
    pub subtract: bool,
    pub half_carry: bool,
    pub carry: bool,
    pub sp: u16,
    pub pc: u16,
}

/// The word made of a high and a low byte.
pub open spec fn word_of(high: u8, low: u8) -> u16 {
    (high as int * 256 + low as int) as u16
}

/// The flags as the byte that the flag register shows: zero, subtract,
/// half-carry and carry in the four high bits, the low bits clear.
pub open spec fn flags_byte(zero: bool, subtract: bool, half_carry: bool, carry: bool) -> u8 {
    ((if zero { 128int } else { 0 }) + (if subtract { 64int } else { 0 })
        + (if half_carry { 32int } else { 0 }) + (if carry { 16int } else { 0 })) as u8
}

impl Registers {
    pub open spec fn spec_f(self) -> u8 {
        flags_byte(self.zero, self.subtract, self.half_carry, self.carry)
    }

    pub open spec fn spec_af(self) -> u16 {
        word_of(self.a, self.spec_f())
    }

    pub open spec fn spec_bc(self) -> u16 {
        word_of(self.b, self.c)
    }

    pub open spec fn spec_de(self) -> u16 {
        word_of(self.d, self.e)
    }

    pub open spec fn spec_hl(self) -> u16 {
        word_of(self.h, self.l)
    }

    pub open spec fn with_af(self, value: u16) -> Registers {
        Registers {
            a: (value / 256) as u8,
            zero: (value / 128) % 2 == 1,
            subtract: (value / 64) % 2 == 1,
            half_carry: (value / 32) % 2 == 1,
            carry: (value / 16) % 2 == 1,
            ..self
        }
    }

    pub open spec fn with_bc(self, value: u16) -> Registers {
        Registers { b: (value / 256) as u8, c: (value % 256) as u8, ..self }
    }

    pub open spec fn with_de(self, value: u16) -> Registers {
        Registers { d: (value / 256) as u8, e: (value % 256) as u8, ..self }
    }

    pub open spec fn with_hl(self, value: u16) -> Registers {
        Registers { h: (value / 256) as u8, l: (value % 256) as u8, ..self }
    }

    /// The registers as they are when the binary starts at 0x0100.
    pub fn new() -> (out: Registers)
        ensures
            out == (Registers {
                a: 0x11,
                b: 0,
                c: 0x13,
                d: 0,
                e: 0xD8,
                h: 0x01,
                l: 0x4D,
                zero: true,
                subtract: false,
                half_carry: true,
                carry: true,
                sp: 0xFFFE,
                pc: 0x0100,
            }),
    {
        Registers {
            a: 0x11,
            b: 0,
            c: 0x13,
            d: 0,
            e: 0xD8,
            h: 0x01,
            l: 0x4D,
            zero: true,
            subtract: false,
            half_carry: true,
            carry: true,
            sp: 0xFFFE,
            pc: 0x0100,
        }
    }

    #[verifier::when_used_as_spec(spec_f)]
    pub fn f(self) -> (out: u8)
        ensures
            out == self.spec_f(),
    {
        let z: u8 = if self.zero { 128 } else { 0 };
        let n: u8 = if self.subtract { 64 } else { 0 };
        let h: u8 = if self.half_carry { 32 } else { 0 };
        let c: u8 = if self.carry { 16 } else { 0 };
        z + n + h + c
    }

    #[verifier::when_used_as_spec(spec_af)]
    pub fn af(self) -> (out: u16)
        ensures
            out == self.spec_af(),
    {
        self.a as u16 * 256 + self.f() as u16
    }

    #[verifier::when_used_as_spec(spec_bc)]
    pub fn bc(self) -> (out: u16)
        ensures
            out == self.spec_bc(),
    {
        self.b as u16 * 256 + self.c as u16
    }

    #[verifier::when_used_as_spec(spec_de)]
    pub fn de(self) -> (out: u16)
        ensures
            out == self.spec_de(),
    {
        self.d as u16 * 256 + self.e as u16
    }

    #[verifier::when_used_as_spec(spec_hl)]
    pub fn hl(self) -> (out: u16)
        ensures
            out == self.spec_hl(),
    {
        self.h as u16 * 256 + self.l as u16
    }

    pub fn set_af(&mut self, value: u16)
        ensures
            *final(self) == old(self).with_af(value),
    {
        self.a = (value / 256) as u8;
        self.zero = (value / 128) % 2 == 1;
        self.subtract = (value / 64) % 2 == 1;
        self.half_carry = (value / 32) % 2 == 1;
        self.carry = (value / 16) % 2 == 1;
    }

    pub fn set_bc(&mut self, value: u16)
        ensures
            *final(self) == old(self).with_bc(value),
    {
        self.b = (value / 256) as u8;
        self.c = (value % 256) as u8;
    }

    pub fn set_de(&mut self, value: u16)
        ensures
            *final(self) == old(self).with_de(value),
    {
        self.d = (value / 256) as u8;
        self.e = (value % 256) as u8;
    }

    pub fn set_hl(&mut self, value: u16)
        ensures
            *final(self) == old(self).with_hl(value),
    {
        self.h = (value / 256) as u8;
        self.l = (value % 256) as u8;
    }

    /// A register pair written and read back gives the word written.
    pub proof fn lemma_pairs_round_trip(self, value: u16)
        ensures
            self.with_bc(value).spec_bc() == value,
            self.with_de(value).spec_de() == value,
            self.with_hl(value).spec_hl() == value,
    {
    }
}

} // verus!
