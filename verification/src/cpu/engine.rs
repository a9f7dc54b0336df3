//! The instruction engine: one function for each group of opcodes, each
//! proved to do what the group's description says.

use vstd::prelude::*;
use crate::cpu::alu::{
    add16, add_offset, alu, bit_is_set, daa, dec8, inc8, set_bit, shift, signed, wrap16, AluOut,
    Flags, WordOut,
};
use crate::cpu::instructions::{INTERRUPT_ENABLE, INTERRUPT_FLAGS};
use crate::cpu::machine::{Machine, MachineModel};

verus! {

/// Where a relative jump at `pc` with the offset byte `e` leads: the
/// offset is signed and counts from behind the two bytes of the jump.
pub fn relative_target(pc: u16, e: u8) -> (out: u16)
    ensures
        out == wrap16(pc + 2 + signed(e)),
{
    let raw: u32 = if e < 128 {
        pc as u32 + 2 + e as u32
    } else {
        0x10000 + pc as u32 + 2 + e as u32 - 256
    };
    (raw % 0x10000) as u16
}

impl Machine {
    fn control0(&mut self, y: u8) -> (cycles: u32)
        requires
            old(self)@.wf(),
            y < 8,
        ensures
            (final(self)@, cycles) == old(self)@.control0(y),
            4 <= cycles <= 24,
            final(self)@.wf(),
    {
        if y == 0 {
            self.advance(1);
            4
        } else if y == 1 {
            let target: u16 = self.code_word(1);
            self.advance(3);
            self.mmu.write_word(target, self.regs.sp);
            20
        } else if y == 2 {
            self.advance(2);
            4
        } else if y == 3 || self.condition(y - 4) {
            self.regs.pc = relative_target(self.regs.pc, self.code(1));
            12
        } else {
            self.advance(2);
            8
        }
    }

    fn pair_load_add(&mut self, y: u8) -> (cycles: u32)
        requires
            old(self)@.wf(),
            y < 8,
        ensures
            (final(self)@, cycles) == old(self)@.pair_load_add(y),
            4 <= cycles <= 24,
            final(self)@.wf(),
    {
        if y % 2 == 0 {
            let value: u16 = self.code_word(1);
            self.advance(3);
            self.set_r16(y / 2, true, value);
            12
        } else {
            let r: WordOut = add16(self.regs.hl(), self.r16(y / 2, true), self.regs.zero);
            self.advance(1);
            self.set_r16(2, true, r.value);
            self.set_flags(r.flags);
            8
        }
    }

    fn indirect_a(&mut self, y: u8) -> (cycles: u32)
        requires
            old(self)@.wf(),
            y < 8,
        ensures
            (final(self)@, cycles) == old(self)@.indirect_a(y),
            4 <= cycles <= 24,
            final(self)@.wf(),
    {
        let p: u8 = y / 2;
        let hl: u16 = self.regs.hl();
        let addr: u16 = if p == 0 {
            self.regs.bc()
        } else if p == 1 {
            self.regs.de()
        } else {
            hl
        };
        if y % 2 == 0 {
            self.mmu.write_byte(addr, self.regs.a);
        } else {
            self.regs.a = self.mmu.read_byte(addr);
        }
        if p == 2 {
            self.set_r16(2, true, hl.wrapping_add(1));
        } else if p == 3 {
            self.set_r16(2, true, hl.wrapping_sub(1));
        }
        self.advance(1);
        8
    }

    fn pair_step(&mut self, y: u8) -> (cycles: u32)
        requires
            old(self)@.wf(),
            y < 8,
        ensures
            (final(self)@, cycles) == old(self)@.pair_step(y),
            4 <= cycles <= 24,
            final(self)@.wf(),
    {
        let v: u16 = self.r16(y / 2, true);
        self.advance(1);
        self.set_r16(y / 2, true, if y % 2 == 0 { v.wrapping_add(1) } else { v.wrapping_sub(1) });
        8
    }

    fn byte_step(&mut self, y: u8, up: bool) -> (cycles: u32)
        requires
            old(self)@.wf(),
            y < 8,
        ensures
            (final(self)@, cycles) == old(self)@.byte_step(y, up),
            4 <= cycles <= 24,
            final(self)@.wf(),
    {
        let v: u8 = self.r8(y);
        let r: AluOut = if up { inc8(v, self.regs.carry) } else { dec8(v, self.regs.carry) };
        self.set_r8(y, r.value);
        self.set_flags(r.flags);
        self.advance(1);
        if y == 6 { 12 } else { 4 }
    }

    fn byte_load(&mut self, y: u8) -> (cycles: u32)
        requires
            old(self)@.wf(),
            y < 8,
        ensures
            (final(self)@, cycles) == old(self)@.byte_load(y),
            4 <= cycles <= 24,
            final(self)@.wf(),
    {
        let n: u8 = self.code(1);
        self.set_r8(y, n);
        self.advance(2);
        if y == 6 { 12 } else { 8 }
    }

    fn accumulator(&mut self, y: u8) -> (cycles: u32)
        requires
            old(self)@.wf(),
            y < 8,
        ensures
            (final(self)@, cycles) == old(self)@.accumulator(y),
            4 <= cycles <= 24,
            final(self)@.wf(),
    {
        let f: Flags = self.flags();
        let a: u8 = self.regs.a;
        let r: AluOut = if y < 4 {
            let s: AluOut = shift(y, a, f.carry);
            AluOut {
                value: s.value,
                flags: Flags {
                    zero: false,
                    subtract: s.flags.subtract,
                    half_carry: s.flags.half_carry,
                    carry: s.flags.carry,
                },
            }
        } else if y == 4 {
            daa(a, f)
        } else if y == 5 {
            AluOut {
                value: 255 - a,
                flags: Flags { zero: f.zero, subtract: true, half_carry: true, carry: f.carry },
            }
        } else {
            AluOut {
                value: a,
                flags: Flags {
                    zero: f.zero,
                    subtract: false,
                    half_carry: false,
                    carry: y == 6 || !f.carry,
                },
            }
        };
        self.regs.a = r.value;
        self.set_flags(r.flags);
        self.advance(1);
        4
    }

    fn block0(&mut self, op: u8) -> (cycles: u32)
        requires
            old(self)@.wf(),
            op < 0x40,
        ensures
            (final(self)@, cycles) == old(self)@.block0(op),
            4 <= cycles <= 24,
            final(self)@.wf(),
    {
        let y: u8 = (op / 8) % 8;
        let z: u8 = op % 8;
        if z == 0 {
            self.control0(y)
        } else if z == 1 {
            self.pair_load_add(y)
        } else if z == 2 {
            self.indirect_a(y)
        } else if z == 3 {
            self.pair_step(y)
        } else if z == 4 {
            self.byte_step(y, true)
        } else if z == 5 {
            self.byte_step(y, false)
        } else if z == 6 {
            self.byte_load(y)
        } else {
            self.accumulator(y)
        }
    }

    fn block1(&mut self, op: u8) -> (cycles: u32)
        requires
            old(self)@.wf(),
            0x40 <= op < 0x80,
        ensures
            (final(self)@, cycles) == old(self)@.block1(op),
            4 <= cycles <= 24,
            final(self)@.wf(),
    {
        let y: u8 = (op / 8) % 8;
        let z: u8 = op % 8;
        if op == 0x76 {
            self.advance(1);
            self.halted = true;
            4
        } else {
            let v: u8 = self.r8(z);
            self.set_r8(y, v);
            self.advance(1);
            if y == 6 || z == 6 { 8 } else { 4 }
        }
    }

    fn block2(&mut self, op: u8) -> (cycles: u32)
        requires
            old(self)@.wf(),
            0x80 <= op < 0xC0,
        ensures
            (final(self)@, cycles) == old(self)@.block2(op),
            4 <= cycles <= 24,
            final(self)@.wf(),
    {
        let z: u8 = op % 8;
        let r: AluOut = alu((op / 8) % 8, self.regs.a, self.r8(z), self.regs.carry);
        self.regs.a = r.value;
        self.set_flags(r.flags);
        self.advance(1);
        if z == 6 { 8 } else { 4 }
    }

    /// Calls `target` from an instruction of `length` bytes.
    pub fn call_to(&mut self, target: u16, length: u16)
        requires
            old(self)@.wf(),
        ensures
            final(self)@ == old(self)@.call_to(target, length as int),
            final(self)@.wf(),
    {
        self.push(self.regs.pc.wrapping_add(length));
        self.regs.pc = target;
    }

    /// Returns: pops the program counter.
    pub fn ret(&mut self)
        requires
            old(self)@.wf(),
        ensures
            final(self)@ == old(self)@.ret(),
            final(self)@.wf(),
    {
        let target: u16 = self.pop();
        self.regs.pc = target;
    }

    fn fourth_z0(&mut self, y: u8) -> (cycles: u32)
        requires
            old(self)@.wf(),
            y < 8,
        ensures
            (final(self)@, cycles) == old(self)@.fourth_z0(y),
            4 <= cycles <= 24,
            final(self)@.wf(),
    {
        let n: u8 = self.code(1);
        if y < 4 {
            if self.condition(y) {
                self.ret();
                20
            } else {
                self.advance(1);
                8
            }
        } else if y == 4 {
            self.advance(2);
            self.mmu.write_byte(0xFF00 + n as u16, self.regs.a);
            12
        } else if y == 5 {
            let r: WordOut = add_offset(self.regs.sp, n);
            self.advance(2);
            self.regs.sp = r.value;
            self.set_flags(r.flags);
            16
        } else if y == 6 {
            self.advance(2);
            self.regs.a = self.mmu.read_byte(0xFF00 + n as u16);
            12
        } else {
            let r: WordOut = add_offset(self.regs.sp, n);
            self.advance(2);
            self.set_r16(2, true, r.value);
            self.set_flags(r.flags);
            12
        }
    }

    fn fourth_z1(&mut self, y: u8) -> (cycles: u32)
        requires
            old(self)@.wf(),
            y < 8,
        ensures
            (final(self)@, cycles) == old(self)@.fourth_z1(y),
            4 <= cycles <= 24,
            final(self)@.wf(),
    {
        if y % 2 == 0 {
            let value: u16 = self.pop();
            self.set_r16(y / 2, false, value);
            self.advance(1);
            12
        } else if y == 1 {
            self.ret();
            16
        } else if y == 3 {
            self.ret();
            self.ime = true;
            16
        } else if y == 5 {
            self.regs.pc = self.regs.hl();
            4
        } else {
            self.advance(1);
            self.regs.sp = self.regs.hl();
            8
        }
    }

    fn fourth_z2(&mut self, y: u8) -> (cycles: u32)
        requires
            old(self)@.wf(),
            y < 8,
        ensures
            (final(self)@, cycles) == old(self)@.fourth_z2(y),
            4 <= cycles <= 24,
            final(self)@.wf(),
    {
        let nn: u16 = self.code_word(1);
        let high: u16 = 0xFF00 + self.regs.c as u16;
        if y < 4 {
            if self.condition(y) {
                self.regs.pc = nn;
                16
            } else {
                self.advance(3);
                12
            }
        } else if y == 4 {
            self.advance(1);
            self.mmu.write_byte(high, self.regs.a);
            8
        } else if y == 5 {
            self.advance(3);
            self.mmu.write_byte(nn, self.regs.a);
            16
        } else if y == 6 {
            self.advance(1);
            self.regs.a = self.mmu.read_byte(high);
            8
        } else {
            self.advance(3);
            self.regs.a = self.mmu.read_byte(nn);
            16
        }
    }

    fn prefixed(&mut self) -> (cycles: u32)
        requires
            old(self)@.wf(),
        ensures
            (final(self)@, cycles) == old(self)@.prefixed(),
            4 <= cycles <= 24,
            final(self)@.wf(),
    {
        let op: u8 = self.code(1);
        let y: u8 = (op / 8) % 8;
        let z: u8 = op % 8;
        let v: u8 = self.r8(z);
        if op < 0x40 {
            let r: AluOut = shift(y, v, self.regs.carry);
            self.set_r8(z, r.value);
            self.set_flags(r.flags);
            self.advance(2);
            if z == 6 { 16 } else { 8 }
        } else if op < 0x80 {
            let zero: bool = !bit_is_set(v, y);
            self.set_flags(
                Flags { zero, subtract: false, half_carry: true, carry: self.regs.carry },
            );
            self.advance(2);
            if z == 6 { 12 } else { 8 }
        } else {
            self.set_r8(z, set_bit(v, y, op >= 0xC0));
            self.advance(2);
            if z == 6 { 16 } else { 8 }
        }
    }

    /// Whether the processor lacks the opcode `op`.
    pub fn is_undefined(op: u8) -> (out: bool)
        ensures
            out == MachineModel::undefined(op),
    {
        op == 0xD3 || op == 0xDB || op == 0xDD || op == 0xE3 || op == 0xE4 || op == 0xEB
            || op == 0xEC || op == 0xED || op == 0xF4 || op == 0xFC || op == 0xFD
    }

    fn block3(&mut self, op: u8) -> (cycles: u32)
        requires
            old(self)@.wf(),
            op >= 0xC0,
            !MachineModel::undefined(op),
        ensures
            (final(self)@, cycles) == old(self)@.block3(op),
            4 <= cycles <= 24,
            final(self)@.wf(),
    {
        let y: u8 = (op / 8) % 8;
        let z: u8 = op % 8;
        let nn: u16 = self.code_word(1);
        if z == 0 {
            self.fourth_z0(y)
        } else if z == 1 {
            self.fourth_z1(y)
        } else if z == 2 {
            self.fourth_z2(y)
        } else if z == 3 {
            if y == 0 {
                self.regs.pc = nn;
                16
            } else if y == 1 {
                self.prefixed()
            } else {
                self.advance(1);
                self.ime = y == 7;
                4
            }
        } else if z == 4 {
            if self.condition(y) {
                self.call_to(nn, 3);
                24
            } else {
                self.advance(3);
                12
            }
        } else if z == 5 {
            if y % 2 == 0 {
                let value: u16 = self.r16(y / 2, false);
                self.advance(1);
                self.push(value);
                16
            } else {
                self.call_to(nn, 3);
                24
            }
        } else if z == 6 {
            let r: AluOut = alu(y, self.regs.a, self.code(1), self.regs.carry);
            self.regs.a = r.value;
            self.set_flags(r.flags);
            self.advance(2);
            8
        } else {
            self.call_to((y * 8) as u16, 1);
            16
        }
    }

    /// Runs the instruction at the program counter and returns the cycles
    /// it took. Where the opcode there is undefined, nothing changes and
    /// `None` is returned.
    pub fn execute(&mut self) -> (out: Option<u32>)
        requires
            old(self)@.wf(),
        ensures
            match old(self)@.execute() {
                Some((next, cycles)) => out == Some(cycles) && final(self)@ == next,
                None => out.is_none() && final(self)@ == old(self)@,
            },
            out matches Some(cycles) ==> 4 <= cycles <= 24,
            final(self)@.wf(),
    {
        let op: u8 = self.code(0);
        if op < 0x40 {
            Some(self.block0(op))
        } else if op < 0x80 {
            Some(self.block1(op))
        } else if op < 0xC0 {
            Some(self.block2(op))
        } else if Machine::is_undefined(op) {
            None
        } else {
            Some(self.block3(op))
        }
    }

    /// The interrupt to serve, if any.
    pub fn interrupt_line(&self) -> (out: Option<u8>)
        requires
            self@.wf(),
        ensures
            out == self@.interrupt_line(),
    {
        let requested: u8 = self.mmu.read_byte(INTERRUPT_FLAGS);
        let enabled: u8 = self.mmu.read_byte(INTERRUPT_ENABLE);
        if bit_is_set(requested, 0) && bit_is_set(enabled, 0) {
            Some(0)
        } else if bit_is_set(requested, 1) && bit_is_set(enabled, 1) {
            Some(1)
        } else if bit_is_set(requested, 2) && bit_is_set(enabled, 2) {
            Some(2)
        } else if bit_is_set(requested, 3) && bit_is_set(enabled, 3) {
            Some(3)
        } else if bit_is_set(requested, 4) && bit_is_set(enabled, 4) {
            Some(4)
        } else {
            None
        }
    }

    /// One step of the machine: an interrupt is taken, a halt idles, or an
    /// instruction runs. Where the instruction's opcode is undefined,
    /// `None` is returned and nothing has changed but a halt that a pending
    /// interrupt ended.
    pub fn step(&mut self) -> (out: Option<u32>)
        requires
            old(self)@.wf(),
        ensures
            match old(self)@.step() {
                Some((next, cycles)) => out == Some(cycles) && final(self)@ == next,
                None => out.is_none() && final(self)@ == (MachineModel {
                    halted: false,
                    ..old(self)@
                }),
            },
            out matches Some(cycles) ==> 4 <= cycles <= 24,
            final(self)@.wf(),
    {
        match self.interrupt_line() {
            Some(line) => {
                if self.ime {
                    let requested: u8 = self.mmu.read_byte(INTERRUPT_FLAGS);
                    self.ime = false;
                    self.halted = false;
                    self.mmu.write_byte(INTERRUPT_FLAGS, set_bit(requested, line, false));
                    self.call_to(0x40 + 8 * line as u16, 0);
                    Some(20)
                } else {
                    self.halted = false;
                    self.execute()
                }
            },
            None => {
                if self.halted {
                    Some(4)
                } else {
                    self.execute()
                }
            },
        }
    }
}

} // verus!
