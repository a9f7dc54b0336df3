//! The machine that instructions act on: registers, memory and the two
//! interrupt-related flags, with the accessors that instructions are made
//! of.

use vstd::prelude::*;
use crate::cpu::alu::{wrap16, Flags};
use crate::cpu::registers::{word_of, Registers};
use crate::mmu::{MemoryModel, Mmu};

verus! {

/// The mathematical state of the machine.
pub struct MachineModel {
    pub regs: Registers,
    pub mem: MemoryModel,
    /// The interrupt-master flag.
    pub ime: bool,
    /// Set by the halt instruction, cleared when an interrupt is pending.
    pub halted: bool,
}

impl MachineModel {
    pub open spec fn wf(self) -> bool {
        self.mem.wf()
    }

    pub open spec fn with_regs(self, regs: Registers) -> MachineModel {
        MachineModel { regs, ..self }
    }

    pub open spec fn with_mem(self, mem: MemoryModel) -> MachineModel {
        MachineModel { mem, ..self }
    }

    pub open spec fn with_pc(self, pc: u16) -> MachineModel {
        self.with_regs(Registers { pc, ..self.regs })
    }

    pub open spec fn with_sp(self, sp: u16) -> MachineModel {
        self.with_regs(Registers { sp, ..self.regs })
    }

    pub open spec fn with_a(self, a: u8) -> MachineModel {
        self.with_regs(Registers { a, ..self.regs })
    }

    /// The machine with the program counter moved on by `n` bytes.
    pub open spec fn advance(self, n: int) -> MachineModel {
        self.with_pc(wrap16(self.regs.pc + n))
    }

    pub open spec fn flags(self) -> Flags {
        Flags {
            zero: self.regs.zero,
            subtract: self.regs.subtract,
            half_carry: self.regs.half_carry,
            carry: self.regs.carry,
        }
    }

    pub open spec fn with_flags(self, flags: Flags) -> MachineModel {
        self.with_regs(
            Registers {
                zero: flags.zero,
                subtract: flags.subtract,
                half_carry: flags.half_carry,
                carry: flags.carry,
                ..self.regs
            },
        )
    }

    /// The byte at the program counter plus `offset`.
    pub open spec fn code(self, offset: int) -> u8 {
        self.mem.read(wrap16(self.regs.pc + offset))
    }

    /// The word whose low byte is at the program counter plus `offset`.
    pub open spec fn code_word(self, offset: int) -> u16 {
        word_of(self.code(offset + 1), self.code(offset))
    }

    /// The eight-bit operand with the given number in an opcode: B, C, D,
    /// E, H, L, the byte that HL points to, A.
    pub open spec fn r8(self, index: u8) -> u8
        recommends
            index < 8,
    {
        if index == 0 {
            self.regs.b
        } else if index == 1 {
            self.regs.c
        } else if index == 2 {
            self.regs.d
        } else if index == 3 {
            self.regs.e
        } else if index == 4 {
            self.regs.h
        } else if index == 5 {
            self.regs.l
        } else if index == 6 {
            self.mem.read(self.regs.spec_hl())
        } else {
            self.regs.a
        }
    }

    pub open spec fn with_r8(self, index: u8, value: u8) -> MachineModel
        recommends
            index < 8,
    {
        if index == 0 {
            self.with_regs(Registers { b: value, ..self.regs })
        } else if index == 1 {
            self.with_regs(Registers { c: value, ..self.regs })
        } else if index == 2 {
            self.with_regs(Registers { d: value, ..self.regs })
        } else if index == 3 {
            self.with_regs(Registers { e: value, ..self.regs })
        } else if index == 4 {
            self.with_regs(Registers { h: value, ..self.regs })
        } else if index == 5 {
            self.with_regs(Registers { l: value, ..self.regs })
        } else if index == 6 {
            self.with_mem(self.mem.write(self.regs.spec_hl(), value))
        } else {
            self.with_regs(Registers { a: value, ..self.regs })
        }
    }

    /// The register pair with the given number in an opcode: BC, DE, HL,
    /// and as the fourth either SP or AF.
    pub open spec fn r16(self, index: u8, stack: bool) -> u16
        recommends
            index < 4,
    {
        if index == 0 {
            self.regs.spec_bc()
        } else if index == 1 {
            self.regs.spec_de()
        } else if index == 2 {
            self.regs.spec_hl()
        } else if stack {
            self.regs.sp
        } else {
            self.regs.spec_af()
        }
    }

    pub open spec fn with_r16(self, index: u8, stack: bool, value: u16) -> MachineModel
        recommends
            index < 4,
    {
        if index == 0 {
            self.with_regs(self.regs.with_bc(value))
        } else if index == 1 {
            self.with_regs(self.regs.with_de(value))
        } else if index == 2 {
            self.with_regs(self.regs.with_hl(value))
        } else if stack {
            self.with_sp(value)
        } else {
            self.with_regs(self.regs.with_af(value))
        }
    }

    /// The condition with the given number in an opcode: not zero, zero,
    /// no carry, carry.
    pub open spec fn condition(self, index: u8) -> bool
        recommends
            index < 4,
    {
        if index == 0 {
            !self.regs.zero
        } else if index == 1 {
            self.regs.zero
        } else if index == 2 {
            !self.regs.carry
        } else {
            self.regs.carry
        }
    }

    /// The machine after `value` has been pushed: the stack pointer goes
    /// down by two and the word lies where it then points, low byte first.
    pub open spec fn push(self, value: u16) -> MachineModel {
        let sp = wrap16(self.regs.sp - 2);
        self.with_sp(sp).with_mem(self.mem.write_word(sp, value))
    }

    /// The word that a pop returns.
    pub open spec fn top(self) -> u16 {
        self.mem.read_word(self.regs.sp)
    }

    /// The machine after a pop: the stack pointer goes up by two.
    pub open spec fn pop(self) -> MachineModel {
        self.with_sp(wrap16(self.regs.sp + 2))
    }
}

/// Registers and memory, as instructions see them.
pub struct Machine {
    pub regs: Registers,
    pub mmu: Mmu,
    pub ime: bool,
    pub halted: bool,
}

impl View for Machine {
    type V = MachineModel;

    open spec fn view(&self) -> MachineModel {
        MachineModel { regs: self.regs, mem: self.mmu@, ime: self.ime, halted: self.halted }
    }
}

impl Machine {
    /// The byte at the program counter plus `offset`.
    pub fn code(&self, offset: u16) -> (out: u8)
        requires
            self@.wf(),
        ensures
            out == self@.code(offset as int),
    {
        self.mmu.read_byte(self.regs.pc.wrapping_add(offset))
    }

    /// The word at the program counter plus `offset`.
    pub fn code_word(&self, offset: u16) -> (out: u16)
        requires
            self@.wf(),
            offset < 0xFFFF,
        ensures
            out == self@.code_word(offset as int),
    {
        let low: u8 = self.code(offset);
        let high: u8 = self.code(offset + 1);
        high as u16 * 256 + low as u16
    }

    pub fn advance(&mut self, n: u16)
        ensures
            final(self)@ == old(self)@.advance(n as int),
    {
        self.regs.pc = self.regs.pc.wrapping_add(n);
    }

    pub fn flags(&self) -> (out: Flags)
        ensures
            out == self@.flags(),
    {
        Flags {
            zero: self.regs.zero,
            subtract: self.regs.subtract,
            half_carry: self.regs.half_carry,
            carry: self.regs.carry,
        }
    }

    pub fn set_flags(&mut self, flags: Flags)
        ensures
            final(self)@ == old(self)@.with_flags(flags),
    {
        self.regs.zero = flags.zero;
        self.regs.subtract = flags.subtract;
        self.regs.half_carry = flags.half_carry;
        self.regs.carry = flags.carry;
    }

    pub fn r8(&self, index: u8) -> (out: u8)
        requires
            self@.wf(),
            index < 8,
        ensures
            out == self@.r8(index),
    {
        if index == 0 {
            self.regs.b
        } else if index == 1 {
            self.regs.c
        } else if index == 2 {
            self.regs.d
        } else if index == 3 {
            self.regs.e
        } else if index == 4 {
            self.regs.h
        } else if index == 5 {
            self.regs.l
        } else if index == 6 {
            self.mmu.read_byte(self.regs.hl())
        } else {
            self.regs.a
        }
    }

    pub fn set_r8(&mut self, index: u8, value: u8)
        requires
            old(self)@.wf(),
            index < 8,
        ensures
            final(self)@ == old(self)@.with_r8(index, value),
            final(self)@.wf(),
    {
        if index == 0 {
            self.regs.b = value;
        } else if index == 1 {
            self.regs.c = value;
        } else if index == 2 {
            self.regs.d = value;
        } else if index == 3 {
            self.regs.e = value;
        } else if index == 4 {
            self.regs.h = value;
        } else if index == 5 {
            self.regs.l = value;
        } else if index == 6 {
            self.mmu.write_byte(self.regs.hl(), value);
        } else {
            self.regs.a = value;
        }
    }

    pub fn r16(&self, index: u8, stack: bool) -> (out: u16)
        requires
            index < 4,
        ensures
            out == self@.r16(index, stack),
    {
        if index == 0 {
            self.regs.bc()
        } else if index == 1 {
            self.regs.de()
        } else if index == 2 {
            self.regs.hl()
        } else if stack {
            self.regs.sp
        } else {
            self.regs.af()
        }
    }

    pub fn set_r16(&mut self, index: u8, stack: bool, value: u16)
        requires
            index < 4,
        ensures
            final(self)@ == old(self)@.with_r16(index, stack, value),
    {
        if index == 0 {
            self.regs.set_bc(value);
        } else if index == 1 {
            self.regs.set_de(value);
        } else if index == 2 {
            self.regs.set_hl(value);
        } else if stack {
            self.regs.sp = value;
        } else {
            self.regs.set_af(value);
        }
    }

    pub fn condition(&self, index: u8) -> (out: bool)
        requires
            index < 4,
        ensures
            out == self@.condition(index),
    {
        if index == 0 {
            !self.regs.zero
        } else if index == 1 {
            self.regs.zero
        } else if index == 2 {
            !self.regs.carry
        } else {
            self.regs.carry
        }
    }

    /// Pushes a word.
    pub fn push(&mut self, value: u16)
        requires
            old(self)@.wf(),
        ensures
            final(self)@ == old(self)@.push(value),
            final(self)@.wf(),
    {
        self.regs.sp = self.regs.sp.wrapping_sub(2);
        self.mmu.write_word(self.regs.sp, value);
    }

    /// Pops a word.
    pub fn pop(&mut self) -> (out: u16)
        requires
            old(self)@.wf(),
        ensures
            out == old(self)@.top(),
            final(self)@ == old(self)@.pop(),
            final(self)@.wf(),
    {
        let value: u16 = self.mmu.read_word(self.regs.sp);
        self.regs.sp = self.regs.sp.wrapping_add(2);
        value
    }
}

} // verus!
