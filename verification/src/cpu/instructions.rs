//! What each instruction does, and the functions that do it.
//!
//! An opcode is read by its fields: the block `op / 64`, and within it
//! `y = op / 8 % 8` and `z = op % 8`, with `p = y / 2` and `q = y % 2`.

use vstd::prelude::*;
use crate::cpu::alu::{
    add16_spec, add_offset_spec, alu_spec, daa_spec, dec8_spec, inc8_spec, shift_spec, signed,
    test_bit, with_bit, wrap16, AluOut, Flags,
};
use crate::cpu::machine::MachineModel;

verus! {

/// The address of the interrupt-request register.
pub const INTERRUPT_FLAGS: u16 = 0xFF0F;

/// The address of the interrupt-enable register.
pub const INTERRUPT_ENABLE: u16 = 0xFFFF;

pub open spec fn field_y(op: u8) -> u8 {
    (op / 8) % 8
}

pub open spec fn field_z(op: u8) -> u8 {
    op % 8
}

/// Cycles of an instruction that takes `plain` on a register and `indirect`
/// on the byte that HL points to.
pub open spec fn cost(index: u8, plain: u32, indirect: u32) -> u32 {
    if index == 6 { indirect } else { plain }
}

impl MachineModel {
    /// Relative jumps and the three that stand alone: no operation, store
    /// of the stack pointer, stop.
    pub open spec fn control0(self, y: u8) -> (MachineModel, u32)
        recommends
            y < 8,
    {
        if y == 0 {
            (self.advance(1), 4)
        } else if y == 1 {
            (
                self.advance(3).with_mem(self.mem.write_word(self.code_word(1), self.regs.sp)),
                20,
            )
        } else if y == 2 {
            (self.advance(2), 4)
        } else if y == 3 || self.condition((y - 4) as u8) {
            (self.advance(2 + signed(self.code(1))), 12)
        } else {
            (self.advance(2), 8)
        }
    }

    /// Load of a register pair from the code, and addition to HL.
    pub open spec fn pair_load_add(self, y: u8) -> (MachineModel, u32)
        recommends
            y < 8,
    {
        if y % 2 == 0 {
            (self.advance(3).with_r16(y / 2, true, self.code_word(1)), 12)
        } else {
            let r = add16_spec(self.regs.spec_hl(), self.r16(y / 2, true), self.regs.zero);
            (self.advance(1).with_r16(2, true, r.value).with_flags(r.flags), 8)
        }
    }

    /// Transfers between A and the byte that BC, DE or HL points to; with
    /// HL, the pair is stepped up (`p == 2`) or down (`p == 3`) afterwards.
    pub open spec fn indirect_a(self, y: u8) -> (MachineModel, u32)
        recommends
            y < 8,
    {
        let p = y / 2;
        let hl = self.regs.spec_hl();
        let addr = if p == 0 {
            self.regs.spec_bc()
        } else if p == 1 {
            self.regs.spec_de()
        } else {
            hl
        };
        let moved = if y % 2 == 0 {
            self.with_mem(self.mem.write(addr, self.regs.a))
        } else {
            self.with_a(self.mem.read(addr))
        };
        let stepped = if p == 2 {
            moved.with_r16(2, true, wrap16(hl + 1))
        } else if p == 3 {
            moved.with_r16(2, true, wrap16(hl - 1))
        } else {
            moved
        };
        (stepped.advance(1), 8)
    }

    /// Increment and decrement of a register pair.
    pub open spec fn pair_step(self, y: u8) -> (MachineModel, u32)
        recommends
            y < 8,
    {
        let v = self.r16(y / 2, true);
        (self.advance(1).with_r16(y / 2, true, wrap16(if y % 2 == 0 { v + 1 } else { v - 1 })), 8)
    }

    /// Increment (`up`) and decrement of an eight-bit operand.
    pub open spec fn byte_step(self, y: u8, up: bool) -> (MachineModel, u32)
        recommends
            y < 8,
    {
        let r = if up {
            inc8_spec(self.r8(y), self.regs.carry)
        } else {
            dec8_spec(self.r8(y), self.regs.carry)
        };
        (self.with_r8(y, r.value).with_flags(r.flags).advance(1), cost(y, 4, 12))
    }

    /// Load of an eight-bit operand from the code.
    pub open spec fn byte_load(self, y: u8) -> (MachineModel, u32)
        recommends
            y < 8,
    {
        (self.with_r8(y, self.code(1)).advance(2), cost(y, 8, 12))
    }

    /// The eight operations on A and the flags alone: four rotations that
    /// clear the zero flag, decimal adjust, complement, set carry,
    /// complement carry.
    pub open spec fn accumulator(self, y: u8) -> (MachineModel, u32)
        recommends
            y < 8,
    {
        let f = self.flags();
        let r: AluOut = if y < 4 {
            let s = shift_spec(y, self.regs.a, f.carry);
            AluOut { value: s.value, flags: Flags { zero: false, ..s.flags } }
        } else if y == 4 {
            daa_spec(self.regs.a, f)
        } else if y == 5 {
            AluOut {
                value: (255 - self.regs.a) as u8,
                flags: Flags { subtract: true, half_carry: true, ..f },
            }
        } else {
            AluOut {
                value: self.regs.a,
                flags: Flags {
                    subtract: false,
                    half_carry: false,
                    carry: y == 6 || !f.carry,
                    ..f
                },
            }
        };
        (self.with_a(r.value).with_flags(r.flags).advance(1), 4)
    }

    /// The first block of opcodes, 0x00 to 0x3F.
    pub open spec fn block0(self, op: u8) -> (MachineModel, u32)
        recommends
            op < 0x40,
    {
        let y = field_y(op);
        let z = field_z(op);
        if z == 0 {
            self.control0(y)
        } else if z == 1 {
            self.pair_load_add(y)
        } else if z == 2 {
            self.indirect_a(y)
        } else if z == 3 {
            self.pair_step(y)
        } else if z == 4 {
            self.byte_step(y, true)
        } else if z == 5 {
            self.byte_step(y, false)
        } else if z == 6 {
            self.byte_load(y)
        } else {
            self.accumulator(y)
        }
    }

    /// The second block, 0x40 to 0x7F: loads between eight-bit operands,
    /// and halt where the load of the indirect byte onto itself would be.
    pub open spec fn block1(self, op: u8) -> (MachineModel, u32)
        recommends
            0x40 <= op < 0x80,
    {
        let y = field_y(op);
        let z = field_z(op);
        if op == 0x76 {
            (MachineModel { halted: true, ..self.advance(1) }, 4)
        } else {
            (self.with_r8(y, self.r8(z)).advance(1), if y == 6 || z == 6 { 8 } else { 4 })
        }
    }

    /// The third block, 0x80 to 0xBF: arithmetic on A and an operand.
    pub open spec fn block2(self, op: u8) -> (MachineModel, u32)
        recommends
            0x80 <= op < 0xC0,
    {
        let r = alu_spec(field_y(op), self.regs.a, self.r8(field_z(op)), self.regs.carry);
        (self.with_a(r.value).with_flags(r.flags).advance(1), cost(field_z(op), 4, 8))
    }

    /// The machine after a call of `target` from an instruction of
    /// `length` bytes.
    pub open spec fn call_to(self, target: u16, length: int) -> MachineModel {
        self.push(wrap16(self.regs.pc + length)).with_pc(target)
    }

    /// The machine after a return: the program counter is popped.
    pub open spec fn ret(self) -> MachineModel {
        self.pop().with_pc(self.top())
    }

    /// Conditional return, and the four instructions for the high page and
    /// for the stack pointer with an offset.
    pub open spec fn fourth_z0(self, y: u8) -> (MachineModel, u32)
        recommends
            y < 8,
    {
        let n = self.code(1);
        if y < 4 {
            if self.condition(y) {
                (self.ret(), 20)
            } else {
                (self.advance(1), 8)
            }
        } else if y == 4 {
            (self.advance(2).with_mem(self.mem.write(wrap16(0xFF00 + n), self.regs.a)), 12)
        } else if y == 5 {
            let r = add_offset_spec(self.regs.sp, n);
            (self.advance(2).with_sp(r.value).with_flags(r.flags), 16)
        } else if y == 6 {
            (self.advance(2).with_a(self.mem.read(wrap16(0xFF00 + n))), 12)
        } else {
            let r = add_offset_spec(self.regs.sp, n);
            (self.advance(2).with_r16(2, true, r.value).with_flags(r.flags), 12)
        }
    }

    /// Pop of a register pair, return, return with interrupts enabled,
    /// jump to HL, load of the stack pointer from HL.
    pub open spec fn fourth_z1(self, y: u8) -> (MachineModel, u32)
        recommends
            y < 8,
    {
        if y % 2 == 0 {
            (self.pop().with_r16(y / 2, false, self.top()).advance(1), 12)
        } else if y == 1 {
            (self.ret(), 16)
        } else if y == 3 {
            (MachineModel { ime: true, ..self.ret() }, 16)
        } else if y == 5 {
            (self.with_pc(self.regs.spec_hl()), 4)
        } else {
            (self.advance(1).with_sp(self.regs.spec_hl()), 8)
        }
    }

    /// Conditional jump, and transfers between A and the byte at an
    /// address given by C in the high page or by the code.
    pub open spec fn fourth_z2(self, y: u8) -> (MachineModel, u32)
        recommends
            y < 8,
    {
        let nn = self.code_word(1);
        let high = wrap16(0xFF00 + self.regs.c);
        if y < 4 {
            if self.condition(y) {
                (self.with_pc(nn), 16)
            } else {
                (self.advance(3), 12)
            }
        } else if y == 4 {
            (self.advance(1).with_mem(self.mem.write(high, self.regs.a)), 8)
        } else if y == 5 {
            (self.advance(3).with_mem(self.mem.write(nn, self.regs.a)), 16)
        } else if y == 6 {
            (self.advance(1).with_a(self.mem.read(high)), 8)
        } else {
            (self.advance(3).with_a(self.mem.read(nn)), 16)
        }
    }

    /// The instructions behind the prefix 0xCB: rotations and shifts, bit
    /// test, bit reset, bit set, each on an eight-bit operand.
    pub open spec fn prefixed(self) -> (MachineModel, u32) {
        let op = self.code(1);
        let y = field_y(op);
        let z = field_z(op);
        let v = self.r8(z);
        if op < 0x40 {
            let r = shift_spec(y, v, self.regs.carry);
            (self.with_r8(z, r.value).with_flags(r.flags).advance(2), cost(z, 8, 16))
        } else if op < 0x80 {
            (
                self.with_flags(
                    Flags {
                        zero: !test_bit(v, y),
                        subtract: false,
                        half_carry: true,
                        carry: self.regs.carry,
                    },
                ).advance(2),
                cost(z, 8, 12),
            )
        } else {
            (self.with_r8(z, with_bit(v, y, op >= 0xC0)).advance(2), cost(z, 8, 16))
        }
    }

    /// Whether `op`, in the fourth block, is an opcode that the processor
    /// does not have.
    pub open spec fn undefined(op: u8) -> bool {
        op == 0xD3 || op == 0xDB || op == 0xDD || op == 0xE3 || op == 0xE4 || op == 0xEB
            || op == 0xEC || op == 0xED || op == 0xF4 || op == 0xFC || op == 0xFD
    }

    /// The fourth block, 0xC0 to 0xFF, where `op` is defined.
    pub open spec fn block3(self, op: u8) -> (MachineModel, u32)
        recommends
            op >= 0xC0,
            !Self::undefined(op),
    {
        let y = field_y(op);
        let z = field_z(op);
        let nn = self.code_word(1);
        if z == 0 {
            self.fourth_z0(y)
        } else if z == 1 {
            self.fourth_z1(y)
        } else if z == 2 {
            self.fourth_z2(y)
        } else if z == 3 {
            if y == 0 {
                (self.with_pc(nn), 16)
            } else if y == 1 {
                self.prefixed()
            } else {
                (MachineModel { ime: y == 7, ..self.advance(1) }, 4)
            }
        } else if z == 4 {
            if self.condition(y) {
                (self.call_to(nn, 3), 24)
            } else {
                (self.advance(3), 12)
            }
        } else if z == 5 {
            if y % 2 == 0 {
                (self.advance(1).push(self.r16(y / 2, false)), 16)
            } else {
                (self.call_to(nn, 3), 24)
            }
        } else if z == 6 {
            let r = alu_spec(y, self.regs.a, self.code(1), self.regs.carry);
            (self.with_a(r.value).with_flags(r.flags).advance(2), 8)
        } else {
            (self.call_to((y * 8) as u16, 1), 16)
        }
    }

    /// The machine after the instruction at the program counter, with the
    /// cycles it takes; `None` where the opcode there is undefined.
    pub open spec fn execute(self) -> Option<(MachineModel, u32)> {
        let op = self.code(0);
        if op < 0x40 {
            Some(self.block0(op))
        } else if op < 0x80 {
            Some(self.block1(op))
        } else if op < 0xC0 {
            Some(self.block2(op))
        } else if Self::undefined(op) {
            None
        } else {
            Some(self.block3(op))
        }
    }

    /// The number of the interrupt to serve: the lowest of the five lines
    /// that is both requested and enabled.
    pub open spec fn interrupt_line(self) -> Option<u8> {
        let requested = self.mem.read(INTERRUPT_FLAGS);
        let enabled = self.mem.read(INTERRUPT_ENABLE);
        if test_bit(requested, 0) && test_bit(enabled, 0) {
            Some(0u8)
        } else if test_bit(requested, 1) && test_bit(enabled, 1) {
            Some(1u8)
        } else if test_bit(requested, 2) && test_bit(enabled, 2) {
            Some(2u8)
        } else if test_bit(requested, 3) && test_bit(enabled, 3) {
            Some(3u8)
        } else if test_bit(requested, 4) && test_bit(enabled, 4) {
            Some(4u8)
        } else {
            None
        }
    }

    /// The machine after interrupt `line` has been taken: the request is
    /// acknowledged, the master flag cleared, and the handler at
    /// `0x40 + 8 * line` called.
    pub open spec fn dispatch(self, line: u8) -> MachineModel
        recommends
            line < 5,
    {
        let requested = self.mem.read(INTERRUPT_FLAGS);
        let acknowledged = self.mem.write(INTERRUPT_FLAGS, with_bit(requested, line, false));
        MachineModel { ime: false, halted: false, ..self }.with_mem(acknowledged).call_to(
            (0x40 + 8 * line) as u16,
            0,
        )
    }

    /// One step of the machine. A pending interrupt is taken if the master
    /// flag is set, and otherwise only ends a halt; a halted machine idles
    /// for four cycles; in every other case the next instruction runs.
    pub open spec fn step(self) -> Option<(MachineModel, u32)> {
        match self.interrupt_line() {
            Some(line) => if self.ime {
                Some((self.dispatch(line), 20u32))
            } else {
                MachineModel { halted: false, ..self }.execute()
            },
            None => if self.halted {
                Some((self, 4u32))
            } else {
                self.execute()
            },
        }
    }
}

} // verus!
