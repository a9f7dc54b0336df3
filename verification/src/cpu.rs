//! The CPU engine and the protocol by which native code and the binary's
//! own code hand control to each other.
//!
//! At any moment control is either with native code or with the binary.
//! Native code hands it over with `call`, which gets it back when the
//! routine returns, with `jump`, which does not, or with `ret`. The binary
//! hands it over by returning from a call, or by reaching an address that
//! native code has hooked.

pub mod alu;
pub mod engine;
pub mod instructions;
pub mod machine;
pub mod registers;

use vstd::prelude::*;
use crate::cpu::alu::{set_bit, with_bit, wrap16};
use crate::cpu::instructions::INTERRUPT_FLAGS;
use crate::cpu::machine::{Machine, MachineModel};
use crate::cpu::registers::Registers;
use crate::gpu::layer::Layer;
use crate::gpu::video::all_gray;
use crate::gpu::{Gpu, GpuModel, LayerError, LayerHandle};
use crate::input::KeyboardEvent;
use crate::keypad::{
    joypad_byte, joypad_register, presses_button, Keypad, KeypadModel, KeypadWait,
};
use crate::mbc5::{image_fault, CartridgeError};
use crate::mmu::{region_of, MemoryModel, Mmu, Region};
use crate::serial::{Serial, SerialModel};
use crate::timer::{Timer, TimerModel};

verus! {

/// The address of the keypad register.
pub const JOYPAD: u16 = 0xFF00;

/// The address that `call` pushes as the return address. The binary never
/// runs code there; reaching it means that the called routine has
/// returned.
pub const SYNTHETIC_RETURN: u16 = 0x0001;

/// A call from native code that has not returned yet.
#[derive(Clone, Copy, Debug, PartialEq, Eq, Structural)]
pub struct Frame {
    /// Where the routine returns to.
    pub return_pc: u16,
    /// The stack pointer before the call.
    pub sp: u16,
}

/// Who has control.
#[derive(Clone, Copy, Debug, PartialEq, Eq, Structural)]
pub enum Authority {
    Native,
    /// The binary runs; `return_pc` is where the innermost pending call
    /// of native code returns to, if there is one.
    Binary { return_pc: Option<u16> },
}

/// Why the engine stopped or refused.
#[derive(Clone, Copy, Debug, PartialEq, Eq, Structural)]
pub enum CpuError {
    /// The binary reached an opcode that the processor does not have.
    IllegalOpcode(u8),
    /// A called routine returned with a stack pointer other than the one
    /// it was called with.
    StackImbalance,
    /// Native code asked for a transfer while the binary had control.
    NotNative,
    /// The target of a call or jump lies outside ROM and RAM.
    BadTarget(u16),
    /// The stack pointer does not point into work RAM or high RAM.
    StackFault,
}

/// Whether the binary's code can lie at `addr`.
pub open spec fn is_code_address(addr: u16) -> bool {
    match region_of(addr) {
        Region::Rom | Region::VideoRam | Region::ExternalRam | Region::WorkRam
        | Region::HighRam => true,
        _ => false,
    }
}

/// Whether `addr` lies where the stack can be.
pub open spec fn in_stack_region(addr: u16) -> bool {
    region_of(addr) == Region::WorkRam || region_of(addr) == Region::HighRam
}

/// Whether a word can be pushed with the stack pointer at `sp`.
pub open spec fn stack_has_room(sp: u16) -> bool {
    in_stack_region(wrap16(sp - 1)) && in_stack_region(wrap16(sp - 2))
}

/// Whether a word can be popped with the stack pointer at `sp`.
pub open spec fn stack_has_word(sp: u16) -> bool {
    in_stack_region(sp) && in_stack_region(wrap16(sp + 1))
}

/// The mathematical state of a session's engine.
pub struct CpuModel {
    pub machine: MachineModel,
    pub gpu: GpuModel,
    pub keypad: KeypadModel,
    pub timer: TimerModel,
    pub serial: SerialModel,
    /// Whether native code has control.
    pub native: bool,
    /// The calls from native code that have not returned, innermost last.
    pub frames: Seq<Frame>,
    /// The addresses at which the binary hands control to native code.
    pub hooks: Seq<u16>,
    /// Cycles run since the audio was last synchronised.
    pub audio_cycles: nat,
    /// Cycles run since the session began.
    pub cycles: nat,
}

/// `a + b`, kept to what 64 bits hold.
pub open spec fn saturating_sum(a: nat, b: nat) -> nat {
    if a + b > u64::MAX {
        u64::MAX as nat
    } else {
        a + b
    }
}

impl CpuModel {
    pub open spec fn wf(self) -> bool {
        &&& self.machine.wf()
        &&& self.gpu.wf()
        &&& self.timer.wf()
        &&& self.serial.wf()
        &&& self.audio_cycles <= u64::MAX
        &&& self.cycles <= u64::MAX
    }

    /// The engine of a new session over the image `rom`: the registers as
    /// the binary expects them at its entry point, native code in control,
    /// no call pending, nothing hooked, the keypad queue empty, and every
    /// peripheral at its start.
    pub open spec fn initial(rom: Seq<u8>) -> CpuModel {
        CpuModel {
            machine: MachineModel {
                regs: Registers {
                    a: 0x11,
                    b: 0,
                    c: 0x13,
                    d: 0,
                    e: 0xD8,
                    h: 0x01,
                    l: 0x4D,
                    zero: true,
                    subtract: false,
                    half_carry: true,
                    carry: true,
                    sp: 0xFFFE,
                    pc: 0x0100,
                },
                mem: MemoryModel::initial(rom),
                ime: false,
                halted: false,
            },
            gpu: GpuModel::initial(),
            keypad: KeypadModel { queue: Seq::empty(), connected: true, pressed: 0 },
            timer: TimerModel { divider_clock: 0, counter_clock: 0 },
            serial: SerialModel { countdown: 0 },
            native: true,
            frames: Seq::empty(),
            hooks: Seq::empty(),
            audio_cycles: 0,
            cycles: 0,
        }
    }

    pub open spec fn authority(self) -> Authority {
        if self.native {
            Authority::Native
        } else {
            Authority::Binary {
                return_pc: if self.frames.len() > 0 {
                    Some(self.frames.last().return_pc)
                } else {
                    None
                },
            }
        }
    }

    pub open spec fn with_machine(self, machine: MachineModel) -> CpuModel {
        CpuModel { machine, ..self }
    }

    /// Why a call of `addr` is refused, if it is.
    pub open spec fn call_fault(self, addr: u16) -> Option<CpuError> {
        if !self.native {
            Some(CpuError::NotNative)
        } else if !is_code_address(addr) {
            Some(CpuError::BadTarget(addr))
        } else if !stack_has_room(self.machine.regs.sp) {
            Some(CpuError::StackFault)
        } else {
            None
        }
    }

    /// The state after a call of `addr`: the synthetic return address is
    /// on the stack, the program counter is `addr`, the call is pending
    /// and the binary has control.
    pub open spec fn call(self, addr: u16) -> CpuModel {
        CpuModel {
            machine: self.machine.push(SYNTHETIC_RETURN).with_pc(addr),
            native: false,
            frames: self.frames.push(
                Frame { return_pc: SYNTHETIC_RETURN, sp: self.machine.regs.sp },
            ),
            ..self
        }
    }

    /// Why a jump to `addr` is refused, if it is.
    pub open spec fn jump_fault(self, addr: u16) -> Option<CpuError> {
        if !self.native {
            Some(CpuError::NotNative)
        } else if !is_code_address(addr) {
            Some(CpuError::BadTarget(addr))
        } else {
            None
        }
    }

    /// The state after a jump to `addr`: the binary has control there, and
    /// nothing else has changed.
    pub open spec fn jump(self, addr: u16) -> CpuModel {
        CpuModel { machine: self.machine.with_pc(addr), native: false, ..self }
    }

    /// Why a return of native code to the binary is refused, if it is.
    pub open spec fn ret_fault(self) -> Option<CpuError> {
        if !self.native {
            Some(CpuError::NotNative)
        } else if !stack_has_word(self.machine.regs.sp) {
            Some(CpuError::StackFault)
        } else {
            None
        }
    }

    /// The state after native code has returned to the binary: the program
    /// counter is popped and the binary has control.
    pub open spec fn ret(self) -> CpuModel {
        CpuModel { machine: self.machine.ret(), native: false, ..self }
    }

    /// Whether the binary stands at the return address of the innermost
    /// pending call.
    pub open spec fn at_return(self) -> bool {
        self.frames.len() > 0 && self.machine.regs.pc == self.frames.last().return_pc
    }

    /// The state after the binary has run one instruction of `cycles`
    /// cycles that left the machine as `machine`: the video generator, the
    /// timer and the serial link have seen the cycles, in this order, and
    /// the keypad register shows the buttons that are held down.
    pub open spec fn after_instruction(self, machine: MachineModel, cycles: u32) -> CpuModel {
        let (gpu, m1) = self.gpu.advance(machine.mem, cycles as nat);
        let (timer, m2) = self.timer.advance(m1, cycles as nat);
        let (serial, m3) = self.serial.advance(m2, cycles as nat);
        let m4 = m3.write(JOYPAD, joypad_byte(m3.read(JOYPAD), self.keypad.pressed));
        CpuModel {
            machine: machine.with_mem(m4),
            gpu,
            timer,
            serial,
            audio_cycles: saturating_sum(self.audio_cycles, cycles as nat),
            cycles: saturating_sum(self.cycles, cycles as nat),
            ..self
        }
    }

    /// The state after `event` has been sent to the keypad queue. An event
    /// that presses a button requests the keypad interrupt.
    pub open spec fn keypad_send(self, event: KeyboardEvent) -> CpuModel {
        let sent = CpuModel { keypad: self.keypad.send(event), ..self };
        if self.keypad.connected && presses_button(self.keypad.pressed, event) {
            sent.with_machine(
                sent.machine.with_mem(
                    sent.machine.mem.write(
                        INTERRUPT_FLAGS,
                        with_bit(sent.machine.mem.read(INTERRUPT_FLAGS), 4, true),
                    ),
                ),
            )
        } else {
            sent
        }
    }

    /// One scheduling quantum: the state after it and the cycles it took,
    /// or why the engine stopped.
    ///
    /// With native code in control nothing happens. Where the binary
    /// stands at the return address of a pending call, control goes back to
    /// native code, provided the stack pointer is the one the call was made
    /// with. Where it stands at a hooked address, control goes to native
    /// code. In every other case the machine makes one step.
    pub open spec fn quantum(self) -> Result<(CpuModel, u32), CpuError> {
        if self.native {
            Ok((self, 0u32))
        } else if self.at_return() {
            if self.machine.regs.sp == self.frames.last().sp {
                Ok((CpuModel { native: true, frames: self.frames.drop_last(), ..self }, 0u32))
            } else {
                Err(CpuError::StackImbalance)
            }
        } else if self.hooks.contains(self.machine.regs.pc) {
            Ok((CpuModel { native: true, ..self }, 0u32))
        } else {
            match self.machine.step() {
                Some((machine, cycles)) => Ok((self.after_instruction(machine, cycles), cycles)),
                None => Err(CpuError::IllegalOpcode(self.machine.code(0))),
            }
        }
    }

    /// The state after at most `quanta` scheduling quanta, stopping early
    /// when native code has control, or why the engine stopped.
    pub open spec fn run(self, quanta: nat) -> Result<CpuModel, CpuError>
        decreases quanta,
    {
        if quanta == 0 || self.native {
            Ok(self)
        } else {
            match self.quantum() {
                Ok((next, cycles)) => next.run((quanta - 1) as nat),
                Err(e) => Err(e),
            }
        }
    }

    /// Where the engine stands when it stops with an error within `quanta`
    /// quanta: the state in which the failing quantum began.
    pub open spec fn stopped_at(self, quanta: nat) -> CpuModel
        decreases quanta,
    {
        if quanta == 0 || self.native {
            self
        } else {
            match self.quantum() {
                Ok((next, cycles)) => next.stopped_at((quanta - 1) as nat),
                Err(e) => self,
            }
        }
    }

    /// A word that is pushed onto a stack in RAM is the word on top of it,
    /// and a pop then leaves the stack pointer where it was.
    pub proof fn lemma_push_then_pop(self, value: u16)
        requires
            self.wf(),
            stack_has_room(self.machine.regs.sp),
        ensures
            self.machine.push(value).top() == value,
            self.machine.push(value).pop().regs.sp == self.machine.regs.sp,
    {
        let sp = wrap16(self.machine.regs.sp - 2);
        let low = (value % 256) as u8;
        let high = (value / 256) as u8;
        let m0 = self.machine.mem;
        let m1 = m0.write(sp, low);
        let next = crate::mmu::next_addr(sp);
        assert(next == wrap16(self.machine.regs.sp - 1));
        m0.lemma_write_wf(sp, low);
        m1.lemma_read_after_write(next, high);
        m1.lemma_write_is_local(next, high, sp);
        m0.lemma_read_after_write(sp, low);
    }

    /// While the binary runs, the pending calls change in one way only: the
    /// innermost returns. Where a run ends with native code in control and
    /// fewer calls pending than it began with, it is the innermost call
    /// that has returned, and the stack pointer is the one that this call
    /// was made with.
    pub proof fn lemma_run_until_return(self, quanta: nat)
        requires
            !self.native,
            self.run(quanta) matches Ok(last) && last.native && last.frames.len()
                < self.frames.len(),
        ensures
            self.run(quanta) matches Ok(last) && last.frames == self.frames.drop_last()
                && last.machine.regs.sp == self.frames.last().sp,
        decreases quanta,
    {
        if quanta > 0 {
            match self.quantum() {
                Ok((next, cycles)) => {
                    if next.native {
                        assert(next.run((quanta - 1) as nat) == Ok::<CpuModel, CpuError>(next));
                    } else {
                        next.lemma_run_until_return((quanta - 1) as nat);
                    }
                },
                Err(e) => {},
            }
        }
    }

    /// A call restores the stack pointer: where the binary, run after a
    /// call of `addr`, gives control back with the calls pending that were
    /// pending before the call, the stack pointer is what it was before the
    /// call.
    pub proof fn lemma_call_restores_stack_pointer(self, addr: u16, quanta: nat)
        requires
            self.call_fault(addr).is_none(),
            self.call(addr).run(quanta) matches Ok(last) && last.native && last.frames
                == self.frames,
        ensures
            self.call(addr).run(quanta) matches Ok(last) && last.machine.regs.sp
                == self.machine.regs.sp,
    {
        self.call(addr).lemma_run_until_return(quanta);
    }

    /// A call that is followed by a return restores the stack pointer.
    ///
    /// `later` is any state in which the call of `addr` made from `self` is
    /// still the innermost pending one and the binary stands at the
    /// synthetic return address. If the routine has balanced its stack,
    /// the quantum gives control back to native code, with the stack
    /// pointer that `self` had and the pending calls that `self` had. If it
    /// has not, the quantum fails.
    pub proof fn lemma_call_returns_to_native(self, addr: u16, later: CpuModel)
        requires
            self.call_fault(addr).is_none(),
            !later.native,
            later.frames == self.call(addr).frames,
            later.machine.regs.pc == SYNTHETIC_RETURN,
        ensures
            later.machine.regs.sp == self.machine.regs.sp ==> later.quantum() == Ok::<
                (CpuModel, u32),
                CpuError,
            >((CpuModel { native: true, frames: self.frames, ..later }, 0u32)),
            later.machine.regs.sp != self.machine.regs.sp ==> later.quantum() == Err::<
                (CpuModel, u32),
                CpuError,
            >(CpuError::StackImbalance),
    {
        assert(self.call(addr).frames.drop_last() =~= self.frames);
    }

    /// The return instruction of a routine that has balanced its stack and
    /// left the two bytes of its return address alone leads to the
    /// synthetic return address, with the stack pointer as it was before
    /// the call.
    pub proof fn lemma_balanced_return(self, addr: u16, later: MachineModel)
        requires
            self.wf(),
            self.call_fault(addr).is_none(),
            later.wf(),
            later.regs.sp == self.call(addr).machine.regs.sp,
            later.mem.read_word(later.regs.sp) == self.call(addr).machine.mem.read_word(
                later.regs.sp,
            ),
        ensures
            later.ret().regs.pc == SYNTHETIC_RETURN,
            later.ret().regs.sp == self.machine.regs.sp,
    {
        self.lemma_push_then_pop(SYNTHETIC_RETURN);
    }
}

/// The engine of one session.
pub struct Cpu {
    machine: Machine,
    gpu: Gpu,
    keypad: Keypad,
    timer: Timer,
    serial: Serial,
    native: bool,
    frames: Vec<Frame>,
    hooks: Vec<u16>,
    audio_cycles: u64,
    cycles: u64,
}

impl View for Cpu {
    type V = CpuModel;

    closed spec fn view(&self) -> CpuModel {
        CpuModel {
            machine: self.machine@,
            gpu: self.gpu@,
            keypad: self.keypad@,
            timer: self.timer@,
            serial: self.serial@,
            native: self.native,
            frames: self.frames@,
            hooks: self.hooks@,
            audio_cycles: self.audio_cycles as nat,
            cycles: self.cycles as nat,
        }
    }
}

/// Whether the binary's code can lie at `addr`.
pub fn code_address(addr: u16) -> (out: bool)
    ensures
        out == is_code_address(addr),
{
    addr < 0xE000 || (0xFF80 <= addr && addr < 0xFFFF)
}

/// Whether `addr` lies where the stack can be.
pub fn stack_address(addr: u16) -> (out: bool)
    ensures
        out == in_stack_region(addr),
{
    (0xC000 <= addr && addr < 0xE000) || (0xFF80 <= addr && addr < 0xFFFF)
}

impl Cpu {
    /// The engine of a new session over the image `rom`: the registers as
    /// the binary expects them at its entry point, native code in control,
    /// no call pending, nothing hooked, the keypad queue empty.
    pub fn new(rom: Vec<u8>) -> (out: Result<Cpu, CartridgeError>)
        ensures
            match image_fault(rom@) {
                Some(e) => out == Err::<Cpu, CartridgeError>(e),
                None => out matches Ok(cpu) && cpu@ == CpuModel::initial(rom@) && cpu@.wf(),
            },
    {
        match Mmu::new(rom) {
            Err(e) => Err(e),
            Ok(mmu) => Ok(
                Cpu {
                    machine: Machine { regs: Registers::new(), mmu, ime: false, halted: false },
                    gpu: Gpu::new(),
                    keypad: Keypad::new(),
                    timer: Timer::new(),
                    serial: Serial::new(),
                    native: true,
                    frames: Vec::new(),
                    hooks: Vec::new(),
                    audio_cycles: 0,
                    cycles: 0,
                },
            ),
        }
    }

    /// Who has control.
    pub fn authority(&self) -> (out: Authority)
        ensures
            out == self@.authority(),
    {
        if self.native {
            Authority::Native
        } else if self.frames.len() > 0 {
            Authority::Binary { return_pc: Some(self.frames[self.frames.len() - 1].return_pc) }
        } else {
            Authority::Binary { return_pc: None }
        }
    }

    /// The cycles run since the session began.
    pub fn cycles(&self) -> (out: u64)
        ensures
            out == self@.cycles,
    {
        self.cycles
    }

    /// The registers.
    pub fn registers(&self) -> (out: Registers)
        ensures
            out == self@.machine.regs,
    {
        self.machine.regs
    }

    /// Replaces the registers.
    pub fn set_registers(&mut self, regs: Registers)
        ensures
            final(self)@ == old(self)@.with_machine(old(self)@.machine.with_regs(regs)),
    {
        self.machine.regs = regs;
    }

    /// Reads the byte at `addr`.
    pub fn read_byte(&self, addr: u16) -> (out: u8)
        requires
            self@.wf(),
        ensures
            out == self@.machine.mem.read(addr),
    {
        self.machine.mmu.read_byte(addr)
    }

    /// Writes `value` to `addr`.
    pub fn write_byte(&mut self, addr: u16, value: u8)
        requires
            old(self)@.wf(),
        ensures
            final(self)@ == old(self)@.with_machine(
                old(self)@.machine.with_mem(old(self)@.machine.mem.write(addr, value)),
            ),
            final(self)@.wf(),
    {
        self.machine.mmu.write_byte(addr, value);
    }

    /// Replaces the whole of cartridge RAM by `image` if it has the size
    /// of that RAM, and changes nothing otherwise. No instruction runs.
    pub fn replace_ram(&mut self, image: Vec<u8>) -> (done: bool)
        requires
            old(self)@.wf(),
        ensures
            done == (image@.len() == old(self)@.machine.mem.cart.ram.len()),
            done ==> final(self)@ == old(self)@.with_machine(
                old(self)@.machine.with_mem(old(self)@.machine.mem.with_ram(image@)),
            ),
            !done ==> final(self)@ == old(self)@,
            final(self)@.wf(),
    {
        self.machine.mmu.replace_ram(image)
    }

    /// A copy of the whole of cartridge RAM.
    pub fn dump_ram(&self) -> (out: Vec<u8>)
        ensures
            out@ == self@.machine.mem.cart.ram,
    {
        self.machine.mmu.dump_ram()
    }

    /// Makes the binary hand control to native code when it reaches
    /// `addr`.
    pub fn add_hook(&mut self, addr: u16)
        ensures
            final(self)@ == (CpuModel { hooks: old(self)@.hooks.push(addr), ..old(self)@ }),
    {
        self.hooks.push(addr);
    }

    fn hooked(&self, addr: u16) -> (out: bool)
        ensures
            out == self@.hooks.contains(addr),
    {
        let mut i: usize = 0;
        while i < self.hooks.len()
            invariant
                i <= self.hooks@.len(),
                forall|j: int| 0 <= j < i ==> self.hooks@[j] != addr,
            decreases self.hooks.len() - i,
        {
            if self.hooks[i] == addr {
                return true;
            }
            i += 1;
        }
        false
    }

    /// Pushes a word onto the CPU stack, for routines that take arguments
    /// there. Refused where the stack pointer leaves no room in RAM.
    pub fn stack_push(&mut self, value: u16) -> (out: Result<(), CpuError>)
        requires
            old(self)@.wf(),
        ensures
            out.is_ok() == stack_has_room(old(self)@.machine.regs.sp),
            out.is_ok() ==> final(self)@ == old(self)@.with_machine(
                old(self)@.machine.push(value),
            ),
            out.is_err() ==> out == Err::<(), CpuError>(CpuError::StackFault) && final(self)@
                == old(self)@,
            final(self)@.wf(),
    {
        let sp: u16 = self.machine.regs.sp;
        if stack_address(sp.wrapping_sub(1)) && stack_address(sp.wrapping_sub(2)) {
            self.machine.push(value);
            Ok(())
        } else {
            Err(CpuError::StackFault)
        }
    }

    /// Pops a word from the CPU stack. Refused where the stack pointer
    /// does not point at a word in RAM.
    pub fn stack_pop(&mut self) -> (out: Result<u16, CpuError>)
        requires
            old(self)@.wf(),
        ensures
            out.is_ok() == stack_has_word(old(self)@.machine.regs.sp),
            out matches Ok(value) ==> value == old(self)@.machine.top() && final(self)@ == old(
                self,
            )@.with_machine(old(self)@.machine.pop()),
            out.is_err() ==> out == Err::<u16, CpuError>(CpuError::StackFault) && final(self)@
                == old(self)@,
            final(self)@.wf(),
    {
        let sp: u16 = self.machine.regs.sp;
        if stack_address(sp) && stack_address(sp.wrapping_add(1)) {
            Ok(self.machine.pop())
        } else {
            Err(CpuError::StackFault)
        }
    }

    /// Calls the routine of the binary at `addr`: pushes the synthetic
    /// return address, sets the program counter and hands control to the
    /// binary. Control comes back when the routine returns.
    pub fn call(&mut self, addr: u16) -> (out: Result<(), CpuError>)
        requires
            old(self)@.wf(),
        ensures
            match old(self)@.call_fault(addr) {
                Some(e) => out == Err::<(), CpuError>(e) && final(self)@ == old(self)@,
                None => out.is_ok() && final(self)@ == old(self)@.call(addr),
            },
            final(self)@.wf(),
    {
        let sp: u16 = self.machine.regs.sp;
        if !self.native {
            Err(CpuError::NotNative)
        } else if !code_address(addr) {
            Err(CpuError::BadTarget(addr))
        } else if !(stack_address(sp.wrapping_sub(1)) && stack_address(sp.wrapping_sub(2))) {
            Err(CpuError::StackFault)
        } else {
            self.machine.push(SYNTHETIC_RETURN);
            self.machine.regs.pc = addr;
            self.frames.push(Frame { return_pc: SYNTHETIC_RETURN, sp });
            self.native = false;
            Ok(())
        }
    }

    /// Hands control to the binary at `addr` for good: native code does
    /// not get it back from this transfer.
    pub fn jump(&mut self, addr: u16) -> (out: Result<(), CpuError>)
        ensures
            match old(self)@.jump_fault(addr) {
                Some(e) => out == Err::<(), CpuError>(e) && final(self)@ == old(self)@,
                None => out.is_ok() && final(self)@ == old(self)@.jump(addr),
            },
    {
        if !self.native {
            Err(CpuError::NotNative)
        } else if !code_address(addr) {
            Err(CpuError::BadTarget(addr))
        } else {
            self.machine.regs.pc = addr;
            self.native = false;
            Ok(())
        }
    }

    /// Returns from a native routine to the binary that called it: pops
    /// the program counter and hands control to the binary.
    pub fn ret(&mut self) -> (out: Result<(), CpuError>)
        requires
            old(self)@.wf(),
        ensures
            match old(self)@.ret_fault() {
                Some(e) => out == Err::<(), CpuError>(e) && final(self)@ == old(self)@,
                None => out.is_ok() && final(self)@ == old(self)@.ret(),
            },
            final(self)@.wf(),
    {
        let sp: u16 = self.machine.regs.sp;
        if !self.native {
            Err(CpuError::NotNative)
        } else if !(stack_address(sp) && stack_address(sp.wrapping_add(1))) {
            Err(CpuError::StackFault)
        } else {
            self.machine.ret();
            self.native = false;
            Ok(())
        }
    }

    /// Runs one scheduling quantum and returns the cycles it took. On an
    /// error nothing has changed, but that an undefined opcode met right
    /// after a halt leaves the halt ended.
    pub fn do_cycle(&mut self) -> (out: Result<u32, CpuError>)
        requires
            old(self)@.wf(),
        ensures
            match old(self)@.quantum() {
                Ok((next, cycles)) => out == Ok::<u32, CpuError>(cycles) && final(self)@ == next,
                Err(e) => out == Err::<u32, CpuError>(e) && final(self)@ == if e
                    == CpuError::StackImbalance {
                    old(self)@
                } else {
                    old(self)@.with_machine(MachineModel { halted: false, ..old(self)@.machine })
                },
            },
            final(self)@.wf(),
    {
        if self.native {
            return Ok(0);
        }
        let pc: u16 = self.machine.regs.pc;
        let depth: usize = self.frames.len();
        if depth > 0 && pc == self.frames[depth - 1].return_pc {
            if self.machine.regs.sp == self.frames[depth - 1].sp {
                self.frames.pop();
                self.native = true;
                assert(self@.frames =~= old(self)@.frames.drop_last());
                return Ok(0);
            } else {
                return Err(CpuError::StackImbalance);
            }
        }
        if self.hooked(pc) {
            self.native = true;
            return Ok(0);
        }
        let op: u8 = self.machine.code(0);
        match self.machine.step() {
            None => Err(CpuError::IllegalOpcode(op)),
            Some(cycles) => {
                self.gpu.advance(&mut self.machine.mmu, cycles);
                self.timer.advance(&mut self.machine.mmu, cycles);
                self.serial.advance(&mut self.machine.mmu, cycles);
                let select: u8 = self.machine.mmu.read_byte(JOYPAD);
                self.machine.mmu.write_byte(JOYPAD, joypad_register(select, self.keypad.pressed()));
                self.audio_cycles = self.audio_cycles.saturating_add(cycles as u64);
                self.cycles = self.cycles.saturating_add(cycles as u64);
                Ok(cycles)
            },
        }
    }

    /// Runs scheduling quanta until native code has control, `quanta` of
    /// them at most; returns whether native code has control then. With an
    /// error the engine stands where the failing quantum left it.
    pub fn run(&mut self, quanta: u32) -> (out: Result<bool, CpuError>)
        requires
            old(self)@.wf(),
        ensures
            match old(self)@.run(quanta as nat) {
                Ok(last) => out == Ok::<bool, CpuError>(last.native) && final(self)@ == last,
                Err(e) => out == Err::<bool, CpuError>(e) && final(self)@ == if e
                    == CpuError::StackImbalance {
                    old(self)@.stopped_at(quanta as nat)
                } else {
                    old(self)@.stopped_at(quanta as nat).with_machine(
                        MachineModel {
                            halted: false,
                            ..old(self)@.stopped_at(quanta as nat).machine
                        },
                    )
                },
            },
            final(self)@.wf(),
    {
        let mut left: u32 = quanta;
        while left > 0 && !self.native
            invariant
                self@.wf(),
                self@.run(left as nat) == old(self)@.run(quanta as nat),
                self@.stopped_at(left as nat) == old(self)@.stopped_at(quanta as nat),
            decreases left,
        {
            match self.do_cycle() {
                Ok(_) => {},
                Err(e) => {
                    return Err(e);
                },
            }
            left -= 1;
        }
        Ok(self.native)
    }

    /// The cycles run since the last call of this, for the audio to catch
    /// up with. Registers and memory are not touched.
    pub fn sync_audio(&mut self) -> (cycles: u64)
        ensures
            cycles == old(self)@.audio_cycles,
            final(self)@ == (CpuModel { audio_cycles: 0, ..old(self)@ }),
    {
        let cycles: u64 = self.audio_cycles;
        self.audio_cycles = 0;
        cycles
    }

    /// Appends an event to the keypad queue; returns whether it was taken.
    /// An event that presses a button requests the keypad interrupt.
    pub fn keypad_send(&mut self, event: KeyboardEvent) -> (taken: bool)
        requires
            old(self)@.wf(),
        ensures
            taken == old(self)@.keypad.connected,
            final(self)@ == old(self)@.keypad_send(event),
            final(self)@.wf(),
    {
        let before: u8 = self.keypad.pressed();
        let taken: bool = self.keypad.send(event);
        if taken && self.keypad.pressed() != before {
            match event {
                KeyboardEvent::Down { key, shift } => {
                    proof {
                        crate::keypad::lemma_press_changes(before, event);
                    }
                    let requested: u8 = self.machine.mmu.read_byte(INTERRUPT_FLAGS);
                    self.machine.mmu.write_byte(INTERRUPT_FLAGS, set_bit(requested, 4, true));
                },
                KeyboardEvent::Up { key, shift } => {},
            }
        } else {
            proof {
                crate::keypad::lemma_press_changes(before, event);
            }
        }
        taken
    }

    /// Marks the producer of key events as gone.
    pub fn keypad_disconnect(&mut self)
        ensures
            final(self)@ == (CpuModel { keypad: old(self)@.keypad.disconnect(), ..old(self)@ }),
    {
        self.keypad.disconnect();
    }

    /// Takes the oldest event from the keypad queue.
    pub fn keypad_wait(&mut self) -> (out: KeypadWait)
        ensures
            out == old(self)@.keypad.wait_result(),
            final(self)@ == (CpuModel { keypad: old(self)@.keypad.wait(), ..old(self)@ }),
    {
        self.keypad.keypad_wait()
    }

    /// Pushes a new overlay layer.
    pub fn gpu_push_layer(&mut self) -> (handle: LayerHandle)
        requires
            old(self)@.wf(),
        ensures
            handle.index == old(self)@.gpu.layers.len(),
            final(self)@ == (CpuModel { gpu: old(self)@.gpu.push_layer(), ..old(self)@ }),
            final(self)@.wf(),
    {
        self.gpu.push_layer()
    }

    /// The layer that `handle` names, to draw into.
    pub fn gpu_mut_layer(&mut self, handle: LayerHandle) -> (layer: &mut Layer)
        requires
            old(self)@.wf(),
            handle.index < old(self)@.gpu.layers.len(),
        ensures
            layer@ == old(self)@.gpu.layers[handle.index as int],
            layer@.wf(),
            final(self)@ == (CpuModel {
                gpu: old(self)@.gpu.with_layer(handle.index as int, final(layer)@),
                ..old(self)@
            }),
    {
        self.gpu.mut_layer(handle)
    }

    /// The number of overlay layers.
    pub fn gpu_layer_count(&self) -> (out: usize)
        ensures
            out == self@.gpu.layers.len(),
    {
        self.gpu.layer_count()
    }

    /// The layer that `handle` names, to look at.
    pub fn gpu_layer(&self, handle: LayerHandle) -> (layer: &Layer)
        requires
            handle.index < self@.gpu.layers.len(),
        ensures
            layer@ == self@.gpu.layers[handle.index as int],
    {
        self.gpu.layer(handle)
    }

    /// A copy of the frame of the emulated video, without the layers.
    pub fn gpu_frame(&self) -> (out: Vec<u8>)
        ensures
            out@ == self@.gpu.frame,
    {
        self.gpu.frame()
    }

    /// Retires the topmost overlay layer, which `handle` must name.
    pub fn gpu_pop_layer(&mut self, handle: LayerHandle) -> (out: Result<(), LayerError>)
        requires
            old(self)@.wf(),
        ensures
            out.is_ok() == (handle.index + 1 == old(self)@.gpu.layers.len()),
            out.is_ok() ==> final(self)@ == (CpuModel {
                gpu: old(self)@.gpu.pop_layer(),
                ..old(self)@
            }),
            out.is_err() ==> out == Err::<(), LayerError>(LayerError::NotOnTop) && final(self)@
                == old(self)@,
            final(self)@.wf(),
    {
        self.gpu.pop_layer(handle)
    }

    /// Composites the frame to present.
    pub fn gpu_update_screen(&self) -> (out: Vec<u8>)
        requires
            self@.wf(),
        ensures
            out@ == self@.gpu.composite(self@.machine.mem),
            out@.len() == 69120,
            all_gray(out@),
    {
        self.gpu.update_screen(&self.machine.mmu)
    }

    /// Whether the video generator completed a frame since the last call
    /// of this.
    pub fn take_frame_ready(&mut self) -> (out: bool)
        ensures
            out == old(self)@.gpu.frame_ready,
            final(self)@ == (CpuModel {
                gpu: GpuModel { frame_ready: false, ..old(self)@.gpu },
                ..old(self)@
            }),
    {
        self.gpu.take_frame_ready()
    }
}

} // verus!
