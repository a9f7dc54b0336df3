//! A session of the game.

pub mod constants;
pub mod engine;
pub mod home;
pub mod ram;

use vstd::prelude::*;
use crate::cpu::machine::MachineModel;
use crate::cpu::{Cpu, CpuError, CpuModel};
use crate::mbc5::{image_fault, CartridgeError};

verus! {

/// One session: the engine with all that it owns.
pub struct Game {
    cpu: Cpu,
}

impl View for Game {
    type V = CpuModel;

    closed spec fn view(&self) -> CpuModel {
        self.cpu@
    }
}

impl Game {
    /// A session over the image `rom`. The image is checked before
    /// anything runs: it has to be two or more whole banks and carry the
    /// three header bytes of the supported binary.
    pub fn new(rom: Vec<u8>) -> (out: Result<Game, CartridgeError>)
        ensures
            match image_fault(rom@) {
                Some(e) => out == Err::<Game, CartridgeError>(e),
                None => out matches Ok(game) && game@ == CpuModel::initial(rom@) && game@.wf(),
            },
    {
        match Cpu::new(rom) {
            Err(e) => Err(e),
            Ok(cpu) => Ok(Game { cpu }),
        }
    }

    /// Runs one scheduling quantum and returns the cycles it took: a step
    /// of the binary, or nothing while native code has control. On an
    /// error nothing has changed, but that an undefined opcode met right
    /// after a halt leaves the halt ended.
    pub fn do_cycle(&mut self) -> (out: Result<u32, CpuError>)
        requires
            old(self)@.wf(),
        ensures
            match old(self)@.quantum() {
                Ok((next, cycles)) => out == Ok::<u32, CpuError>(cycles) && final(self)@ == next,
                Err(e) => out == Err::<u32, CpuError>(e) && final(self)@ == if e
                    == CpuError::StackImbalance {
                    old(self)@
                } else {
                    old(self)@.with_machine(MachineModel { halted: false, ..old(self)@.machine })
                },
            },
            final(self)@.wf(),
    {
        self.cpu.do_cycle()
    }

    /// The cycles run since the last call of this, for the audio to catch
    /// up with.
    pub fn sync_audio(&mut self) -> (cycles: u64)
        ensures
            cycles == old(self)@.audio_cycles,
            final(self)@ == (CpuModel { audio_cycles: 0, ..old(self)@ }),
    {
        self.cpu.sync_audio()
    }

    /// The engine, for native code to drive.
    pub fn cpu(&mut self) -> (cpu: &mut Cpu)
        ensures
            cpu@ == old(self)@,
            final(self)@ == final(cpu)@,
    {
        &mut self.cpu
    }
}

} // verus!
