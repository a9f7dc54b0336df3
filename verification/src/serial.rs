//! The serial link. No partner is attached: a transfer that the binary
//! starts with the internal clock completes after its eight bits with all
//! ones received, and requests the serial interrupt.

use vstd::prelude::*;
use crate::cpu::alu::{bit_is_set, set_bit, test_bit, with_bit};
use crate::cpu::instructions::INTERRUPT_FLAGS;
use crate::mmu::{MemoryModel, Mmu};

verus! {

pub const SB: u16 = 0xFF01;

pub const SC: u16 = 0xFF02;

/// Cycles that a transfer of eight bits takes.
pub const TRANSFER_CYCLES: u32 = 4096;

/// Cycles left of the transfer under way; 0 when none is.
pub struct SerialModel {
    pub countdown: nat,
}

/// Whether the control register asks for a transfer with the internal
/// clock.
pub open spec fn transfer_requested(control: u8) -> bool {
    test_bit(control, 7) && test_bit(control, 0)
}

impl SerialModel {
    pub open spec fn wf(self) -> bool {
        self.countdown <= 4096
    }

    /// Cycles left once a transfer that is asked for has been taken up.
    pub open spec fn remaining(self, m: MemoryModel) -> nat {
        if self.countdown > 0 {
            self.countdown
        } else if transfer_requested(m.read(SC)) {
            4096
        } else {
            0
        }
    }

    /// The link and the memory after `ticks` more cycles.
    pub open spec fn advance(self, m: MemoryModel, ticks: nat) -> (SerialModel, MemoryModel) {
        let left = self.remaining(m);
        if left == 0 {
            (self, m)
        } else if ticks >= left {
            let received = m.write(SB, 0xFF);
            let stopped = received.write(SC, with_bit(received.read(SC), 7, false));
            (
                SerialModel { countdown: 0 },
                stopped.write(INTERRUPT_FLAGS, with_bit(stopped.read(INTERRUPT_FLAGS), 3, true)),
            )
        } else {
            (SerialModel { countdown: (left - ticks) as nat }, m)
        }
    }
}

/// The serial link.
pub struct Serial {
    countdown: u32,
}

impl View for Serial {
    type V = SerialModel;

    closed spec fn view(&self) -> SerialModel {
        SerialModel { countdown: self.countdown as nat }
    }
}

impl Serial {
    pub fn new() -> (out: Serial)
        ensures
            out@ == (SerialModel { countdown: 0 }),
            out@.wf(),
    {
        Serial { countdown: 0 }
    }

    /// Lets `ticks` cycles pass.
    pub fn advance(&mut self, mmu: &mut Mmu, ticks: u32)
        requires
            old(self)@.wf(),
            old(mmu)@.wf(),
        ensures
            (final(self)@, final(mmu)@) == old(self)@.advance(old(mmu)@, ticks as nat),
            final(self)@.wf(),
            final(mmu)@.wf(),
    {
        let control: u8 = mmu.read_byte(SC);
        let left: u32 = if self.countdown > 0 {
            self.countdown
        } else if bit_is_set(control, 7) && bit_is_set(control, 0) {
            TRANSFER_CYCLES
        } else {
            0
        };
        if left == 0 {
        } else if ticks >= left {
            mmu.write_byte(SB, 0xFF);
            let control: u8 = mmu.read_byte(SC);
            mmu.write_byte(SC, set_bit(control, 7, false));
            let requested: u8 = mmu.read_byte(INTERRUPT_FLAGS);
            mmu.write_byte(INTERRUPT_FLAGS, set_bit(requested, 3, true));
            self.countdown = 0;
        } else {
            self.countdown = left - ticks;
        }
    }
}

} // verus!
