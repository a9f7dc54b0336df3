//! The timer: a divider that counts up every 256 cycles and a counter
//! that counts at a chosen rate and requests an interrupt when it
//! overflows.

use vstd::prelude::*;
use crate::cpu::alu::{bit_is_set, set_bit, test_bit, with_bit};
use crate::cpu::instructions::INTERRUPT_FLAGS;
use crate::mmu::{MemoryModel, Mmu};

verus! {

pub const DIV: u16 = 0xFF04;

pub const TIMA: u16 = 0xFF05;

pub const TMA: u16 = 0xFF06;

pub const TAC: u16 = 0xFF07;

/// Cycles that the timer has seen and not yet counted.
pub struct TimerModel {
    pub divider_clock: nat,
    pub counter_clock: nat,
}

/// Cycles between two steps of the counter, as the two low bits of the
/// control register select them.
pub open spec fn period(control: u8) -> nat {
    if control % 4 == 0 {
        1024
    } else if control % 4 == 1 {
        16
    } else if control % 4 == 2 {
        64
    } else {
        256
    }
}

/// The memory after one step of the counter: it goes up by one, and from
/// 255 it is reloaded from the modulo register and the timer interrupt is
/// requested.
pub open spec fn count_once(m: MemoryModel) -> MemoryModel {
    let counter = m.read(TIMA);
    if counter == 255 {
        let reloaded = m.write(TIMA, m.read(TMA));
        reloaded.write(INTERRUPT_FLAGS, with_bit(reloaded.read(INTERRUPT_FLAGS), 2, true))
    } else {
        m.write(TIMA, (counter + 1) as u8)
    }
}

/// The memory after `n` steps of the counter.
pub open spec fn count(m: MemoryModel, n: nat) -> MemoryModel
    decreases n,
{
    if n == 0 {
        m
    } else {
        count(count_once(m), (n - 1) as nat)
    }
}

impl TimerModel {
    pub open spec fn wf(self) -> bool {
        self.divider_clock < 256 && self.counter_clock < 1024
    }

    /// The timer and the memory after `ticks` more cycles.
    pub open spec fn advance(self, m: MemoryModel, ticks: nat) -> (TimerModel, MemoryModel) {
        let divided = self.divider_clock + ticks;
        let m1 = m.write(DIV, ((m.read(DIV) + divided / 256) % 256) as u8);
        let control = m1.read(TAC);
        if test_bit(control, 2) {
            let counted = self.counter_clock + ticks;
            (
                TimerModel {
                    divider_clock: divided % 256,
                    counter_clock: counted % period(control),
                },
                count(m1, counted / period(control)),
            )
        } else {
            (TimerModel { divider_clock: divided % 256, ..self }, m1)
        }
    }
}

/// The timer.
pub struct Timer {
    divider_clock: u32,
    counter_clock: u32,
}

impl View for Timer {
    type V = TimerModel;

    closed spec fn view(&self) -> TimerModel {
        TimerModel {
            divider_clock: self.divider_clock as nat,
            counter_clock: self.counter_clock as nat,
        }
    }
}

/// One step of the counter.
pub fn count_step(mmu: &mut Mmu)
    requires
        old(mmu)@.wf(),
    ensures
        final(mmu)@ == count_once(old(mmu)@),
        final(mmu)@.wf(),
{
    let counter: u8 = mmu.read_byte(TIMA);
    if counter == 255 {
        let modulo: u8 = mmu.read_byte(TMA);
        mmu.write_byte(TIMA, modulo);
        let requested: u8 = mmu.read_byte(INTERRUPT_FLAGS);
        mmu.write_byte(INTERRUPT_FLAGS, set_bit(requested, 2, true));
    } else {
        mmu.write_byte(TIMA, counter + 1);
    }
}

impl Timer {
    pub fn new() -> (out: Timer)
        ensures
            out@ == (TimerModel { divider_clock: 0, counter_clock: 0 }),
            out@.wf(),
    {
        Timer { divider_clock: 0, counter_clock: 0 }
    }

    /// Lets `ticks` cycles pass.
    pub fn advance(&mut self, mmu: &mut Mmu, ticks: u32)
        requires
            old(self)@.wf(),
            old(mmu)@.wf(),
            ticks <= 456,
        ensures
            (final(self)@, final(mmu)@) == old(self)@.advance(old(mmu)@, ticks as nat),
            final(self)@.wf(),
            final(mmu)@.wf(),
    {
        let divided: u32 = self.divider_clock + ticks;
        let divider: u8 = mmu.read_byte(DIV);
        mmu.write_byte(DIV, ((divider as u32 + divided / 256) % 256) as u8);
        self.divider_clock = divided % 256;
        let control: u8 = mmu.read_byte(TAC);
        if bit_is_set(control, 2) {
            let every: u32 = if control % 4 == 0 {
                1024
            } else if control % 4 == 1 {
                16
            } else if control % 4 == 2 {
                64
            } else {
                256
            };
            let counted: u32 = self.counter_clock + ticks;
            self.counter_clock = counted % every;
            let steps: u32 = counted / every;
            let ghost start = mmu@;
            let mut done: u32 = 0;
            while done < steps
                invariant
                    mmu@.wf(),
                    done <= steps,
                    count(mmu@, (steps - done) as nat) == count(start, steps as nat),
                decreases steps - done,
            {
                count_step(mmu);
                done += 1;
            }
        }
    }
}

} // verus!
