//! The keypad queue: key events in the order in which they were produced.

use std::collections::VecDeque;
use vstd::prelude::*;
use crate::cpu::alu::{bit_is_set, set_bit, test_bit, weight, with_bit};
use crate::input::{KeyboardEvent, KeyboardKey};

verus! {

/// The eight buttons of the console.
#[derive(Clone, Copy, Debug, PartialEq, Eq, Structural)]
pub enum KeypadKey {
    Right,
    Left,
    Up,
    Down,
    A,
    B,
    Select,
    Start,
}

/// The button that a key of the host stands for, if any.
pub open spec fn keypad_key_of(key: KeyboardKey) -> Option<KeypadKey> {
    match key {
        KeyboardKey::Right => Some(KeypadKey::Right),
        KeyboardKey::Left => Some(KeypadKey::Left),
        KeyboardKey::Up => Some(KeypadKey::Up),
        KeyboardKey::Down => Some(KeypadKey::Down),
        KeyboardKey::A => Some(KeypadKey::A),
        KeyboardKey::B => Some(KeypadKey::B),
        KeyboardKey::Backspace => Some(KeypadKey::Select),
        KeyboardKey::Return => Some(KeypadKey::Start),
        _ => None,
    }
}

/// The button that a key of the host stands for: the arrows are the
/// directions, A and B are themselves, backspace is select and return is
/// start.
pub fn keypad_key(key: KeyboardKey) -> (out: Option<KeypadKey>)
    ensures
        out == keypad_key_of(key),
{
    match key {
        KeyboardKey::Right => Some(KeypadKey::Right),
        KeyboardKey::Left => Some(KeypadKey::Left),
        KeyboardKey::Up => Some(KeypadKey::Up),
        KeyboardKey::Down => Some(KeypadKey::Down),
        KeyboardKey::A => Some(KeypadKey::A),
        KeyboardKey::B => Some(KeypadKey::B),
        KeyboardKey::Backspace => Some(KeypadKey::Select),
        KeyboardKey::Return => Some(KeypadKey::Start),
        _ => None,
    }
}

/// The bit that stands for a button in the set of pressed buttons: the
/// four directions in the low half, the four others in the high half.
pub open spec fn button_bit(key: KeypadKey) -> u8 {
    match key {
        KeypadKey::Right => 0,
        KeypadKey::Left => 1,
        KeypadKey::Up => 2,
        KeypadKey::Down => 3,
        KeypadKey::A => 4,
        KeypadKey::B => 5,
        KeypadKey::Select => 6,
        KeypadKey::Start => 7,
    }
}

/// Whether line `line` of the keypad register is pulled low: it is where
/// a row is selected, by a clear bit 4 for the directions and a clear bit
/// 5 for the other buttons, and the button of that row on this line is
/// pressed.
pub open spec fn line_low(select: u8, pressed: u8, line: u8) -> bool
    recommends
        line < 4,
{
    (!test_bit(select, 4) && test_bit(pressed, line)) || (!test_bit(select, 5) && test_bit(
        pressed,
        (line + 4) as u8,
    ))
}

/// What the keypad register shows: the two select bits as they were
/// written, the two bits above them set, and each of the four lines low
/// or high.
pub open spec fn joypad_byte(select: u8, pressed: u8) -> u8 {
    (192 + (if test_bit(select, 5) { 32int } else { 0 }) + (if test_bit(select, 4) {
        16int
    } else {
        0
    }) + (if line_low(select, pressed, 3) { 0int } else { 8 }) + (if line_low(
        select,
        pressed,
        2,
    ) { 0int } else { 4 }) + (if line_low(select, pressed, 1) { 0int } else { 2 }) + (if line_low(
        select,
        pressed,
        0,
    ) { 0int } else { 1 })) as u8
}

/// The set of pressed buttons after `event`.
pub open spec fn pressed_after(pressed: u8, event: KeyboardEvent) -> u8 {
    match event {
        KeyboardEvent::Down { key, shift } => match keypad_key_of(key) {
            Some(button) => with_bit(pressed, button_bit(button), true),
            None => pressed,
        },
        KeyboardEvent::Up { key, shift } => match keypad_key_of(key) {
            Some(button) => with_bit(pressed, button_bit(button), false),
            None => pressed,
        },
    }
}

/// Whether `event` presses a button that was not pressed.
pub open spec fn presses_button(pressed: u8, event: KeyboardEvent) -> bool {
    event matches KeyboardEvent::Down { key, shift } && keypad_key_of(key) matches Some(button)
        && !test_bit(pressed, button_bit(button))
}

/// A key that goes down changes the set of pressed buttons exactly if it
/// presses a button that was not pressed.
pub proof fn lemma_press_changes(pressed: u8, event: KeyboardEvent)
    ensures
        event is Down ==> (pressed_after(pressed, event) != pressed) == presses_button(
            pressed,
            event,
        ),
        event is Up ==> !presses_button(pressed, event),
{
    match event {
        KeyboardEvent::Down { key, shift } => match keypad_key_of(key) {
            Some(button) => {
                let n = button_bit(button);
                if !test_bit(pressed, n) {
                    assert(with_bit(pressed, n, true) == pressed + weight(n));
                }
            },
            None => {},
        },
        KeyboardEvent::Up { key, shift } => {},
    }
}

/// What the keypad register shows.
pub fn joypad_register(select: u8, pressed: u8) -> (out: u8)
    ensures
        out == joypad_byte(select, pressed),
{
    let directions: bool = !bit_is_set(select, 4);
    let buttons: bool = !bit_is_set(select, 5);
    let mut out: u8 = 192;
    if !directions {
        out += 16;
    }
    if !buttons {
        out += 32;
    }
    if !((directions && bit_is_set(pressed, 3)) || (buttons && bit_is_set(pressed, 7))) {
        out += 8;
    }
    if !((directions && bit_is_set(pressed, 2)) || (buttons && bit_is_set(pressed, 6))) {
        out += 4;
    }
    if !((directions && bit_is_set(pressed, 1)) || (buttons && bit_is_set(pressed, 5))) {
        out += 2;
    }
    if !((directions && bit_is_set(pressed, 0)) || (buttons && bit_is_set(pressed, 4))) {
        out += 1;
    }
    out
}

/// The bit of a button.
pub fn button_index(key: KeypadKey) -> (out: u8)
    ensures
        out == button_bit(key),
        out < 8,
{
    match key {
        KeypadKey::Right => 0,
        KeypadKey::Left => 1,
        KeypadKey::Up => 2,
        KeypadKey::Down => 3,
        KeypadKey::A => 4,
        KeypadKey::B => 5,
        KeypadKey::Select => 6,
        KeypadKey::Start => 7,
    }
}

/// What a wait on the queue gives.
#[derive(Clone, Copy, Debug, PartialEq, Eq, Structural)]
pub enum KeypadWait {
    /// The oldest event, now removed from the queue.
    Event(KeyboardEvent),
    /// No event yet; the producer may still send one.
    Pending,
    /// No event, and the producer is gone: the session is over.
    Closed,
}

/// The mathematical content of the queue.
pub struct KeypadModel {
    pub queue: Seq<KeyboardEvent>,
    pub connected: bool,
    /// The buttons that are held down, one bit each.
    pub pressed: u8,
}

impl KeypadModel {
    /// The queue after `event` was sent. What is sent after the producer
    /// has gone is not taken.
    pub open spec fn send(self, event: KeyboardEvent) -> KeypadModel {
        if self.connected {
            KeypadModel {
                queue: self.queue.push(event),
                pressed: pressed_after(self.pressed, event),
                ..self
            }
        } else {
            self
        }
    }

    /// The buttons that are held down after each of `events` has been
    /// sent.
    pub open spec fn pressed_after_all(pressed: u8, events: Seq<KeyboardEvent>) -> u8
        decreases events.len(),
    {
        if events.len() == 0 {
            pressed
        } else {
            Self::pressed_after_all(pressed_after(pressed, events[0]), events.skip(1))
        }
    }

    /// The queue after each of `events` was sent, in their order.
    pub open spec fn send_all(self, events: Seq<KeyboardEvent>) -> KeypadModel
        decreases events.len(),
    {
        if events.len() == 0 {
            self
        } else {
            self.send(events[0]).send_all(events.skip(1))
        }
    }

    /// What a wait gives.
    pub open spec fn wait_result(self) -> KeypadWait {
        if self.queue.len() > 0 {
            KeypadWait::Event(self.queue[0])
        } else if self.connected {
            KeypadWait::Pending
        } else {
            KeypadWait::Closed
        }
    }

    /// The queue after a wait.
    pub open spec fn wait(self) -> KeypadModel {
        if self.queue.len() > 0 {
            KeypadModel { queue: self.queue.skip(1), ..self }
        } else {
            self
        }
    }

    /// The queue after `n` waits.
    pub open spec fn wait_times(self, n: nat) -> KeypadModel
        decreases n,
    {
        if n == 0 {
            self
        } else {
            self.wait().wait_times((n - 1) as nat)
        }
    }

    pub open spec fn disconnect(self) -> KeypadModel {
        KeypadModel { connected: false, ..self }
    }

    /// Sending to a connected queue appends.
    pub proof fn lemma_send_all_appends(self, events: Seq<KeyboardEvent>)
        requires
            self.connected,
        ensures
            self.send_all(events) == (KeypadModel {
                queue: self.queue + events,
                pressed: Self::pressed_after_all(self.pressed, events),
                ..self
            }),
        decreases events.len(),
    {
        if events.len() == 0 {
            assert(self.queue + events =~= self.queue);
        } else {
            self.send(events[0]).lemma_send_all_appends(events.skip(1));
            assert(self.queue.push(events[0]) + events.skip(1) =~= self.queue + events);
        }
    }

    /// Waiting `n` times on a queue of at least `n` events removes the
    /// first `n`.
    pub proof fn lemma_wait_times_skips(self, n: nat)
        requires
            n <= self.queue.len(),
        ensures
            self.wait_times(n) == (KeypadModel { queue: self.queue.skip(n as int), ..self }),
        decreases n,
    {
        if n == 0 {
            assert(self.queue.skip(0) =~= self.queue);
        } else {
            self.wait().lemma_wait_times_skips((n - 1) as nat);
            assert(self.queue.skip(1).skip(n - 1) =~= self.queue.skip(n as int));
        }
    }

    /// Events come out in the order in which they went in, none lost and
    /// none twice: after `events` were sent to an empty queue, the wait
    /// number `i` gives `events[i]`, and after as many waits as there were
    /// events the queue is empty again.
    pub proof fn lemma_fifo(self, events: Seq<KeyboardEvent>, i: nat)
        requires
            self.connected,
            self.queue.len() == 0,
            i < events.len(),
        ensures
            self.send_all(events).wait_times(i).wait_result() == KeypadWait::Event(
                events[i as int],
            ),
            self.send_all(events).wait_times(events.len()).queue.len() == 0,
            self.send_all(events).wait_times(events.len()).wait_result() == KeypadWait::Pending,
    {
        self.lemma_send_all_appends(events);
        assert(self.queue + events =~= events);
        let sent = self.send_all(events);
        sent.lemma_wait_times_skips(i);
        sent.lemma_wait_times_skips(events.len());
    }

    /// After the producer has gone, what was sent before still comes out,
    /// and then every wait gives `Closed`.
    pub proof fn lemma_disconnect_drains(self, i: nat)
        requires
            i <= self.queue.len(),
        ensures
            i < self.queue.len() ==> self.disconnect().wait_times(i).wait_result()
                == KeypadWait::Event(self.queue[i as int]),
            i == self.queue.len() ==> self.disconnect().wait_times(i).wait_result()
                == KeypadWait::Closed,
    {
        self.disconnect().lemma_wait_times_skips(i);
    }
}

/// The keypad queue.
pub struct Keypad {
    queue: VecDeque<KeyboardEvent>,
    connected: bool,
    pressed: u8,
}

impl View for Keypad {
    type V = KeypadModel;

    closed spec fn view(&self) -> KeypadModel {
        KeypadModel { queue: self.queue@, connected: self.connected, pressed: self.pressed }
    }
}

impl Keypad {
    /// An empty queue with its producer connected and no button held
    /// down.
    pub fn new() -> (out: Keypad)
        ensures
            out@ == (KeypadModel { queue: Seq::empty(), connected: true, pressed: 0 }),
    {
        Keypad { queue: VecDeque::new(), connected: true, pressed: 0 }
    }

    /// The buttons that are held down, one bit each.
    pub fn pressed(&self) -> (out: u8)
        ensures
            out == self@.pressed,
    {
        self.pressed
    }

    /// Appends `event` and notes which buttons are held down after it;
    /// returns whether it was taken, which it is as long as the producer
    /// has not been disconnected.
    pub fn send(&mut self, event: KeyboardEvent) -> (taken: bool)
        ensures
            taken == old(self)@.connected,
            final(self)@ == old(self)@.send(event),
    {
        if self.connected {
            self.queue.push_back(event);
            match event {
                KeyboardEvent::Down { key, shift } => match keypad_key(key) {
                    Some(button) => {
                        self.pressed = set_bit(self.pressed, button_index(button), true);
                    },
                    None => {},
                },
                KeyboardEvent::Up { key, shift } => match keypad_key(key) {
                    Some(button) => {
                        self.pressed = set_bit(self.pressed, button_index(button), false);
                    },
                    None => {},
                },
            }
            true
        } else {
            false
        }
    }

    /// Marks the producer as gone.
    pub fn disconnect(&mut self)
        ensures
            final(self)@ == old(self)@.disconnect(),
    {
        self.connected = false;
    }

    /// Takes the oldest event from the queue. With an empty queue nothing
    /// changes, and the result says whether more can come.
    pub fn keypad_wait(&mut self) -> (out: KeypadWait)
        ensures
            out == old(self)@.wait_result(),
            final(self)@ == old(self)@.wait(),
    {
        match self.queue.pop_front() {
            Some(event) => KeypadWait::Event(event),
            None => if self.connected { KeypadWait::Pending } else { KeypadWait::Closed },
        }
    }

    /// The number of events that wait.
    pub fn len(&self) -> (out: usize)
        ensures
            out == self@.queue.len(),
    {
        self.queue.len()
    }
}

} // verus!
