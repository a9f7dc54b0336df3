//! Host keys and the keys of the core that they stand for.

use vstd::prelude::*;

verus! {

/// The fixed set of keys that the core understands.
#[derive(Clone, Copy, Debug, PartialEq, Eq, Structural)]
pub enum KeyboardKey {
    A, B, C, D, E, F, G, H, I, J, K, L, M,
    N, O, P, Q, R, S, T, U, V, W, X, Y, Z,
    Escape,
    Left,
    Up,
    Right,
    Down,
    Backspace,
    Return,
    Space,
}

/// A key transition, with the state of the shift modifier.
#[derive(Clone, Copy, Debug, PartialEq, Eq, Structural)]
pub enum KeyboardEvent {
    Down { key: KeyboardKey, shift: bool },
    Up { key: KeyboardKey, shift: bool },
}

/// What a terminal reports for one input event, reduced to what the
/// mapping looks at. Everything that is not one of the named keys,
/// key or not, is `Other`.
#[derive(Clone, Copy, Debug, PartialEq, Eq, Structural)]
pub enum InputKey {
    Char(char),
    Escape,
    LeftArrow,
    UpArrow,
    RightArrow,
    DownArrow,
    Backspace,
    Enter,
    Other,
}

/// The letter key with the given position in the alphabet, counted from 0.
pub open spec fn letter_key(index: int) -> KeyboardKey
    recommends
        0 <= index < 26,
{
    if index == 0 { KeyboardKey::A }
    else if index == 1 { KeyboardKey::B }
    else if index == 2 { KeyboardKey::C }
    else if index == 3 { KeyboardKey::D }
    else if index == 4 { KeyboardKey::E }
    else if index == 5 { KeyboardKey::F }
    else if index == 6 { KeyboardKey::G }
    else if index == 7 { KeyboardKey::H }
    else if index == 8 { KeyboardKey::I }
    else if index == 9 { KeyboardKey::J }
    else if index == 10 { KeyboardKey::K }
    else if index == 11 { KeyboardKey::L }
    else if index == 12 { KeyboardKey::M }
    else if index == 13 { KeyboardKey::N }
    else if index == 14 { KeyboardKey::O }
    else if index == 15 { KeyboardKey::P }
    else if index == 16 { KeyboardKey::Q }
    else if index == 17 { KeyboardKey::R }
    else if index == 18 { KeyboardKey::S }
    else if index == 19 { KeyboardKey::T }
    else if index == 20 { KeyboardKey::U }
    else if index == 21 { KeyboardKey::V }
    else if index == 22 { KeyboardKey::W }
    else if index == 23 { KeyboardKey::X }
    else if index == 24 { KeyboardKey::Y }
    else { KeyboardKey::Z }
}

/// The key of the core that a terminal key stands for, if any: lower-case
/// letters give the letter keys, the space bar gives `Space`, and the named
/// keys give their counterparts. Nothing else is a key of the core.
pub open spec fn keyboard_key_of(key: InputKey) -> Option<KeyboardKey> {
    match key {
        InputKey::Char(c) => if 'a' <= c && c <= 'z' {
            Some(letter_key(c as u32 - 'a' as u32))
        } else if c == ' ' {
            Some(KeyboardKey::Space)
        } else {
            None
        },
        InputKey::Escape => Some(KeyboardKey::Escape),
        InputKey::LeftArrow => Some(KeyboardKey::Left),
        InputKey::UpArrow => Some(KeyboardKey::Up),
        InputKey::RightArrow => Some(KeyboardKey::Right),
        InputKey::DownArrow => Some(KeyboardKey::Down),
        InputKey::Backspace => Some(KeyboardKey::Backspace),
        InputKey::Enter => Some(KeyboardKey::Return),
        InputKey::Other => None,
    }
}

/// The key of the core that a terminal key stands for.
pub fn key_to_keyboard(key: InputKey) -> (out: Option<KeyboardKey>)
    ensures
        out == keyboard_key_of(key),
{
    match key {
        InputKey::Char('a') => Some(KeyboardKey::A),
        InputKey::Char('b') => Some(KeyboardKey::B),
        InputKey::Char('c') => Some(KeyboardKey::C),
        InputKey::Char('d') => Some(KeyboardKey::D),
        InputKey::Char('e') => Some(KeyboardKey::E),
        InputKey::Char('f') => Some(KeyboardKey::F),
        InputKey::Char('g') => Some(KeyboardKey::G),
        InputKey::Char('h') => Some(KeyboardKey::H),
        InputKey::Char('i') => Some(KeyboardKey::I),
        InputKey::Char('j') => Some(KeyboardKey::J),
        InputKey::Char('k') => Some(KeyboardKey::K),
        InputKey::Char('l') => Some(KeyboardKey::L),
        InputKey::Char('m') => Some(KeyboardKey::M),
        InputKey::Char('n') => Some(KeyboardKey::N),
        InputKey::Char('o') => Some(KeyboardKey::O),
        InputKey::Char('p') => Some(KeyboardKey::P),
        InputKey::Char('q') => Some(KeyboardKey::Q),
        InputKey::Char('r') => Some(KeyboardKey::R),
        InputKey::Char('s') => Some(KeyboardKey::S),
        InputKey::Char('t') => Some(KeyboardKey::T),
        InputKey::Char('u') => Some(KeyboardKey::U),
        InputKey::Char('v') => Some(KeyboardKey::V),
        InputKey::Char('w') => Some(KeyboardKey::W),
        InputKey::Char('x') => Some(KeyboardKey::X),
        InputKey::Char('y') => Some(KeyboardKey::Y),
        InputKey::Char('z') => Some(KeyboardKey::Z),
        InputKey::Escape => Some(KeyboardKey::Escape),
        InputKey::LeftArrow => Some(KeyboardKey::Left),
        InputKey::UpArrow => Some(KeyboardKey::Up),
        InputKey::RightArrow => Some(KeyboardKey::Right),
        InputKey::DownArrow => Some(KeyboardKey::Down),
        InputKey::Backspace => Some(KeyboardKey::Backspace),
        InputKey::Enter => Some(KeyboardKey::Return),
        InputKey::Char(' ') => Some(KeyboardKey::Space),
        _ => None,
    }
}

} // verus!
