//! A hybrid emulation core for an 8-bit handheld console: banked memory, CPU
//! state with a native/binary control hand-off, an overlay compositor and a
//! keypad queue, together with the presentation helpers that sit around it.

pub mod cpu;
pub mod frame;
pub mod game;
pub mod gpu;
pub mod input;
pub mod keypad;
pub mod mbc5;
pub mod mmu;
pub mod serial;
pub mod server;
pub mod sixel;
pub mod sound2;
pub mod timer;

pub use crate::game::Game;
pub use crate::gpu::layer::{SCREEN_H, SCREEN_W};
pub use crate::input::{KeyboardEvent, KeyboardKey};
pub use crate::keypad::KeypadKey;
