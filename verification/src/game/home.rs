//! Routines that every part of the game uses.

pub mod text;
