//! Where the binary keeps its variables.

pub mod sram;
pub mod wram;
