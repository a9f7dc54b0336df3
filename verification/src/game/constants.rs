//! Constants of the binary that native code shares with it.

pub mod hardware_constants;
pub mod misc_constants;
pub mod serial_constants;
pub mod text_constants;
