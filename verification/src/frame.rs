//! Drawing on a terminal surface.

pub mod shape;
