//! Native routines that stand in for routines of the binary.

pub mod menus;
