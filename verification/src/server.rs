//! Serving the picture of a running session to terminals that connect
//! over the network: the state of the show, and who is connected.

pub mod game;
pub mod server;
