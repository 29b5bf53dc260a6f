//! The server's model: its settings, and what it answers on a socket.
//! Listening, storing and sending are left to the program around it.

pub mod config;
pub mod socket;

use vstd::prelude::*;

verus! {

/// A message from the server to a client.
#[derive(Debug, Clone, Copy, PartialEq, Eq, Structural)]
pub enum ServerMessage {
    Pong,
}

} // verus!
