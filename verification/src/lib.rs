//! A blackjack engine built around an ordered, replayable log of events.
//!
//! Commands are validated against the current state of a game, accepted
//! commands produce events, and the state of a game is the fold of its events.
//! Beside the engine stand the models of the terminal client and of the
//! server's messages, without their input and output.

pub mod cli;
pub mod domain;
pub mod server;
