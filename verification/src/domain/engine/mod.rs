//! The engine: commands in, events out, and the state that the events fold into.

pub mod action;
pub mod command;
pub mod decide;
pub mod event;
pub mod game_engine;
pub mod game_state;
pub mod laws;
pub mod phase;
pub mod rules;
