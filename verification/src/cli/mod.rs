//! The terminal client's model: what the screen shows, and how keys and time
//! change it. Drawing and reading keys are left to the program around it.

pub mod animation;
pub mod app;
pub mod card;
pub mod mock;
pub mod state;
