//! Tables, at which games are played.

use vstd::prelude::*;

verus! {

/// Whether a table takes players.
#[derive(Debug, Clone, Copy, PartialEq, Eq, Structural)]
pub enum TableStatus {
    Open,
    Closed,
}

/// The limits of a table.
#[derive(Debug, Clone, Copy, PartialEq, Eq, Structural)]
pub struct TableSettings {
    pub min_bet: u32,
    pub max_bet: u32,
    pub max_players: usize,
    pub max_observers: usize,
}

} // verus!
