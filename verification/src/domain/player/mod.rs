//! The players of a game.

mod player_state;

pub use player_state::{BetError, PlayerState, PlayerStateView};

use vstd::prelude::*;

verus! {

/// The handle of a player.
#[derive(Debug, Clone, Copy, PartialEq, Eq, Hash, Structural)]
pub struct PlayerId(pub u64);

} // verus!
