use crate::domain::engine::action::PlayerDecision;
use crate::domain::engine::command::CommandId;
use crate::domain::engine::event::GameId;
use crate::domain::player::PlayerId;
use vstd::prelude::*;

verus! {

/// A player's request to act in a game.
#[derive(Debug, Clone, Copy, PartialEq, Eq, Structural)]
pub struct PlayerCommand {
    pub game_id: GameId,
    pub command_id: CommandId,
    pub player_id: PlayerId,
    pub action: PlayerDecision,
}

} // verus!
