use crate::domain::engine::command::CommandId;
use crate::domain::engine::event::GameId;
use crate::domain::player::PlayerId;
use vstd::prelude::*;

verus! {

/// What the house does to drive a game on.
#[derive(Debug, Clone, Copy, PartialEq, Eq, Structural)]
pub enum SystemAction {
    /// Seat a player at the table, while bets are awaited.
    SeatPlayer { player: PlayerId },
    /// Take a player from the table, while bets are awaited.
    RemovePlayer { player: PlayerId },
    /// Close the betting.
    StartGame,
    /// Deal two cards to every player and to the dealer.
    DealInitialCards,
    /// Let the dealer draw.
    PlayDealer,
    /// Settle the bets and end the game.
    Settle,
}

/// A request of the house.
#[derive(Debug, Clone, Copy, PartialEq, Eq, Structural)]
pub struct SystemCommand {
    pub game_id: GameId,
    pub command_id: CommandId,
    pub action: SystemAction,
}

} // verus!
