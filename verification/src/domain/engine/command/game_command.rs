use crate::domain::engine::command::{CommandId, PlayerCommand, SystemCommand};
use crate::domain::engine::event::GameId;
use vstd::prelude::*;

verus! {

/// A request to the engine: a player's or the house's.
#[derive(Debug, Clone, Copy, PartialEq, Eq, Structural)]
pub enum GameCommand {
    Player(PlayerCommand),
    System(SystemCommand),
}

impl GameCommand {
    /// The game that the command is for.
    pub open spec fn spec_game_id(self) -> GameId {
        match self {
            GameCommand::Player(command) => command.game_id,
            GameCommand::System(command) => command.game_id,
        }
    }

    /// The handle of the command.
    pub open spec fn spec_command_id(self) -> CommandId {
        match self {
            GameCommand::Player(command) => command.command_id,
            GameCommand::System(command) => command.command_id,
        }
    }

    /// The game that the command is for.
    pub fn game_id(&self) -> (id: GameId)
        ensures
            id == self.spec_game_id(),
    {
        match self {
            GameCommand::Player(command) => command.game_id,
            GameCommand::System(command) => command.game_id,
        }
    }

    /// The handle of the command.
    pub fn command_id(&self) -> (id: CommandId)
        ensures
            id == self.spec_command_id(),
    {
        match self {
            GameCommand::Player(command) => command.command_id,
            GameCommand::System(command) => command.command_id,
        }
    }
}

} // verus!
