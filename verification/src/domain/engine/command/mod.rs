//! What can be asked of the engine.

mod game_command;
mod player_command;
mod system_command;

pub use game_command::GameCommand;
pub use player_command::PlayerCommand;
pub use system_command::{SystemAction, SystemCommand};

use crate::domain::card::ShoeError;
use crate::domain::player::BetError;
use vstd::prelude::*;

verus! {

/// The handle of a command. A command that comes twice under one handle is
/// carried out once.
#[derive(Debug, Clone, Copy, PartialEq, Eq, Hash, Structural)]
pub struct CommandId(pub u64);

/// Why a command was refused.
#[derive(Debug, Clone, Copy, PartialEq, Eq, Structural)]
pub enum CommandError {
    /// The command names another game.
    WrongGame,
    /// The action has no place in the stage the game is in.
    WrongPhase,
    /// The player named is not the one who may act.
    WrongActor,
    /// The action is not open to the one who asks, as the game stands.
    IllegalAction,
    /// The bet was refused.
    Bet(BetError),
    /// The shoe holds too few cards.
    Shoe(ShoeError),
    /// The game has used up its event numbers.
    SequenceExhausted,
}

} // verus!
