//! What can happen in a game.

mod game_event;
mod outcome;
mod payload;

pub use game_event::{GameEvent, GameEventView};
pub use outcome::{
    GameResult, GameResultView, Multiplier, Payout, PlayerOutcome, PlayerResult,
};
pub use payload::{EventPayload, EventPayloadView};

use vstd::prelude::*;

verus! {

/// The handle of a game.
#[derive(Debug, Clone, Copy, PartialEq, Eq, Hash, Structural)]
pub struct GameId(pub u64);

/// The handle of an event.
#[derive(Debug, Clone, Copy, PartialEq, Eq, Hash, Structural)]
pub struct EventId(pub u64);

/// The number of an event in the log of its game. The first event of a game
/// has the number 0, and each further one the next number.
#[derive(Debug, Clone, Copy, PartialEq, Eq, Hash, Structural)]
pub struct EventSeqId(pub u64);

impl EventSeqId {
    /// The number of the first event of a game: 0.
    pub fn start() -> (first: EventSeqId)
        ensures
            first.0 == 0,
    {
        EventSeqId(0)
    }

    /// The number that follows this one. The last number a `u64` holds has none.
    pub fn next(&self) -> (following: EventSeqId)
        requires
            self.0 < u64::MAX,
        ensures
            following.0 == self.0 + 1,
    {
        EventSeqId(self.0 + 1)
    }
}

} // verus!
