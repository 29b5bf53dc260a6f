use crate::domain::engine::event::{EventPayload, EventPayloadView, EventSeqId, GameId};
use vstd::prelude::*;

verus! {

/// One entry of the log of a game. The log of a game, folded in order into the
/// game's first state, gives the state of the game.
#[derive(Debug)]
pub struct GameEvent {
    pub game_id: GameId,
    pub event_seq_id: EventSeqId,
    pub payload: EventPayload,
}

/// An entry of the log as plain values.
pub struct GameEventView {
    pub game_id: GameId,
    pub event_seq_id: EventSeqId,
    pub payload: EventPayloadView,
}

impl View for GameEvent {
    type V = GameEventView;

    open spec fn view(&self) -> GameEventView {
        GameEventView {
            game_id: self.game_id,
            event_seq_id: self.event_seq_id,
            payload: self.payload@,
        }
    }
}

} // verus!
