use super::cards::{UiHand, UiHandView};
use vstd::prelude::*;

verus! {

/// A player as the table shows it.
#[derive(Debug, Clone, PartialEq, Eq)]
pub struct PlayerUiState {
    pub name: String,
    /// Whether it is this player's turn.
    pub active: bool,
    pub hand: UiHand,
    /// How the player stands in the game, in a word.
    pub status: String,
}

/// A shown player as plain values.
pub struct PlayerUiStateView {
    pub name: Seq<char>,
    pub active: bool,
    pub hand: UiHandView,
    pub status: Seq<char>,
}

impl View for PlayerUiState {
    type V = PlayerUiStateView;

    open spec fn view(&self) -> PlayerUiStateView {
        PlayerUiStateView {
            name: self.name@,
            active: self.active,
            hand: self.hand@,
            status: self.status@,
        }
    }
}

/// A game as the table shows it.
#[derive(Debug, Clone, PartialEq, Eq)]
pub struct TableState {
    pub game_id: u64,
    pub phase: String,
    pub event_id: u64,
    pub dealer: UiHand,
    pub players: Vec<PlayerUiState>,
}

/// A shown game as plain values.
pub struct TableStateView {
    pub game_id: u64,
    pub phase: Seq<char>,
    pub event_id: u64,
    pub dealer: UiHandView,
    pub players: Seq<PlayerUiStateView>,
}

/// A row of shown players as plain values.
pub open spec fn spec_player_ui_views(players: Seq<PlayerUiState>) -> Seq<PlayerUiStateView> {
    Seq::new(players.len(), |i: int| players[i]@)
}

impl View for TableState {
    type V = TableStateView;

    open spec fn view(&self) -> TableStateView {
        TableStateView {
            game_id: self.game_id,
            phase: self.phase@,
            event_id: self.event_id,
            dealer: self.dealer@,
            players: spec_player_ui_views(self.players@),
        }
    }
}

} // verus!
