use crate::domain::card::Card;
use crate::domain::dealer::DealerId;
use crate::domain::engine::action::PlayerDecision;
use crate::domain::engine::event::{GameResult, GameResultView};
use crate::domain::engine::phase::Phase;
use crate::domain::player::PlayerId;
use vstd::prelude::*;

verus! {

/// What happened.
#[derive(Debug)]
pub enum EventPayload {
    PlayerJoined { player: PlayerId },
    PlayerLeft { player: PlayerId },
    PlayerPlacedBet { player: PlayerId, amount: u32 },
    GameStarted,
    PhaseChanged { from: Phase, to: Phase },
    GameFinished { result: GameResult },
    PlayerCardDealt { player: PlayerId, card: Card },
    DealerCardDealt { dealer: DealerId, card: Card },
    PlayerDecisionTaken { player: PlayerId, action: PlayerDecision },
    PlayerBust { player: PlayerId },
    DealerBust { dealer: DealerId },
}

/// What happened, as plain values.
pub enum EventPayloadView {
    PlayerJoined { player: PlayerId },
    PlayerLeft { player: PlayerId },
    PlayerPlacedBet { player: PlayerId, amount: u32 },
    GameStarted,
    PhaseChanged { from: Phase, to: Phase },
    GameFinished { result: GameResultView },
    PlayerCardDealt { player: PlayerId, card: Card },
    DealerCardDealt { dealer: DealerId, card: Card },
    PlayerDecisionTaken { player: PlayerId, action: PlayerDecision },
    PlayerBust { player: PlayerId },
    DealerBust { dealer: DealerId },
}

impl View for EventPayload {
    type V = EventPayloadView;

    open spec fn view(&self) -> EventPayloadView {
        match *self {
            EventPayload::PlayerJoined { player } => EventPayloadView::PlayerJoined { player },
            EventPayload::PlayerLeft { player } => EventPayloadView::PlayerLeft { player },
            EventPayload::PlayerPlacedBet { player, amount } => EventPayloadView::PlayerPlacedBet {
                player,
                amount,
            },
            EventPayload::GameStarted => EventPayloadView::GameStarted,
            EventPayload::PhaseChanged { from, to } => EventPayloadView::PhaseChanged { from, to },
            EventPayload::GameFinished { result } => EventPayloadView::GameFinished {
                result: result@,
            },
            EventPayload::PlayerCardDealt { player, card } => EventPayloadView::PlayerCardDealt {
                player,
                card,
            },
            EventPayload::DealerCardDealt { dealer, card } => EventPayloadView::DealerCardDealt {
                dealer,
                card,
            },
            EventPayload::PlayerDecisionTaken { player, action } => {
                EventPayloadView::PlayerDecisionTaken { player, action }
            },
            EventPayload::PlayerBust { player } => EventPayloadView::PlayerBust { player },
            EventPayload::DealerBust { dealer } => EventPayloadView::DealerBust { dealer },
        }
    }
}

} // verus!
