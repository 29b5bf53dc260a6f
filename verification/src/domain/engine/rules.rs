//! The rules: what each command leads to in each state, as events or as the
//! reason for which it is refused.

use crate::domain::card::{Card, ShoeError};
use crate::domain::engine::action::PlayerDecision;
use crate::domain::engine::command::{
    CommandError, GameCommand, PlayerCommand, SystemAction, SystemCommand,
};
use crate::domain::engine::event::{
    EventPayload, EventPayloadView, GameResultView, Payout, PlayerOutcome, PlayerResult,
};
use crate::domain::engine::game_state::{spec_seat, GameStateView};
use crate::domain::engine::phase::Phase;
use crate::domain::hand::{spec_hand_value, spec_hard_total, spec_is_blackjack};
use crate::domain::player::{BetError, PlayerId, PlayerStateView};
use vstd::prelude::*;

verus! {

/// The total from which the dealer draws no more.
pub const DEALER_STANDS_AT: u128 = 17;

/// What a command leads to: the events, or the reason for the refusal.
pub type Decision = Result<Seq<EventPayloadView>, CommandError>;

/// A row of events as plain values.
pub open spec fn spec_payload_views(payloads: Seq<EventPayload>) -> Seq<EventPayloadView> {
    Seq::new(payloads.len(), |i: int| payloads[i]@)
}

/// What came of a command, as plain values.
pub open spec fn spec_decision_view(result: Result<Vec<EventPayload>, CommandError>) -> Decision {
    match result {
        Ok(payloads) => Ok(spec_payload_views(payloads@)),
        Err(error) => Err(error),
    }
}

/// How many cards the players hold.
pub open spec fn spec_cards_held(players: Seq<PlayerStateView>) -> nat
    decreases players.len(),
{
    if players.len() == 0 {
        0
    } else {
        spec_cards_held(players.drop_last()) + players.last().hand.len()
    }
}

/// How many cards of the shoe have been dealt: as many as the dealer and the
/// players hold. The cards are dealt in the order of the shoe, so this is the
/// place in the shoe of the card that is dealt next.
pub open spec fn spec_dealt(state: GameStateView) -> nat {
    state.dealer.hand.len() + spec_cards_held(state.players)
}

/// The card that is dealt `ahead` cards after the next one.
pub open spec fn spec_card_ahead(state: GameStateView, ahead: int) -> Card {
    state.shoe.flatten()[spec_dealt(state) + ahead]
}

/// The stage that follows the turn of the player at `seat`: the turn of the
/// player in the next seat, or the dealer's turn after the last player. With
/// -1 for `seat` this is the stage that follows the first deal.
pub open spec fn spec_turn_after(players: Seq<PlayerStateView>, seat: int) -> Phase {
    if 0 <= seat + 1 < players.len() {
        Phase::PlayerTurn(players[seat + 1].player_id)
    } else {
        Phase::DealerTurn
    }
}

/// A bet: open while bets are awaited, to a player at the table who has no bet
/// yet; the amount must be more than nothing and within the balance.
pub open spec fn spec_decide_bet(state: GameStateView, player: PlayerId, amount: u32) -> Decision {
    if state.phase != Phase::WaitingForBets {
        Err(CommandError::WrongPhase)
    } else {
        match spec_seat(state.players, player) {
            None => Err(CommandError::WrongActor),
            Some(seat) => if state.players[seat].bet is Some {
                Err(CommandError::IllegalAction)
            } else if amount > state.players[seat].balance {
                Err(CommandError::Bet(BetError::InsufficientFunds))
            } else if amount == 0 {
                Err(CommandError::Bet(BetError::InvalidAmount))
            } else {
                Ok(seq![EventPayloadView::PlayerPlacedBet { player, amount }])
            },
        }
    }
}

/// The seat of the player who asks to hit or stand: the player must be the
/// one whose turn it is, and must sit at the table.
pub open spec fn spec_acting_seat(state: GameStateView, player: PlayerId) -> Result<
    int,
    CommandError,
> {
    match state.phase {
        Phase::PlayerTurn(active) => if active != player {
            Err(CommandError::WrongActor)
        } else {
            match spec_seat(state.players, player) {
                None => Err(CommandError::IllegalAction),
                Some(seat) => Ok(seat),
            }
        },
        _ => Err(CommandError::WrongPhase),
    }
}

/// A hit: the decision is recorded and the next card of the shoe dealt to the
/// player. Where the hand then counts more than 21, the player is bust and
/// the turn passes on.
pub open spec fn spec_decide_hit(state: GameStateView, player: PlayerId) -> Decision {
    match spec_acting_seat(state, player) {
        Err(error) => Err(error),
        Ok(seat) => if spec_dealt(state) >= state.shoe.flatten().len() {
            Err(CommandError::Shoe(ShoeError::Empty))
        } else {
            let card = spec_card_ahead(state, 0);
            let taken = seq![
                EventPayloadView::PlayerDecisionTaken { player, action: PlayerDecision::Hit },
                EventPayloadView::PlayerCardDealt { player, card },
            ];
            if spec_hard_total(state.players[seat].hand.push(card)) > 21 {
                Ok(
                    taken + seq![
                        EventPayloadView::PlayerBust { player },
                        EventPayloadView::PhaseChanged {
                            from: state.phase,
                            to: spec_turn_after(state.players, seat),
                        },
                    ],
                )
            } else {
                Ok(taken)
            }
        },
    }
}

/// A stand: the decision is recorded and the turn passes on.
pub open spec fn spec_decide_stand(state: GameStateView, player: PlayerId) -> Decision {
    match spec_acting_seat(state, player) {
        Err(error) => Err(error),
        Ok(seat) => Ok(
            seq![
                EventPayloadView::PlayerDecisionTaken { player, action: PlayerDecision::Stand },
                EventPayloadView::PhaseChanged {
                    from: state.phase,
                    to: spec_turn_after(state.players, seat),
                },
            ],
        ),
    }
}

/// What a player's command leads to, the game apart.
pub open spec fn spec_decide_player(state: GameStateView, command: PlayerCommand) -> Decision {
    match command.action {
        PlayerDecision::Bet { amount } => spec_decide_bet(state, command.player_id, amount),
        PlayerDecision::Hit => spec_decide_hit(state, command.player_id),
        PlayerDecision::Stand => spec_decide_stand(state, command.player_id),
    }
}

/// Seating a player: open while bets are awaited, for a handle that is not at
/// the table yet.
pub open spec fn spec_decide_seat(state: GameStateView, player: PlayerId) -> Decision {
    if state.phase != Phase::WaitingForBets {
        Err(CommandError::WrongPhase)
    } else if spec_seat(state.players, player) is Some {
        Err(CommandError::IllegalAction)
    } else {
        Ok(seq![EventPayloadView::PlayerJoined { player }])
    }
}

/// Taking a player from the table: open while bets are awaited, for a player
/// who sits there.
pub open spec fn spec_decide_remove(state: GameStateView, player: PlayerId) -> Decision {
    if state.phase != Phase::WaitingForBets {
        Err(CommandError::WrongPhase)
    } else if spec_seat(state.players, player) is None {
        Err(CommandError::WrongActor)
    } else {
        Ok(seq![EventPayloadView::PlayerLeft { player }])
    }
}

/// Closing the betting: open while bets are awaited. The game starts and
/// goes on to the first deal.
pub open spec fn spec_decide_start(state: GameStateView) -> Decision {
    if state.phase != Phase::WaitingForBets {
        Err(CommandError::WrongPhase)
    } else {
        Ok(
            seq![
                EventPayloadView::GameStarted,
                EventPayloadView::PhaseChanged {
                    from: Phase::WaitingForBets,
                    to: Phase::InitialDealing,
                },
            ],
        )
    }
}

/// The `k`-th card of the first deal: two rounds, in each a card to every
/// player in the order of the seats and then one to the dealer.
pub open spec fn spec_deal_event(state: GameStateView, k: int) -> EventPayloadView {
    let place = k % (state.players.len() + 1) as int;
    if place < state.players.len() {
        EventPayloadView::PlayerCardDealt {
            player: state.players[place].player_id,
            card: spec_card_ahead(state, k),
        }
    } else {
        EventPayloadView::DealerCardDealt {
            dealer: state.dealer.dealer_id,
            card: spec_card_ahead(state, k),
        }
    }
}

/// The first deal: open in the stage of that name, where the shoe has two
/// cards left for every player and for the dealer. After the cards the turn
/// goes to the first player, or to the dealer where nobody plays.
pub open spec fn spec_decide_deal(state: GameStateView) -> Decision {
    let cards = 2 * (state.players.len() + 1);
    if state.phase != Phase::InitialDealing {
        Err(CommandError::WrongPhase)
    } else if spec_dealt(state) + cards > state.shoe.flatten().len() {
        Err(CommandError::Shoe(ShoeError::Empty))
    } else {
        Ok(
            Seq::new(cards as nat, |k: int| spec_deal_event(state, k)).push(
                EventPayloadView::PhaseChanged {
                    from: Phase::InitialDealing,
                    to: spec_turn_after(state.players, -1),
                },
            ),
        )
    }
}

/// Whether the dealer, holding `hand` with `rest` to draw from, stops after
/// `drawn` cards: the hand then counts 17 or more, and counted less before.
pub open spec fn spec_dealer_stops(hand: Seq<Card>, rest: Seq<Card>, drawn: int) -> bool {
    &&& 0 <= drawn <= rest.len()
    &&& spec_hand_value(hand + rest.subrange(0, drawn)).spec_best() >= DEALER_STANDS_AT
    &&& forall|fewer: int|
        0 <= fewer < drawn ==> spec_hand_value(hand + #[trigger] rest.subrange(0, fewer)).spec_best()
            < DEALER_STANDS_AT
}

/// The cards of the shoe that have not been dealt.
pub open spec fn spec_undealt(state: GameStateView) -> Seq<Card> {
    let cards = state.shoe.flatten();
    if spec_dealt(state) <= cards.len() {
        cards.subrange(spec_dealt(state) as int, cards.len() as int)
    } else {
        Seq::empty()
    }
}

/// The dealer's play: open in the dealer's turn. The dealer draws until the
/// hand counts 17 or more, with an ace at 11 where that does not pass 21; is
/// bust above 21; and the game goes on to the payouts. Where the shoe runs out
/// before the dealer stops, the command is refused.
pub open spec fn spec_decide_dealer(state: GameStateView) -> Decision {
    let hand = state.dealer.hand;
    let rest = spec_undealt(state);
    let dealer = state.dealer.dealer_id;
    if state.phase != Phase::DealerTurn {
        Err(CommandError::WrongPhase)
    } else if exists|drawn: int| spec_dealer_stops(hand, rest, drawn) {
        let drawn = choose|drawn: int| spec_dealer_stops(hand, rest, drawn);
        let dealt = Seq::new(
            drawn as nat,
            |k: int| EventPayloadView::DealerCardDealt { dealer, card: rest[k] },
        );
        let told = if spec_hand_value(hand + rest.subrange(0, drawn)) is Bust {
            dealt.push(EventPayloadView::DealerBust { dealer })
        } else {
            dealt
        };
        Ok(told.push(EventPayloadView::PhaseChanged { from: Phase::DealerTurn, to: Phase::Payouts }))
    } else {
        Err(CommandError::Shoe(ShoeError::Empty))
    }
}

/// How a hand fares against the dealer's. A hand above 21 is bust whatever
/// the dealer holds. A blackjack beats all but a blackjack, with which it
/// ties. Otherwise the player wins where the dealer is bust or counts less,
/// ties on the same total, and loses to a higher total.
pub open spec fn spec_outcome(player: Seq<Card>, dealer: Seq<Card>) -> PlayerOutcome {
    let ours = spec_hand_value(player);
    let theirs = spec_hand_value(dealer);
    if ours is Bust {
        PlayerOutcome::Bust
    } else if spec_is_blackjack(player) {
        if spec_is_blackjack(dealer) {
            PlayerOutcome::Push
        } else {
            PlayerOutcome::Blackjack
        }
    } else if theirs is Bust {
        PlayerOutcome::Won
    } else if spec_is_blackjack(dealer) {
        PlayerOutcome::Lost
    } else if ours.spec_best() > theirs.spec_best() {
        PlayerOutcome::Won
    } else if ours.spec_best() == theirs.spec_best() {
        PlayerOutcome::Push
    } else {
        PlayerOutcome::Lost
    }
}

/// How the game ends for a player: the outcome against the dealer's hand, and
/// the bet, nothing where none was placed, with the factor of that outcome.
pub open spec fn spec_player_result(player: PlayerStateView, dealer: Seq<Card>) -> PlayerResult {
    let outcome = spec_outcome(player.hand, dealer);
    PlayerResult {
        player: player.player_id,
        outcome,
        payout: Payout {
            bet: match player.bet {
                Some(bet) => bet,
                None => 0,
            },
            multiplier: outcome.spec_multiplier(),
        },
    }
}

/// How the game ends: a result for every player in the order of the seats.
pub open spec fn spec_settle(state: GameStateView) -> GameResultView {
    GameResultView {
        player_results: Seq::new(
            state.players.len(),
            |i: int| spec_player_result(state.players[i], state.dealer.hand),
        ),
        dealer_busted: spec_hand_value(state.dealer.hand) is Bust,
    }
}

/// Settling: open in the stage of the payouts. The game goes to its last
/// stage and ends with its result.
pub open spec fn spec_decide_settle(state: GameStateView) -> Decision {
    if state.phase != Phase::Payouts {
        Err(CommandError::WrongPhase)
    } else {
        Ok(
            seq![
                EventPayloadView::PhaseChanged { from: Phase::Payouts, to: Phase::Finished },
                EventPayloadView::GameFinished { result: spec_settle(state) },
            ],
        )
    }
}

/// What a command of the house leads to, the game apart.
pub open spec fn spec_decide_system(state: GameStateView, command: SystemCommand) -> Decision {
    match command.action {
        SystemAction::SeatPlayer { player } => spec_decide_seat(state, player),
        SystemAction::RemovePlayer { player } => spec_decide_remove(state, player),
        SystemAction::StartGame => spec_decide_start(state),
        SystemAction::DealInitialCards => spec_decide_deal(state),
        SystemAction::PlayDealer => spec_decide_dealer(state),
        SystemAction::Settle => spec_decide_settle(state),
    }
}

/// What a command leads to in a state: a command for another game is
/// refused, and any other is judged by its action.
pub open spec fn spec_decide(state: GameStateView, command: GameCommand) -> Decision {
    if command.spec_game_id() != state.game_id {
        Err(CommandError::WrongGame)
    } else {
        match command {
            GameCommand::Player(command) => spec_decide_player(state, command),
            GameCommand::System(command) => spec_decide_system(state, command),
        }
    }
}

} // verus!
