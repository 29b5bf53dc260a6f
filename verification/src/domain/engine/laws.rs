//! What follows from the rules.

use crate::domain::engine::action::PlayerDecision;
use crate::domain::engine::command::{GameCommand, SystemAction};
use crate::domain::engine::event::EventPayloadView;
use crate::domain::engine::game_state::{
    lemma_replay_keeps_stage, lemma_replay_push, spec_is_other, spec_seat, GameStateView,
};
use crate::domain::engine::phase::Phase;
use crate::domain::engine::rules::{
    spec_acting_seat, spec_card_ahead, spec_cards_held, spec_dealer_stops, spec_dealt,
    spec_deal_event, spec_decide, spec_decide_bet, spec_settle, spec_turn_after, spec_undealt,
};
use crate::domain::hand::{spec_hand_value, spec_hard_total};
use crate::domain::player::{PlayerId, PlayerStateView};
use vstd::prelude::*;

verus! {

/// Where one player of the row is replaced, the row holds as many cards
/// more as the new player holds more than the old one.
pub proof fn lemma_cards_held_update(
    players: Seq<PlayerStateView>,
    seat: int,
    player: PlayerStateView,
)
    requires
        0 <= seat < players.len(),
    ensures
        spec_cards_held(players.update(seat, player)) == spec_cards_held(players)
            - players[seat].hand.len() + player.hand.len(),
    decreases players.len(),
{
    let after = players.update(seat, player);
    if seat == players.len() - 1 {
        assert(after.drop_last() =~= players.drop_last());
    } else {
        lemma_cards_held_update(players.drop_last(), seat, player);
        assert(after.drop_last() =~= players.drop_last().update(seat, player));
    }
}

/// The players who stay when one handle leaves hold no more cards than all
/// held before.
pub proof fn lemma_cards_held_without(players: Seq<PlayerStateView>, player: PlayerId)
    ensures
        spec_cards_held(players.filter(spec_is_other(player))) <= spec_cards_held(players),
    decreases players.len(),
{
    reveal_with_fuel(Seq::<_>::filter, 2);
    if players.len() > 0 {
        lemma_cards_held_without(players.drop_last(), player);
        let kept = players.drop_last().filter(spec_is_other(player));
        if spec_is_other(player)(players.last()) {
            assert(kept.push(players.last()).drop_last() =~= kept);
        }
    }
}

/// The cards are dealt in the order of the shoe, each once: a card dealt to
/// the dealer or to a player at the table moves the place of the next card
/// on by one. A player who leaves takes the cards held along, so the place
/// does not move on then; no other event moves it.
pub proof fn lemma_dealing_moves_on(state: GameStateView, payload: EventPayloadView)
    ensures
        match payload {
            EventPayloadView::PlayerCardDealt { player, card } => spec_dealt(
                state.spec_apply(payload),
            ) == spec_dealt(state) + if spec_seat(state.players, player) is Some {
                1nat
            } else {
                0nat
            },
            EventPayloadView::DealerCardDealt { dealer, card } => spec_dealt(
                state.spec_apply(payload),
            ) == spec_dealt(state) + 1,
            EventPayloadView::PlayerLeft { player } => spec_dealt(state.spec_apply(payload))
                <= spec_dealt(state),
            _ => spec_dealt(state.spec_apply(payload)) == spec_dealt(state),
        },
{
    match payload {
        EventPayloadView::PlayerJoined { player } => {
            assert(state.players.push(PlayerStateView::spec_with_balance(player, 0)).drop_last()
                =~= state.players);
        },
        EventPayloadView::PlayerLeft { player } => {
            lemma_cards_held_without(state.players, player);
        },
        EventPayloadView::PlayerPlacedBet { player, amount } => {
            if spec_seat(state.players, player) is Some {
                let seat = spec_seat(state.players, player)->Some_0;
                lemma_cards_held_update(
                    state.players,
                    seat,
                    state.players[seat].spec_with_bet(amount),
                );
            }
        },
        EventPayloadView::PlayerCardDealt { player, card } => {
            if spec_seat(state.players, player) is Some {
                let seat = spec_seat(state.players, player)->Some_0;
                lemma_cards_held_update(
                    state.players,
                    seat,
                    state.players[seat].spec_with_card(card),
                );
            }
        },
        EventPayloadView::PlayerDecisionTaken { player, action } => {
            if spec_seat(state.players, player) is Some {
                let seat = spec_seat(state.players, player)->Some_0;
                lemma_cards_held_update(
                    state.players,
                    seat,
                    state.players[seat].spec_with_decision(action),
                );
            }
        },
        _ => {},
    }
}

/// A bet that is accepted leaves the player, once its event is folded in,
/// with the bet set and the balance lower by exactly the amount; nobody else
/// and nothing else changes.
pub proof fn lemma_bet_accepted(state: GameStateView, player: PlayerId, amount: u32)
    requires
        spec_decide_bet(state, player, amount) is Ok,
    ensures
        ({
            let seat = spec_seat(state.players, player)->Some_0;
            let after = state.spec_replay(spec_decide_bet(state, player, amount)->Ok_0);
            &&& spec_seat(state.players, player) is Some
            &&& 0 < amount <= state.players[seat].balance
            &&& after == state.spec_with_player(
                seat,
                PlayerStateView {
                    balance: (state.players[seat].balance - amount) as u32,
                    bet: Some(amount),
                    ..state.players[seat]
                },
            )
        }),
{
    let log = spec_decide_bet(state, player, amount)->Ok_0;
    assert(log.drop_last() =~= Seq::<EventPayloadView>::empty());
    assert(state.spec_replay(log.drop_last()) == state);
}

/// Every change of stage is on record. Where the events of a command, folded
/// into the state, leave the game in another stage than it was in, one of
/// them is a `PhaseChanged` from the stage before to the stage after.
pub proof fn lemma_transitions_are_recorded(state: GameStateView, command: GameCommand)
    requires
        spec_decide(state, command) is Ok,
    ensures
        ({
            let events = spec_decide(state, command)->Ok_0;
            let after = state.spec_replay(events);
            after.phase != state.phase ==> events.contains(
                EventPayloadView::PhaseChanged { from: state.phase, to: after.phase },
            )
        }),
{
    let events = spec_decide(state, command)->Ok_0;
    let after = state.spec_replay(events);
    let none = Seq::<EventPayloadView>::empty();
    match command {
        GameCommand::Player(command) => {
            let player = command.player_id;
            match command.action {
                PlayerDecision::Bet { amount } => {
                    lemma_replay_keeps_stage(state, events);
                },
                PlayerDecision::Hit => {
                    let seat = spec_acting_seat(state, player)->Ok_0;
                    let card = spec_card_ahead(state, 0);
                    let taken = seq![
                        EventPayloadView::PlayerDecisionTaken {
                            player,
                            action: PlayerDecision::Hit,
                        },
                        EventPayloadView::PlayerCardDealt { player, card },
                    ];
                    lemma_replay_keeps_stage(state, taken);
                    if spec_hard_total(state.players[seat].hand.push(card)) > 21 {
                        let bust = EventPayloadView::PlayerBust { player };
                        let turn = EventPayloadView::PhaseChanged {
                            from: state.phase,
                            to: spec_turn_after(state.players, seat),
                        };
                        assert(events =~= taken.push(bust).push(turn));
                        lemma_replay_keeps_stage(state, taken.push(bust));
                        lemma_replay_push(state, taken.push(bust), turn);
                        assert(events[3] == turn);
                    }
                },
                PlayerDecision::Stand => {
                    let seat = spec_acting_seat(state, player)->Ok_0;
                    let stood = EventPayloadView::PlayerDecisionTaken {
                        player,
                        action: PlayerDecision::Stand,
                    };
                    let turn = EventPayloadView::PhaseChanged {
                        from: state.phase,
                        to: spec_turn_after(state.players, seat),
                    };
                    assert(events =~= none.push(stood).push(turn));
                    lemma_replay_keeps_stage(state, none.push(stood));
                    lemma_replay_push(state, none.push(stood), turn);
                    assert(events[1] == turn);
                },
            }
        },
        GameCommand::System(command) => match command.action {
            SystemAction::SeatPlayer { player } => {
                lemma_replay_keeps_stage(state, events);
            },
            SystemAction::RemovePlayer { player } => {
                lemma_replay_keeps_stage(state, events);
            },
            SystemAction::StartGame => {
                let turn = EventPayloadView::PhaseChanged {
                    from: Phase::WaitingForBets,
                    to: Phase::InitialDealing,
                };
                assert(events =~= none.push(EventPayloadView::GameStarted).push(turn));
                lemma_replay_push(state, none, EventPayloadView::GameStarted);
                lemma_replay_push(state, none.push(EventPayloadView::GameStarted), turn);
                assert(events[1] == turn);
            },
            SystemAction::DealInitialCards => {
                let cards = Seq::new(
                    (2 * (state.players.len() + 1)) as nat,
                    |k: int| spec_deal_event(state, k),
                );
                let turn = EventPayloadView::PhaseChanged {
                    from: Phase::InitialDealing,
                    to: spec_turn_after(state.players, -1),
                };
                assert(events == cards.push(turn));
                lemma_replay_keeps_stage(state, cards);
                lemma_replay_push(state, cards, turn);
                assert(events[cards.len() as int] == turn);
            },
            SystemAction::PlayDealer => {
                let hand = state.dealer.hand;
                let rest = spec_undealt(state);
                let dealer = state.dealer.dealer_id;
                let drawn = choose|drawn: int| spec_dealer_stops(hand, rest, drawn);
                let dealt = Seq::new(
                    drawn as nat,
                    |k: int| EventPayloadView::DealerCardDealt { dealer, card: rest[k] },
                );
                let told = if spec_hand_value(hand + rest.subrange(0, drawn)) is Bust {
                    dealt.push(EventPayloadView::DealerBust { dealer })
                } else {
                    dealt
                };
                let turn = EventPayloadView::PhaseChanged {
                    from: Phase::DealerTurn,
                    to: Phase::Payouts,
                };
                assert(events == told.push(turn));
                lemma_replay_keeps_stage(state, told);
                lemma_replay_push(state, told, turn);
                assert(events[told.len() as int] == turn);
            },
            SystemAction::Settle => {
                let turn = EventPayloadView::PhaseChanged {
                    from: Phase::Payouts,
                    to: Phase::Finished,
                };
                let end = EventPayloadView::GameFinished { result: spec_settle(state) };
                assert(events =~= none.push(turn).push(end));
                lemma_replay_push(state, none, turn);
                lemma_replay_push(state, none.push(turn), end);
                assert(events[0] == turn);
            },
        },
    }
}

} // verus!
