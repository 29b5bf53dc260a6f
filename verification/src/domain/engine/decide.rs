//! The judge: it holds a command against a state and finds, as the rules
//! say, the events that it leads to or the reason to refuse it. The state is
//! only read.

use crate::domain::card::{Card, Rank, ShoeError};
use crate::domain::engine::action::PlayerDecision;
use crate::domain::engine::command::{CommandError, GameCommand, SystemAction};
use crate::domain::engine::event::{
    EventPayload, EventPayloadView, GameResult, Payout, PlayerOutcome, PlayerResult,
};
use crate::domain::engine::game_state::GameState;
use crate::domain::engine::phase::Phase;
use crate::domain::engine::rules::{
    spec_acting_seat, spec_cards_held, spec_dealer_stops, spec_dealt, spec_deal_event,
    spec_decide, spec_decide_bet, spec_decide_deal, spec_decide_dealer, spec_decide_hit,
    spec_decide_remove, spec_decide_seat, spec_decide_settle, spec_decide_stand,
    spec_decide_start, spec_decision_view, spec_outcome, spec_payload_views, spec_player_result,
    spec_settle, spec_turn_after, spec_undealt, DEALER_STANDS_AT,
};
use crate::domain::hand::{
    lemma_hard_total_push, lemma_has_ace_push, spec_hand_value, spec_hard_total, spec_has_ace,
    spec_is_blackjack, Hand, HandValue,
};
use crate::domain::player::{BetError, PlayerId, PlayerStateView};
use vstd::prelude::*;

verus! {

/// The players of a part of the row and those of the rest hold together what
/// the whole row holds.
pub proof fn lemma_cards_held_split(players: Seq<PlayerStateView>, at: int)
    requires
        0 <= at <= players.len(),
    ensures
        spec_cards_held(players) == spec_cards_held(players.subrange(0, at)) + spec_cards_held(
            players.subrange(at, players.len() as int),
        ),
    decreases players.len(),
{
    if at == players.len() {
        assert(players.subrange(0, at) =~= players);
        assert(players.subrange(at, players.len() as int) =~= Seq::<PlayerStateView>::empty());
    } else {
        let rest = players.subrange(at, players.len() as int);
        lemma_cards_held_split(players.drop_last(), at);
        assert(players.drop_last().subrange(0, at) =~= players.subrange(0, at));
        assert(players.drop_last().subrange(at, players.len() - 1) =~= rest.drop_last());
        assert(rest.last() == players.last());
    }
}

/// The dealer stops after one number of cards at most.
pub proof fn lemma_dealer_stops_once(hand: Seq<Card>, rest: Seq<Card>, drawn: int, other: int)
    requires
        spec_dealer_stops(hand, rest, drawn),
        spec_dealer_stops(hand, rest, other),
    ensures
        drawn == other,
{
    if drawn < other {
        assert(spec_hand_value(hand + rest.subrange(0, drawn)).spec_best() < DEALER_STANDS_AT);
    }
    if other < drawn {
        assert(spec_hand_value(hand + rest.subrange(0, other)).spec_best() < DEALER_STANDS_AT);
    }
}

/// How many cards of the shoe have been dealt, or `None` where the count
/// does not fit.
pub fn dealt(state: &GameState) -> (count: Option<usize>)
    ensures
        count is Some <==> spec_dealt(state@) <= usize::MAX,
        count is Some ==> count->Some_0 == spec_dealt(state@),
{
    let mut total: usize = state.dealer.hand.cards.len();
    let mut i: usize = 0;
    while i < state.players.len()
        invariant
            i <= state.players@.len(),
            total == state@.dealer.hand.len() + spec_cards_held(state@.players.subrange(0, i as int)),
        decreases state.players@.len() - i,
    {
        let held = state.players[i].hand.cards.len();
        proof {
            let more = state@.players.subrange(0, i as int + 1);
            assert(more.drop_last() =~= state@.players.subrange(0, i as int));
            assert(more.last() == state@.players[i as int]);
            lemma_cards_held_split(state@.players, i as int + 1);
        }
        if held > usize::MAX - total {
            return None;
        }
        total += held;
        i += 1;
    }
    assert(state@.players.subrange(0, i as int) =~= state@.players);
    Some(total)
}

/// The stage in which the player at seat `next` acts, or the dealer's turn
/// where the seats end before.
fn turn_at(state: &GameState, next: usize) -> (phase: Phase)
    ensures
        phase == spec_turn_after(state@.players, next - 1),
{
    if next < state.players.len() {
        Phase::PlayerTurn(state.players[next].player_id)
    } else {
        Phase::DealerTurn
    }
}

/// Whether the game awaits bets, on which the commands before the deal depend.
fn awaits_bets(state: &GameState) -> (waiting: bool)
    ensures
        waiting == (state@.phase == Phase::WaitingForBets),
{
    match state.phase {
        Phase::WaitingForBets => true,
        _ => false,
    }
}

/// Judges a bet.
fn decide_bet(state: &GameState, player: PlayerId, amount: u32) -> (result: Result<
    Vec<EventPayload>,
    CommandError,
>)
    ensures
        spec_decision_view(result) == spec_decide_bet(state@, player, amount),
{
    if !awaits_bets(state) {
        return Err(CommandError::WrongPhase);
    }
    let seat = match state.seat(player) {
        Some(seat) => seat,
        None => {
            return Err(CommandError::WrongActor);
        },
    };
    if state.players[seat].bet.is_some() {
        return Err(CommandError::IllegalAction);
    }
    if amount > state.players[seat].balance {
        return Err(CommandError::Bet(BetError::InsufficientFunds));
    }
    if amount == 0 {
        return Err(CommandError::Bet(BetError::InvalidAmount));
    }
    let mut events: Vec<EventPayload> = Vec::new();
    events.push(EventPayload::PlayerPlacedBet { player, amount });
    assert(spec_payload_views(events@) =~= seq![
        EventPayloadView::PlayerPlacedBet { player, amount },
    ]);
    Ok(events)
}

/// The seat of the player who asks to hit or stand, where the player may.
fn acting_seat(state: &GameState, player: PlayerId) -> (result: Result<usize, CommandError>)
    ensures
        result is Ok ==> result->Ok_0 < state.players.len() && spec_acting_seat(state@, player)
            == Ok::<int, CommandError>(result->Ok_0 as int),
        result is Err ==> spec_acting_seat(state@, player) == Err::<int, CommandError>(
            result->Err_0,
        ),
{
    match state.phase {
        Phase::PlayerTurn(active) => {
            if active.0 != player.0 {
                return Err(CommandError::WrongActor);
            }
            match state.seat(player) {
                Some(seat) => Ok(seat),
                None => Err(CommandError::IllegalAction),
            }
        },
        _ => Err(CommandError::WrongPhase),
    }
}

/// Judges a hit.
fn decide_hit(state: &GameState, player: PlayerId) -> (result: Result<
    Vec<EventPayload>,
    CommandError,
>)
    ensures
        spec_decision_view(result) == spec_decide_hit(state@, player),
{
    let seat = match acting_seat(state, player) {
        Ok(seat) => seat,
        Err(error) => {
            return Err(error);
        },
    };
    let cards = state.shoe.cards();
    assert(state@.shoe.flatten().len() == cards.len());
    let place = match dealt(state) {
        Some(place) => place,
        None => {
            return Err(CommandError::Shoe(ShoeError::Empty));
        },
    };
    if place >= cards.len() {
        return Err(CommandError::Shoe(ShoeError::Empty));
    }
    let card = cards[place];
    proof {
        lemma_hard_total_push(state@.players[seat as int].hand, card);
    }
    let hand = &state.players[seat].hand;
    let held = hand.hard_total();
    assert(held <= 10 * hand.cards.len());
    let hard = held + card.rank.hard_points() as u128;
    let mut events: Vec<EventPayload> = Vec::new();
    events.push(EventPayload::PlayerDecisionTaken { player, action: PlayerDecision::Hit });
    events.push(EventPayload::PlayerCardDealt { player, card });
    if hard > 21 {
        events.push(EventPayload::PlayerBust { player });
        events.push(EventPayload::PhaseChanged { from: state.phase, to: turn_at(state, seat + 1) });
    }
    assert(spec_payload_views(events@) =~= spec_decide_hit(state@, player)->Ok_0);
    Ok(events)
}

/// Judges a stand.
fn decide_stand(state: &GameState, player: PlayerId) -> (result: Result<
    Vec<EventPayload>,
    CommandError,
>)
    ensures
        spec_decision_view(result) == spec_decide_stand(state@, player),
{
    let seat = match acting_seat(state, player) {
        Ok(seat) => seat,
        Err(error) => {
            return Err(error);
        },
    };
    let mut events: Vec<EventPayload> = Vec::new();
    events.push(EventPayload::PlayerDecisionTaken { player, action: PlayerDecision::Stand });
    events.push(EventPayload::PhaseChanged { from: state.phase, to: turn_at(state, seat + 1) });
    assert(spec_payload_views(events@) =~= spec_decide_stand(state@, player)->Ok_0);
    Ok(events)
}

/// Judges the seating of a player.
fn decide_seat(state: &GameState, player: PlayerId) -> (result: Result<
    Vec<EventPayload>,
    CommandError,
>)
    ensures
        spec_decision_view(result) == spec_decide_seat(state@, player),
{
    if !awaits_bets(state) {
        return Err(CommandError::WrongPhase);
    }
    if state.seat(player).is_some() {
        return Err(CommandError::IllegalAction);
    }
    let mut events: Vec<EventPayload> = Vec::new();
    events.push(EventPayload::PlayerJoined { player });
    assert(spec_payload_views(events@) =~= seq![EventPayloadView::PlayerJoined { player }]);
    Ok(events)
}

/// Judges the removal of a player.
fn decide_remove(state: &GameState, player: PlayerId) -> (result: Result<
    Vec<EventPayload>,
    CommandError,
>)
    ensures
        spec_decision_view(result) == spec_decide_remove(state@, player),
{
    if !awaits_bets(state) {
        return Err(CommandError::WrongPhase);
    }
    if state.seat(player).is_none() {
        return Err(CommandError::WrongActor);
    }
    let mut events: Vec<EventPayload> = Vec::new();
    events.push(EventPayload::PlayerLeft { player });
    assert(spec_payload_views(events@) =~= seq![EventPayloadView::PlayerLeft { player }]);
    Ok(events)
}

/// Judges the closing of the betting.
fn decide_start(state: &GameState) -> (result: Result<Vec<EventPayload>, CommandError>)
    ensures
        spec_decision_view(result) == spec_decide_start(state@),
{
    if !awaits_bets(state) {
        return Err(CommandError::WrongPhase);
    }
    let mut events: Vec<EventPayload> = Vec::new();
    events.push(EventPayload::GameStarted);
    events.push(
        EventPayload::PhaseChanged { from: Phase::WaitingForBets, to: Phase::InitialDealing },
    );
    assert(spec_payload_views(events@) =~= spec_decide_start(state@)->Ok_0);
    Ok(events)
}

/// Judges the first deal.
fn decide_deal(state: &GameState) -> (result: Result<Vec<EventPayload>, CommandError>)
    ensures
        spec_decision_view(result) == spec_decide_deal(state@),
{
    match state.phase {
        Phase::InitialDealing => {},
        _ => {
            return Err(CommandError::WrongPhase);
        },
    }
    let cards = state.shoe.cards();
    assert(state@.shoe.flatten().len() == cards.len());
    let players = state.players.len();
    let first = match dealt(state) {
        Some(first) => first,
        None => {
            return Err(CommandError::Shoe(ShoeError::Empty));
        },
    };
    if first > cards.len() || players >= (cards.len() - first) / 2 {
        return Err(CommandError::Shoe(ShoeError::Empty));
    }
    let count = 2 * (players + 1);
    let mut events: Vec<EventPayload> = Vec::new();
    let mut k: usize = 0;
    while k < count
        invariant
            k <= count,
            count == 2 * (players + 1),
            players == state.players.len(),
            first + count <= cards.len(),
            first == spec_dealt(state@),
            cards@ == state@.shoe.flatten(),
            events@.len() == k,
            forall|j: int| 0 <= j < k ==> (#[trigger] events@[j])@ == spec_deal_event(state@, j),
        decreases count - k,
    {
        let place = k % (players + 1);
        let card = cards[first + k];
        if place < players {
            events.push(
                EventPayload::PlayerCardDealt { player: state.players[place].player_id, card },
            );
        } else {
            events.push(EventPayload::DealerCardDealt { dealer: state.dealer.dealer_id, card });
        }
        k += 1;
    }
    events.push(EventPayload::PhaseChanged { from: Phase::InitialDealing, to: turn_at(state, 0) });
    assert(spec_payload_views(events@) =~= spec_decide_deal(state@)->Ok_0);
    Ok(events)
}

/// Judges the dealer's play.
fn decide_dealer(state: &GameState) -> (result: Result<Vec<EventPayload>, CommandError>)
    ensures
        spec_decision_view(result) == spec_decide_dealer(state@),
{
    match state.phase {
        Phase::DealerTurn => {},
        _ => {
            return Err(CommandError::WrongPhase);
        },
    }
    let cards = state.shoe.cards();
    assert(state@.shoe.flatten().len() == cards.len());
    let ghost hand = state@.dealer.hand;
    let ghost rest = spec_undealt(state@);
    let dealer = state.dealer.dealer_id;
    let (held, held_ace) = state.dealer.hand.tally();
    let mut hard: u128 = held;
    let mut ace: bool = held_ace;
    let mut events: Vec<EventPayload> = Vec::new();
    assert(hand + rest.subrange(0, 0) =~= hand);
    // With more cards dealt than the shoe holds there is nothing left to draw.
    let first = match dealt(state) {
        Some(first) => if first <= cards.len() {
            first
        } else {
            cards.len()
        },
        None => cards.len(),
    };
    assert(rest =~= cards@.subrange(first as int, cards.len() as int));
    let mut drawn: usize = 0;
    while HandValue::of(hard, ace).best() < DEALER_STANDS_AT
        invariant
            first + drawn <= cards.len(),
            state@.phase == Phase::DealerTurn,
            rest == spec_undealt(state@),
            rest == cards@.subrange(first as int, cards.len() as int),
            hand == state@.dealer.hand,
            dealer == state@.dealer.dealer_id,
            hard == spec_hard_total(hand + rest.subrange(0, drawn as int)),
            ace == spec_has_ace(hand + rest.subrange(0, drawn as int)),
            hard <= 10 * (state.dealer.hand.cards.len() + drawn),
            events@.len() == drawn,
            forall|k: int|
                0 <= k < drawn ==> (#[trigger] events@[k])@ == (EventPayloadView::DealerCardDealt {
                    dealer,
                    card: rest[k],
                }),
            forall|fewer: int|
                0 <= fewer < drawn ==> spec_hand_value(
                    hand + #[trigger] rest.subrange(0, fewer),
                ).spec_best() < DEALER_STANDS_AT,
        decreases cards.len() - first - drawn,
    {
        if first + drawn >= cards.len() {
            proof {
                assert(rest.len() == drawn);
                assert forall|stop: int| !spec_dealer_stops(hand, rest, stop) by {
                    if spec_dealer_stops(hand, rest, stop) {
                        if stop < drawn {
                            assert(spec_hand_value(hand + rest.subrange(0, stop)).spec_best()
                                < DEALER_STANDS_AT);
                        } else {
                            assert(stop == drawn);
                        }
                    }
                }
            }
            return Err(CommandError::Shoe(ShoeError::Empty));
        }
        let card = cards[first + drawn];
        proof {
            let before = hand + rest.subrange(0, drawn as int);
            assert(hand + rest.subrange(0, drawn as int + 1) =~= before.push(card));
            lemma_hard_total_push(before, card);
            lemma_has_ace_push(before, card);
        }
        hard += card.rank.hard_points() as u128;
        if card.rank == Rank::Ace {
            ace = true;
        }
        events.push(EventPayload::DealerCardDealt { dealer, card });
        drawn += 1;
    }
    proof {
        assert(spec_dealer_stops(hand, rest, drawn as int));
        let chosen = choose|stop: int| spec_dealer_stops(hand, rest, stop);
        lemma_dealer_stops_once(hand, rest, drawn as int, chosen);
    }
    if HandValue::of(hard, ace).is_bust() {
        events.push(EventPayload::DealerBust { dealer });
    }
    events.push(EventPayload::PhaseChanged { from: Phase::DealerTurn, to: Phase::Payouts });
    assert(spec_payload_views(events@) =~= spec_decide_dealer(state@)->Ok_0);
    Ok(events)
}

/// How a hand fares against the dealer's, of which the value is given and
/// whether it is a blackjack.
fn outcome_against(player: &Hand, dealer: &Hand, theirs: HandValue, dealer_blackjack: bool) -> (outcome:
    PlayerOutcome)
    requires
        theirs == spec_hand_value(dealer@),
        dealer_blackjack == spec_is_blackjack(dealer@),
    ensures
        outcome == spec_outcome(player@, dealer@),
{
    let ours = player.value();
    if ours.is_bust() {
        PlayerOutcome::Bust
    } else if player.is_blackjack() {
        if dealer_blackjack {
            PlayerOutcome::Push
        } else {
            PlayerOutcome::Blackjack
        }
    } else if theirs.is_bust() {
        PlayerOutcome::Won
    } else if dealer_blackjack {
        PlayerOutcome::Lost
    } else if ours.best() > theirs.best() {
        PlayerOutcome::Won
    } else if ours.best() == theirs.best() {
        PlayerOutcome::Push
    } else {
        PlayerOutcome::Lost
    }
}

/// How the game ends as the hands stand: a result for every player in the
/// order of the seats.
pub fn settle(state: &GameState) -> (result: GameResult)
    ensures
        result@ == spec_settle(state@),
{
    let theirs = state.dealer.hand.value();
    let dealer_blackjack = state.dealer.hand.is_blackjack();
    let mut player_results: Vec<PlayerResult> = Vec::new();
    let mut i: usize = 0;
    while i < state.players.len()
        invariant
            i <= state.players@.len(),
            theirs == spec_hand_value(state@.dealer.hand),
            dealer_blackjack == spec_is_blackjack(state@.dealer.hand),
            player_results@.len() == i,
            forall|k: int|
                0 <= k < i ==> #[trigger] player_results@[k] == spec_player_result(
                    state@.players[k],
                    state@.dealer.hand,
                ),
        decreases state.players@.len() - i,
    {
        let player = &state.players[i];
        let outcome = outcome_against(&player.hand, &state.dealer.hand, theirs, dealer_blackjack);
        let bet = match player.bet {
            Some(bet) => bet,
            None => 0,
        };
        player_results.push(
            PlayerResult {
                player: player.player_id,
                outcome,
                payout: Payout::new(bet, outcome.multiplier()),
            },
        );
        i += 1;
    }
    let result = GameResult { player_results, dealer_busted: theirs.is_bust() };
    assert(result@.player_results =~= spec_settle(state@).player_results);
    result
}

/// Judges the settling of the bets.
fn decide_settle(state: &GameState) -> (result: Result<Vec<EventPayload>, CommandError>)
    ensures
        spec_decision_view(result) == spec_decide_settle(state@),
{
    match state.phase {
        Phase::Payouts => {},
        _ => {
            return Err(CommandError::WrongPhase);
        },
    }
    let mut events: Vec<EventPayload> = Vec::new();
    events.push(EventPayload::PhaseChanged { from: Phase::Payouts, to: Phase::Finished });
    events.push(EventPayload::GameFinished { result: settle(state) });
    assert(spec_payload_views(events@) =~= spec_decide_settle(state@)->Ok_0);
    Ok(events)
}

/// Judges a command against a state: the events that it leads to, in the
/// order in which they happen, or the reason for which it is refused. The
/// state is only read.
pub fn decide(state: &GameState, command: &GameCommand) -> (result: Result<
    Vec<EventPayload>,
    CommandError,
>)
    ensures
        spec_decision_view(result) == spec_decide(state@, *command),
{
    if command.game_id().0 != state.game_id.0 {
        return Err(CommandError::WrongGame);
    }
    match command {
        GameCommand::Player(command) => match command.action {
            PlayerDecision::Bet { amount } => decide_bet(state, command.player_id, amount),
            PlayerDecision::Hit => decide_hit(state, command.player_id),
            PlayerDecision::Stand => decide_stand(state, command.player_id),
        },
        GameCommand::System(command) => match command.action {
            SystemAction::SeatPlayer { player } => decide_seat(state, player),
            SystemAction::RemovePlayer { player } => decide_remove(state, player),
            SystemAction::StartGame => decide_start(state),
            SystemAction::DealInitialCards => decide_deal(state),
            SystemAction::PlayDealer => decide_dealer(state),
            SystemAction::Settle => decide_settle(state),
        },
    }
}

} // verus!
