use crate::domain::card::{Card, Shoe};
use crate::domain::dealer::{DealerId, DealerState, DealerStateView};
use crate::domain::engine::event::{
    EventPayload, EventPayloadView, GameEvent, GameEventView, GameId, GameResult, GameResultView,
};
use crate::domain::engine::phase::Phase;
use crate::domain::player::{PlayerId, PlayerState, PlayerStateView};
use vstd::prelude::*;

verus! {

/// Everything that is known of one game. It changes only by events.
#[derive(Debug)]
pub struct GameState {
    pub game_id: GameId,
    pub phase: Phase,
    pub shoe: Shoe,
    /// The players in the order in which they sit, which is the order of play.
    pub players: Vec<PlayerState>,
    pub dealer: DealerState,
    /// How the game ended, once it has.
    pub result: Option<GameResult>,
}

/// The state of a game as plain values.
pub struct GameStateView {
    pub game_id: GameId,
    pub phase: Phase,
    pub shoe: Seq<Seq<Card>>,
    pub players: Seq<PlayerStateView>,
    pub dealer: DealerStateView,
    pub result: Option<GameResultView>,
}

/// A row of players as plain values.
pub open spec fn spec_player_views(players: Seq<PlayerState>) -> Seq<PlayerStateView> {
    Seq::new(players.len(), |i: int| players[i]@)
}

/// Whether `seat` is where the player sits: the first place in the row that
/// holds the player's handle.
pub open spec fn spec_is_seat(players: Seq<PlayerStateView>, player: PlayerId, seat: int) -> bool {
    &&& 0 <= seat < players.len()
    &&& players[seat].player_id == player
    &&& forall|j: int| 0 <= j < seat ==> (#[trigger] players[j]).player_id != player
}

/// Where the player sits, if the player sits in the row.
pub open spec fn spec_seat(players: Seq<PlayerStateView>, player: PlayerId) -> Option<int> {
    if exists|seat: int| spec_is_seat(players, player, seat) {
        Some(choose|seat: int| spec_is_seat(players, player, seat))
    } else {
        None
    }
}

/// Says of a player that it is not the one named.
pub open spec fn spec_is_other(player: PlayerId) -> spec_fn(PlayerStateView) -> bool {
    |p: PlayerStateView| p.player_id != player
}

/// The events of a log without their game and number.
pub open spec fn spec_payloads(events: Seq<GameEventView>) -> Seq<EventPayloadView> {
    Seq::new(events.len(), |i: int| events[i].payload)
}

/// A row of events as plain values.
pub open spec fn spec_event_views(events: Seq<GameEvent>) -> Seq<GameEventView> {
    Seq::new(events.len(), |i: int| events[i]@)
}

impl View for GameState {
    type V = GameStateView;

    open spec fn view(&self) -> GameStateView {
        GameStateView {
            game_id: self.game_id,
            phase: self.phase,
            shoe: self.shoe@,
            players: spec_player_views(self.players@),
            dealer: self.dealer@,
            result: match self.result {
                Some(result) => Some(result@),
                None => None,
            },
        }
    }
}

impl GameStateView {
    /// The state with the player at `seat` replaced.
    pub open spec fn spec_with_player(self, seat: int, player: PlayerStateView) -> GameStateView {
        GameStateView { players: self.players.update(seat, player), ..self }
    }

    /// The state in the stage `to`, where the game may go there from the stage
    /// it is in, and else the state as it is.
    pub open spec fn spec_advance(self, to: Phase) -> GameStateView {
        if self.phase.spec_may_go_to(to) {
            GameStateView { phase: to, ..self }
        } else {
            self
        }
    }

    /// The state after an event. Each kind of event changes one thing:
    /// - `PlayerJoined` seats a new player, with no money, behind the others;
    /// - `PlayerLeft` takes every player with that handle from the table;
    /// - `PlayerPlacedBet` takes the amount from the balance of the player, as
    ///   far as the balance goes, and sets the bet;
    /// - `GameStarted` moves a game that awaits bets on to the first deal;
    /// - `PhaseChanged` moves the game to the stage `to`, where that is a later
    ///   stage or the turn passes from one player to another;
    /// - `GameFinished` records how the game ended and ends it;
    /// - `PlayerCardDealt` and `DealerCardDealt` put the card at the end of
    ///   the hand;
    /// - `PlayerDecisionTaken` puts the decision at the end of the player's log;
    /// - `PlayerBust` and `DealerBust` change nothing: the hand tells it already.
    /// An event for a player who does not sit at the table changes nothing.
    pub open spec fn spec_apply(self, payload: EventPayloadView) -> GameStateView {
        match payload {
            EventPayloadView::PlayerJoined { player } => GameStateView {
                players: self.players.push(PlayerStateView::spec_with_balance(player, 0)),
                ..self
            },
            EventPayloadView::PlayerLeft { player } => GameStateView {
                players: self.players.filter(spec_is_other(player)),
                ..self
            },
            EventPayloadView::PlayerPlacedBet { player, amount } => match spec_seat(
                self.players,
                player,
            ) {
                Some(seat) => self.spec_with_player(seat, self.players[seat].spec_with_bet(amount)),
                None => self,
            },
            EventPayloadView::GameStarted => self.spec_advance(Phase::InitialDealing),
            EventPayloadView::PhaseChanged { from, to } => self.spec_advance(to),
            EventPayloadView::GameFinished { result } => GameStateView {
                phase: Phase::Finished,
                result: Some(result),
                ..self
            },
            EventPayloadView::PlayerCardDealt { player, card } => match spec_seat(
                self.players,
                player,
            ) {
                Some(seat) => self.spec_with_player(seat, self.players[seat].spec_with_card(card)),
                None => self,
            },
            EventPayloadView::DealerCardDealt { dealer, card } => GameStateView {
                dealer: DealerStateView { hand: self.dealer.hand.push(card), ..self.dealer },
                ..self
            },
            EventPayloadView::PlayerDecisionTaken { player, action } => match spec_seat(
                self.players,
                player,
            ) {
                Some(seat) => self.spec_with_player(
                    seat,
                    self.players[seat].spec_with_decision(action),
                ),
                None => self,
            },
            EventPayloadView::PlayerBust { player } => self,
            EventPayloadView::DealerBust { dealer } => self,
        }
    }

    /// The state after the events of a log, folded in from the first to the last.
    pub open spec fn spec_replay(self, log: Seq<EventPayloadView>) -> GameStateView
        decreases log.len(),
    {
        if log.len() == 0 {
            self
        } else {
            self.spec_replay(log.drop_last()).spec_apply(log.last())
        }
    }
}

impl GameState {
    /// A game that awaits bets, with the given shoe and dealer and one player
    /// without money, cards or bet for each handle, in the order given.
    pub fn new(game_id: GameId, shoe: Shoe, players: Vec<PlayerId>, dealer: DealerId) -> (state:
        GameState)
        ensures
            state@ == (GameStateView {
                game_id,
                phase: Phase::WaitingForBets,
                shoe: shoe@,
                players: Seq::new(
                    players@.len(),
                    |i: int| PlayerStateView::spec_with_balance(players@[i], 0),
                ),
                dealer: DealerStateView { dealer_id: dealer, hand: Seq::empty() },
                result: None,
            }),
    {
        let mut seated: Vec<PlayerState> = Vec::new();
        let mut i: usize = 0;
        while i < players.len()
            invariant
                i <= players@.len(),
                seated@.len() == i,
                forall|k: int|
                    0 <= k < i ==> (#[trigger] seated@[k])@ == PlayerStateView::spec_with_balance(
                        players@[k],
                        0,
                    ),
            decreases players@.len() - i,
        {
            seated.push(PlayerState::new(players[i]));
            i += 1;
        }
        let state = GameState {
            game_id,
            phase: Phase::WaitingForBets,
            shoe,
            players: seated,
            dealer: DealerState::new(dealer),
            result: None,
        };
        assert(state@.players =~= Seq::new(
            players@.len(),
            |i: int| PlayerStateView::spec_with_balance(players@[i], 0),
        ));
        state
    }

    /// Where the player sits: the first place in the row with the player's
    /// handle, if there is one.
    pub fn seat(&self, player: PlayerId) -> (seat: Option<usize>)
        ensures
            seat is Some <==> spec_seat(self@.players, player) is Some,
            seat is Some ==> seat->Some_0 as int == spec_seat(self@.players, player)->Some_0,
            seat is Some ==> spec_is_seat(self@.players, player, seat->Some_0 as int),
    {
        let mut i: usize = 0;
        while i < self.players.len()
            invariant
                i <= self.players@.len(),
                forall|j: int| 0 <= j < i ==> (#[trigger] self@.players[j]).player_id != player,
            decreases self.players@.len() - i,
        {
            if self.players[i].player_id.0 == player.0 {
                proof {
                    assert(self@.players[i as int].player_id == player);
                    lemma_seat_is_first(self@.players, player, i as int);
                }
                return Some(i);
            }
            assert(self@.players[i as int].player_id != player);
            i += 1;
        }
        proof {
            if spec_seat(self@.players, player) is Some {
                let seat = choose|seat: int| spec_is_seat(self@.players, player, seat);
                assert(self@.players[seat].player_id == player);
            }
        }
        None
    }

    /// Takes every player with the given handle from the table.
    fn remove_player(&mut self, player: PlayerId)
        ensures
            final(self)@ == (GameStateView {
                players: old(self)@.players.filter(spec_is_other(player)),
                ..old(self)@
            }),
    {
        let ghost before = self@.players;
        let ghost seen: int = 0;
        let mut i: usize = 0;
        proof {
            reveal_with_fuel(Seq::<_>::filter, 2);
            assert(before.subrange(0, 0).filter(spec_is_other(player)) =~= Seq::<
                PlayerStateView,
            >::empty());
            assert(self@.players =~= before.subrange(0, 0).filter(spec_is_other(player))
                + before.subrange(0, before.len() as int));
        }
        while i < self.players.len()
            invariant
                0 <= seen <= before.len(),
                i <= self.players@.len(),
                before == old(self)@.players,
                self@ == (GameStateView { players: self@.players, ..old(self)@ }),
                i == before.subrange(0, seen).filter(spec_is_other(player)).len(),
                self@.players == before.subrange(0, seen).filter(spec_is_other(player))
                    + before.subrange(seen, before.len() as int),
            decreases self.players@.len() - i,
        {
            proof {
                reveal_with_fuel(Seq::<_>::filter, 2);
                assert(before.subrange(0, seen + 1).drop_last() =~= before.subrange(0, seen));
                assert(before.subrange(0, seen + 1).last() == before[seen]);
                assert(self@.players[i as int] == before[seen]);
            }
            let ghost row = self@.players;
            if self.players[i].player_id.0 == player.0 {
                let _ = self.players.remove(i);
                proof {
                    assert(before[seen].player_id == player);
                    assert(!spec_is_other(player)(before[seen]));
                    assert(self@.players =~= row.remove(i as int));
                    assert(self@.players =~= before.subrange(0, seen + 1).filter(
                        spec_is_other(player),
                    ) + before.subrange(seen + 1, before.len() as int));
                    seen = seen + 1;
                }
            } else {
                proof {
                    assert(self@.players =~= before.subrange(0, seen + 1).filter(
                        spec_is_other(player),
                    ) + before.subrange(seen + 1, before.len() as int));
                    seen = seen + 1;
                }
                i += 1;
            }
        }
        proof {
            assert(before.subrange(0, seen) =~= before);
            assert(self@.players =~= before.filter(spec_is_other(player)));
        }
    }

    /// Folds one event into the state, as `GameStateView::spec_apply` says.
    /// The game and the number of the event are not looked at.
    pub fn apply_event(&mut self, game_event: &GameEvent)
        ensures
            final(self)@ == old(self)@.spec_apply(game_event@.payload),
    {
        match &game_event.payload {
            EventPayload::PlayerJoined { player } => {
                self.players.push(PlayerState::new(*player));
                assert(self@.players =~= old(self)@.players.push(
                    PlayerStateView::spec_with_balance(*player, 0),
                ));
            },
            EventPayload::PlayerLeft { player } => {
                self.remove_player(*player);
            },
            EventPayload::PlayerPlacedBet { player, amount } => {
                match self.seat(*player) {
                    Some(seat) => {
                        let balance = self.players[seat].balance;
                        self.players[seat].balance = if *amount <= balance {
                            balance - *amount
                        } else {
                            0
                        };
                        self.players[seat].bet = Some(*amount);
                        assert(self@.players =~= old(self)@.players.update(
                            seat as int,
                            old(self)@.players[seat as int].spec_with_bet(*amount),
                        ));
                    },
                    None => {},
                }
            },
            EventPayload::GameStarted => {
                if self.phase.may_go_to(&Phase::InitialDealing) {
                    self.phase = Phase::InitialDealing;
                }
            },
            EventPayload::PhaseChanged { from, to } => {
                if self.phase.may_go_to(to) {
                    self.phase = *to;
                }
            },
            EventPayload::GameFinished { result } => {
                self.phase = Phase::Finished;
                self.result = Some(result.clone());
            },
            EventPayload::PlayerCardDealt { player, card } => {
                match self.seat(*player) {
                    Some(seat) => {
                        self.players[seat].hand.add_card(*card);
                        assert(self@.players =~= old(self)@.players.update(
                            seat as int,
                            old(self)@.players[seat as int].spec_with_card(*card),
                        ));
                    },
                    None => {},
                }
            },
            EventPayload::DealerCardDealt { dealer, card } => {
                self.dealer.hand.add_card(*card);
            },
            EventPayload::PlayerDecisionTaken { player, action } => {
                match self.seat(*player) {
                    Some(seat) => {
                        self.players[seat].record_action(*action);
                        assert(self@.players =~= old(self)@.players.update(
                            seat as int,
                            old(self)@.players[seat as int].spec_with_decision(*action),
                        ));
                    },
                    None => {},
                }
            },
            EventPayload::PlayerBust { player } => {},
            EventPayload::DealerBust { dealer } => {},
        }
    }

    /// Folds a log into the state, event after event from the first.
    pub fn replay(&mut self, log: &Vec<GameEvent>)
        ensures
            final(self)@ == old(self)@.spec_replay(spec_payloads(spec_event_views(log@))),
    {
        let ghost payloads = spec_payloads(spec_event_views(log@));
        let mut i: usize = 0;
        while i < log.len()
            invariant
                i <= log@.len(),
                payloads == spec_payloads(spec_event_views(log@)),
                self@ == old(self)@.spec_replay(payloads.subrange(0, i as int)),
            decreases log@.len() - i,
        {
            proof {
                assert(payloads.subrange(0, i as int + 1).drop_last() =~= payloads.subrange(
                    0,
                    i as int,
                ));
                assert(payloads.subrange(0, i as int + 1).last() == log@[i as int]@.payload);
            }
            self.apply_event(&log[i]);
            i += 1;
        }
        assert(payloads.subrange(0, i as int) =~= payloads);
    }
}

/// The first place in the row with the player's handle is where the player sits.
pub proof fn lemma_seat_is_first(players: Seq<PlayerStateView>, player: PlayerId, seat: int)
    requires
        spec_is_seat(players, player, seat),
    ensures
        spec_seat(players, player) == Some(seat),
{
    let chosen = choose|s: int| spec_is_seat(players, player, s);
    assert(spec_is_seat(players, player, chosen));
    if chosen < seat {
        assert(players[chosen].player_id != player);
    }
    if seat < chosen {
        assert(players[seat].player_id != player);
    }
}

/// No event takes a game back: the stage after an event stands nowhere
/// before the stage it was in. So a game that has left the betting never
/// awaits bets again, and in a game that is finished no event changes the stage.
pub proof fn lemma_event_keeps_order(state: GameStateView, payload: EventPayloadView)
    ensures
        state.phase.spec_rank() <= state.spec_apply(payload).phase.spec_rank(),
        state.phase != Phase::WaitingForBets ==> state.spec_apply(payload).phase
            != Phase::WaitingForBets,
        state.phase == Phase::Finished ==> state.spec_apply(payload).phase == Phase::Finished,
{
}

/// No log takes a game back: what `lemma_event_keeps_order` says of one
/// event holds of any number of them, folded in one after the other.
pub proof fn lemma_replay_keeps_order(state: GameStateView, log: Seq<EventPayloadView>)
    ensures
        state.phase.spec_rank() <= state.spec_replay(log).phase.spec_rank(),
        state.phase != Phase::WaitingForBets ==> state.spec_replay(log).phase
            != Phase::WaitingForBets,
        state.phase == Phase::Finished ==> state.spec_replay(log).phase == Phase::Finished,
    decreases log.len(),
{
    if log.len() > 0 {
        lemma_replay_keeps_order(state, log.drop_last());
        lemma_event_keeps_order(state.spec_replay(log.drop_last()), log.last());
    }
}

/// Folding one log into equal states gives equal states: the state of a game
/// is a function of its first state and its log, and of nothing else.
pub proof fn lemma_replay_is_repeatable(
    first: GameStateView,
    second: GameStateView,
    log: Seq<EventPayloadView>,
    again: Seq<EventPayloadView>,
)
    requires
        first == second,
        log =~= again,
    ensures
        first.spec_replay(log) == second.spec_replay(again),
{
}

/// Folding in a log and then another gives what folding in the two as one
/// log gives: a game may be taken up again from any state of its past.
pub proof fn lemma_replay_in_parts(
    state: GameStateView,
    log: Seq<EventPayloadView>,
    more: Seq<EventPayloadView>,
)
    ensures
        state.spec_replay(log + more) == state.spec_replay(log).spec_replay(more),
    decreases more.len(),
{
    if more.len() == 0 {
        assert(log + more =~= log);
    } else {
        lemma_replay_in_parts(state, log, more.drop_last());
        assert((log + more).drop_last() =~= log + more.drop_last());
        assert((log + more).last() == more.last());
    }
}

/// No event touches the handle of the game, its shoe or the handle of its dealer.
pub proof fn lemma_event_keeps_game(state: GameStateView, payload: EventPayloadView)
    ensures
        state.spec_apply(payload).game_id == state.game_id,
        state.spec_apply(payload).shoe == state.shoe,
        state.spec_apply(payload).dealer.dealer_id == state.dealer.dealer_id,
{
}

/// No log touches the handle of the game, its shoe or the handle of its dealer.
pub proof fn lemma_replay_keeps_game(state: GameStateView, log: Seq<EventPayloadView>)
    ensures
        state.spec_replay(log).game_id == state.game_id,
        state.spec_replay(log).shoe == state.shoe,
        state.spec_replay(log).dealer.dealer_id == state.dealer.dealer_id,
    decreases log.len(),
{
    if log.len() > 0 {
        lemma_replay_keeps_game(state, log.drop_last());
        lemma_event_keeps_game(state.spec_replay(log.drop_last()), log.last());
    }
}

/// Folding in a log with one more event at its end is folding in the log
/// and then the event.
pub proof fn lemma_replay_push(
    state: GameStateView,
    log: Seq<EventPayloadView>,
    payload: EventPayloadView,
)
    ensures
        state.spec_replay(log.push(payload)) == state.spec_replay(log).spec_apply(payload),
        state.spec_replay(Seq::empty()) == state,
{
    assert(log.push(payload).drop_last() =~= log);
}

/// Whether an event is of a kind that can change the stage of a game.
pub open spec fn spec_moves_stage(payload: EventPayloadView) -> bool {
    payload is GameStarted || payload is PhaseChanged || payload is GameFinished
}

/// A log that holds no event of a kind that changes the stage leaves the
/// game in the stage it was in.
pub proof fn lemma_replay_keeps_stage(state: GameStateView, log: Seq<EventPayloadView>)
    requires
        forall|i: int| 0 <= i < log.len() ==> !spec_moves_stage(#[trigger] log[i]),
    ensures
        state.spec_replay(log).phase == state.phase,
    decreases log.len(),
{
    if log.len() > 0 {
        lemma_replay_keeps_stage(state, log.drop_last());
        assert(!spec_moves_stage(log.last()));
    }
}

} // verus!
