use crate::domain::engine::action::PlayerDecision;
use crate::domain::engine::command::{CommandError, CommandId, GameCommand, PlayerCommand};
use crate::domain::engine::event::{
    EventPayloadView, EventSeqId, GameEvent, GameEventView, GameId,
};
use crate::domain::engine::game_state::{
    lemma_replay_in_parts, lemma_replay_keeps_game, lemma_replay_keeps_order, spec_payloads,
    GameState, GameStateView,
};
use crate::domain::engine::phase::Phase;
use crate::domain::engine::decide::decide;
use crate::domain::engine::rules::{spec_decide, spec_payload_views};
use vstd::prelude::*;

verus! {

/// How many handles of commands an engine remembers. A command that comes
/// again after that many others have been carried out is taken for a new one.
pub const COMMAND_WINDOW: usize = 1024;

/// The owner of one game: it judges the commands for the game, numbers the
/// events that they lead to, and folds them into the state.
#[derive(Debug)]
pub struct GameEngine {
    pub state: GameState,
    /// The number that the next event gets.
    pub next_seq: EventSeqId,
    /// The handles of the commands carried out last, oldest first.
    pub processed: Vec<CommandId>,
}

/// An engine as plain values.
pub struct GameEngineView {
    pub state: GameStateView,
    pub next_seq: EventSeqId,
    pub processed: Seq<CommandId>,
}

/// What came of a command: the events, or the reason for the refusal.
pub type Handled = Result<Seq<GameEventView>, CommandError>;

/// The handles remembered after one more command: the new one behind the
/// others, of which the oldest are dropped to keep within the window.
pub open spec fn spec_remember(processed: Seq<CommandId>, id: CommandId) -> Seq<CommandId> {
    if processed.len() >= COMMAND_WINDOW {
        processed.subrange(processed.len() - COMMAND_WINDOW + 1, processed.len() as int).push(id)
    } else {
        processed.push(id)
    }
}

/// The events of a game numbered from `first` on without a gap.
pub open spec fn spec_numbered(payloads: Seq<EventPayloadView>, game_id: GameId, first: int) -> Seq<
    GameEventView,
> {
    Seq::new(
        payloads.len(),
        |i: int|
            GameEventView {
                game_id,
                event_seq_id: EventSeqId((first + i) as u64),
                payload: payloads[i],
            },
    )
}

/// What came of a command, as plain values.
pub open spec fn spec_handled_view(result: Result<Vec<GameEvent>, CommandError>) -> Handled {
    match result {
        Ok(events) => Ok(Seq::new(events@.len(), |i: int| events@[i]@)),
        Err(error) => Err(error),
    }
}

impl View for GameEngine {
    type V = GameEngineView;

    open spec fn view(&self) -> GameEngineView {
        GameEngineView {
            state: self.state@,
            next_seq: self.next_seq,
            processed: self.processed@,
        }
    }
}

impl GameEngineView {
    /// The engine after a command, and what the caller gets.
    /// - A command for another game is refused.
    /// - A command whose handle is remembered was carried out before: it
    ///   succeeds with no event, and nothing changes.
    /// - A command that the rules refuse is refused, and nothing changes.
    /// - A command that would pass the last event number is refused too.
    /// - Any other command is carried out: its events get the next numbers,
    ///   they are folded into the state, and its handle is remembered.
    pub open spec fn spec_handle(self, command: GameCommand) -> (GameEngineView, Handled) {
        if command.spec_game_id() != self.state.game_id {
            (self, Err(CommandError::WrongGame))
        } else if self.processed.contains(command.spec_command_id()) {
            (self, Ok(Seq::empty()))
        } else {
            match spec_decide(self.state, command) {
                Err(error) => (self, Err(error)),
                Ok(payloads) => if self.next_seq.0 + payloads.len() > u64::MAX {
                    (self, Err(CommandError::SequenceExhausted))
                } else {
                    (
                        GameEngineView {
                            state: self.state.spec_replay(payloads),
                            next_seq: EventSeqId((self.next_seq.0 + payloads.len()) as u64),
                            processed: spec_remember(self.processed, command.spec_command_id()),
                        },
                        Ok(spec_numbered(payloads, self.state.game_id, self.next_seq.0 as int)),
                    )
                },
            }
        }
    }
}

impl GameEngine {
    /// An engine for a game in the given state, with no event numbered and no
    /// command carried out yet.
    pub fn new(state: GameState) -> (engine: GameEngine)
        ensures
            engine@ == (GameEngineView {
                state: state@,
                next_seq: EventSeqId(0),
                processed: Seq::empty(),
            }),
    {
        GameEngine { state, next_seq: EventSeqId::start(), processed: Vec::new() }
    }

    /// Whether a command with this handle is remembered as carried out.
    pub fn has_processed(&self, id: CommandId) -> (known: bool)
        ensures
            known == self@.processed.contains(id),
    {
        let mut i: usize = 0;
        while i < self.processed.len()
            invariant
                i <= self.processed@.len(),
                forall|k: int| 0 <= k < i ==> self.processed@[k] != id,
            decreases self.processed@.len() - i,
        {
            if self.processed[i].0 == id.0 {
                assert(self.processed@[i as int] == id);
                return true;
            }
            i += 1;
        }
        false
    }

    /// Remembers the handle of a command that was carried out.
    fn remember(&mut self, id: CommandId)
        ensures
            final(self)@ == (GameEngineView {
                processed: spec_remember(old(self)@.processed, id),
                ..old(self)@
            }),
    {
        let held = self.processed.len();
        if held >= COMMAND_WINDOW {
            let kept = self.processed.split_off(held - COMMAND_WINDOW + 1);
            self.processed = kept;
        }
        self.processed.push(id);
    }

    /// Handles one command, as `GameEngineView::spec_handle` says: either the
    /// command is refused and the engine is as before, or the events that it
    /// led to are returned, numbered on from the last, and the state is the
    /// one before with those events folded in.
    pub fn handle(&mut self, command: &GameCommand) -> (result: Result<Vec<GameEvent>, CommandError>)
        ensures
            final(self)@ == old(self)@.spec_handle(*command).0,
            spec_handled_view(result) == old(self)@.spec_handle(*command).1,
            result is Err ==> final(self)@ == old(self)@,
    {
        if command.game_id().0 != self.state.game_id.0 {
            return Err(CommandError::WrongGame);
        }
        if self.has_processed(command.command_id()) {
            let none: Vec<GameEvent> = Vec::new();
            assert(spec_handled_view(Ok(none))->Ok_0 =~= Seq::<GameEventView>::empty());
            return Ok(none);
        }
        let payloads = match decide(&self.state, command) {
            Ok(payloads) => payloads,
            Err(error) => {
                return Err(error);
            },
        };
        let first = self.next_seq.0;
        if payloads.len() as u64 > u64::MAX - first {
            return Err(CommandError::SequenceExhausted);
        }
        let game_id = self.state.game_id;
        let ghost log = spec_payload_views(payloads@);
        let mut events: Vec<GameEvent> = Vec::new();
        let mut seq: u64 = first;
        for payload in it: payloads.into_iter()
            invariant
                it.seq() == payloads@,
                log == spec_payload_views(payloads@),
                first + payloads@.len() <= u64::MAX,
                seq == first + it.index(),
                events@.len() == it.index(),
                forall|k: int|
                    0 <= k < it.index() ==> (#[trigger] events@[k])@ == (GameEventView {
                        game_id,
                        event_seq_id: EventSeqId((first + k) as u64),
                        payload: log[k],
                    }),
                self.state@ == old(self).state@.spec_replay(log.subrange(0, it.index() as int)),
                self.next_seq == old(self).next_seq,
                self.processed == old(self).processed,
        {
            proof {
                let k = it.index() as int;
                assert(log.subrange(0, k + 1).drop_last() =~= log.subrange(0, k));
                assert(log.subrange(0, k + 1).last() == log[k]);
            }
            let event = GameEvent { game_id, event_seq_id: EventSeqId(seq), payload };
            self.state.apply_event(&event);
            events.push(event);
            seq += 1;
        }
        proof {
            assert(log.subrange(0, log.len() as int) =~= log);
            assert(spec_handled_view(Ok(events))->Ok_0 =~= spec_numbered(
                log,
                game_id,
                first as int,
            ));
        }
        self.next_seq = EventSeqId(seq);
        self.remember(command.command_id());
        Ok(events)
    }
}

/// A command that is refused changes nothing and leads to no event: the
/// engine after it is the engine before.
pub proof fn lemma_refusal_changes_nothing(engine: GameEngineView, command: GameCommand)
    requires
        engine.spec_handle(command).1 is Err,
    ensures
        engine.spec_handle(command).0 == engine,
{
}

/// A command for the game of the engine that is not remembered is refused
/// exactly when the rules refuse it or the event numbers run out, and for the
/// reason that the rules give.
pub proof fn lemma_refused_by_the_rules(engine: GameEngineView, command: GameCommand)
    requires
        command.spec_game_id() == engine.state.game_id,
        !engine.processed.contains(command.spec_command_id()),
    ensures
        spec_decide(engine.state, command) is Err ==> engine.spec_handle(command).1 == Err::<
            Seq<GameEventView>,
            CommandError,
        >(spec_decide(engine.state, command)->Err_0),
        engine.spec_handle(command).1 is Err ==> spec_decide(engine.state, command) is Err
            || engine.next_seq.0 + spec_decide(engine.state, command)->Ok_0.len() > u64::MAX,
{
}

/// A hit or a stand is refused outside the players' turns as out of place,
/// and within them from anyone but the player whose turn it is as from the
/// wrong player.
pub proof fn lemma_decision_out_of_turn(state: GameStateView, command: PlayerCommand)
    requires
        command.game_id == state.game_id,
        command.action == PlayerDecision::Hit || command.action == PlayerDecision::Stand,
    ensures
        !(state.phase is PlayerTurn) ==> spec_decide(state, GameCommand::Player(command)) == Err::<
            Seq<EventPayloadView>,
            CommandError,
        >(CommandError::WrongPhase),
        state.phase is PlayerTurn && state.phase != Phase::PlayerTurn(command.player_id)
            ==> spec_decide(state, GameCommand::Player(command)) == Err::<
            Seq<EventPayloadView>,
            CommandError,
        >(CommandError::WrongActor),
{
}

/// A bet is refused unless bets are awaited, whoever places it.
pub proof fn lemma_bet_out_of_phase(state: GameStateView, command: PlayerCommand)
    requires
        command.game_id == state.game_id,
        command.action is Bet,
        state.phase != Phase::WaitingForBets,
    ensures
        spec_decide(state, GameCommand::Player(command)) == Err::<
            Seq<EventPayloadView>,
            CommandError,
        >(CommandError::WrongPhase),
{
}

/// A command that is carried out takes the game nowhere back, and its events
/// bear the numbers that follow the last one used, each the next.
pub proof fn lemma_handled_in_order(engine: GameEngineView, command: GameCommand)
    requires
        engine.spec_handle(command).1 is Ok,
    ensures
        ({
            let (after, handled) = engine.spec_handle(command);
            let events = handled->Ok_0;
            &&& engine.state.phase.spec_rank() <= after.state.phase.spec_rank()
            &&& after.next_seq.0 == engine.next_seq.0 + events.len()
            &&& forall|i: int|
                0 <= i < events.len() ==> (#[trigger] events[i]).event_seq_id.0
                    == engine.next_seq.0 + i && events[i].game_id == engine.state.game_id
            &&& after.state == engine.state.spec_replay(spec_payloads(events))
        }),
{
    let (after, handled) = engine.spec_handle(command);
    let events = handled->Ok_0;
    if !engine.processed.contains(command.spec_command_id()) {
        let payloads = spec_decide(engine.state, command)->Ok_0;
        lemma_replay_keeps_order(engine.state, payloads);
        assert(spec_payloads(events) =~= payloads);
    } else {
        assert(spec_payloads(events) =~= Seq::<EventPayloadView>::empty());
    }
}

/// The engine after a row of commands, handled one after the other, and the
/// log that they leave: the events of the commands that were carried out, in
/// order. A command that is refused leaves no trace.
pub open spec fn spec_run(engine: GameEngineView, commands: Seq<GameCommand>) -> (
    GameEngineView,
    Seq<GameEventView>,
)
    decreases commands.len(),
{
    if commands.len() == 0 {
        (engine, Seq::empty())
    } else {
        let (before, log) = spec_run(engine, commands.drop_last());
        let (after, handled) = before.spec_handle(commands.last());
        match handled {
            Ok(events) => (after, log + events),
            Err(_) => (after, log),
        }
    }
}

/// The log is the truth of the game. Whatever commands an engine is given,
/// the events that it hands out bear the numbers that follow the last one
/// used, each the next, with no gap and none twice; all are of its game; and
/// the state of the engine is its first state with exactly those events
/// folded in. An engine that starts at number 0 numbers its log from 0.
pub proof fn lemma_log_determines_state(engine: GameEngineView, commands: Seq<GameCommand>)
    ensures
        ({
            let (after, log) = spec_run(engine, commands);
            &&& after.state == engine.state.spec_replay(spec_payloads(log))
            &&& after.state.game_id == engine.state.game_id
            &&& after.next_seq.0 == engine.next_seq.0 + log.len()
            &&& forall|i: int|
                0 <= i < log.len() ==> (#[trigger] log[i]).event_seq_id.0 == engine.next_seq.0 + i
                    && log[i].game_id == engine.state.game_id
        }),
    decreases commands.len(),
{
    if commands.len() == 0 {
        assert(spec_payloads(Seq::<GameEventView>::empty()) =~= Seq::<EventPayloadView>::empty());
    } else {
        lemma_log_determines_state(engine, commands.drop_last());
        let (before, log) = spec_run(engine, commands.drop_last());
        let (after, handled) = before.spec_handle(commands.last());
        lemma_replay_keeps_game(engine.state, spec_payloads(log));
        match handled {
            Ok(events) => {
                lemma_handled_in_order(before, commands.last());
                lemma_replay_in_parts(engine.state, spec_payloads(log), spec_payloads(events));
                assert(spec_payloads(log + events) =~= spec_payloads(log) + spec_payloads(events));
                lemma_replay_keeps_game(engine.state, spec_payloads(log + events));
            },
            Err(_) => {
                lemma_refusal_changes_nothing(before, commands.last());
            },
        }
    }
}

/// A game that is finished takes no command: whatever is asked of it is
/// refused as out of place.
pub proof fn lemma_finished_takes_no_command(state: GameStateView, command: GameCommand)
    requires
        state.phase == Phase::Finished,
        command.spec_game_id() == state.game_id,
    ensures
        spec_decide(state, command) == Err::<Seq<EventPayloadView>, CommandError>(
            CommandError::WrongPhase,
        ),
{
}

} // verus!
