//! The controller of the client: what a key or the passing of time does to
//! the screen.

use crate::cli::animation::DealAnimation;
use crate::cli::mock::{
    deal_step_ui, mock_player_turn_ui, mock_resolving_ui, spec_deal_step_ui,
    spec_mock_player_turn_ui, spec_mock_resolving_ui,
};
use crate::cli::state::{BettingState, LobbyStateView, UiState, UiStateView, UiView};
use vstd::prelude::*;

verus! {

/// How long a card of the animated deal lies before the next one, in milliseconds.
pub const DEAL_TICK_MS: u64 = 500;

/// How many cards the animated deal lays.
pub const DEAL_STEPS: usize = 4;

/// A key, as far as the client tells keys apart.
#[derive(Debug, Clone, Copy, PartialEq, Eq, Structural)]
pub enum Key {
    Char(char),
    Up,
    Down,
    Left,
    Right,
    Enter,
    Other,
}

/// The client: the screen it shows.
#[derive(Debug, Clone, PartialEq, Eq)]
pub struct App {
    pub ui: UiState,
}

/// The screen at the start of the animated deal at the time `now`: no card
/// lies yet.
pub open spec fn spec_start_deal(now: u64) -> UiStateView {
    UiStateView {
        deal_animation: Some(DealAnimation { step: 0, last_tick: now }),
        ..spec_deal_step_ui(0)
    }
}

/// What a key does in the lobby: the arrows move the mark within the list,
/// and enter leads to the betting. Without a lobby to show, no key does anything.
pub open spec fn spec_lobby_key(ui: UiStateView, key: Key) -> UiStateView {
    match ui.lobby {
        None => ui,
        Some(lobby) => match key {
            Key::Up => if lobby.selected > 0 {
                UiStateView {
                    lobby: Some(LobbyStateView { selected: (lobby.selected - 1) as usize, ..lobby }),
                    ..ui
                }
            } else {
                ui
            },
            Key::Down => if lobby.selected + 1 < lobby.tables.len() {
                UiStateView {
                    lobby: Some(LobbyStateView { selected: (lobby.selected + 1) as usize, ..lobby }),
                    ..ui
                }
            } else {
                ui
            },
            Key::Enter => UiStateView::spec_betting(),
            _ => ui,
        },
    }
}

/// The bet one step lower, but not under the least bet.
pub open spec fn spec_lower_bet(betting: BettingState) -> u64 {
    if betting.current_bet - betting.step > betting.min_bet {
        (betting.current_bet - betting.step) as u64
    } else {
        betting.min_bet
    }
}

/// The bet one step higher, but not over the highest bet.
pub open spec fn spec_raise_bet(betting: BettingState) -> u64 {
    if betting.current_bet + betting.step < betting.max_bet {
        (betting.current_bet + betting.step) as u64
    } else {
        betting.max_bet
    }
}

/// What a key does while a bet is chosen: the arrows change the bet by one
/// step within its limits, and enter starts the deal. Without a bet to show,
/// no key does anything.
pub open spec fn spec_betting_key(ui: UiStateView, key: Key, now: u64) -> UiStateView {
    match ui.betting {
        None => ui,
        Some(betting) => match key {
            Key::Left => UiStateView {
                betting: Some(BettingState { current_bet: spec_lower_bet(betting), ..betting }),
                ..ui
            },
            Key::Right => UiStateView {
                betting: Some(BettingState { current_bet: spec_raise_bet(betting), ..betting }),
                ..ui
            },
            Key::Enter => spec_start_deal(now),
            _ => ui,
        },
    }
}

/// What a key does at the time `now`: the screen after it, and whether the
/// client is to end. `q` ends the client; `l`, `b`, `d`, `p` and `r` lead to
/// the lobby, the betting, the deal, the player's turn and the result from
/// anywhere; any other key goes to the screen that is shown, of which only
/// the lobby and the betting take keys.
pub open spec fn spec_on_key(ui: UiStateView, key: Key, now: u64) -> (UiStateView, bool) {
    if key == Key::Char('q') {
        (ui, true)
    } else if key == Key::Char('l') {
        (UiStateView::spec_lobby(), false)
    } else if key == Key::Char('b') {
        (UiStateView::spec_betting(), false)
    } else if key == Key::Char('d') {
        (spec_start_deal(now), false)
    } else if key == Key::Char('p') {
        (spec_mock_player_turn_ui(), false)
    } else if key == Key::Char('r') {
        (spec_mock_resolving_ui(), false)
    } else {
        match ui.view {
            UiView::Lobby => (spec_lobby_key(ui, key), false),
            UiView::Betting => (spec_betting_key(ui, key, now), false),
            _ => (ui, false),
        }
    }
}

/// What the passing of time does: while a deal is animated and its last card
/// has lain for half a second, the next card is laid; after the fourth the
/// player's turn is shown. A clock that has gone back counts as no time passed.
pub open spec fn spec_update_animation(ui: UiStateView, now: u64) -> UiStateView {
    match ui.deal_animation {
        None => ui,
        Some(animation) => if now - animation.last_tick < DEAL_TICK_MS {
            ui
        } else if animation.step + 1 > DEAL_STEPS {
            spec_mock_player_turn_ui()
        } else {
            UiStateView {
                deal_animation: Some(
                    DealAnimation { step: (animation.step + 1) as usize, last_tick: now },
                ),
                ..spec_deal_step_ui((animation.step + 1) as usize)
            }
        },
    }
}

impl App {
    /// The client as it starts: in the lobby.
    pub fn new() -> (app: App)
        ensures
            app.ui@ == UiStateView::spec_lobby(),
    {
        App { ui: UiState::lobby() }
    }

    /// Takes a key at the time `now`, and says whether the client is to end.
    pub fn on_key(&mut self, key: Key, now: u64) -> (quit: bool)
        ensures
            (final(self).ui@, quit) == spec_on_key(old(self).ui@, key, now),
    {
        if let Some(quit) = self.handle_global_keys(key, now) {
            return quit;
        }
        match self.ui.view {
            UiView::Lobby => self.on_lobby_key(key),
            UiView::Betting => self.on_betting_key(key, now),
            _ => {},
        }
        false
    }

    /// The keys that do the same on every screen.
    fn handle_global_keys(&mut self, key: Key, now: u64) -> (handled: Option<bool>)
        ensures
            match handled {
                Some(quit) => (final(self).ui@, quit) == spec_on_key(old(self).ui@, key, now),
                None => final(self).ui@ == old(self).ui@ && key != Key::Char('q') && key
                    != Key::Char('l') && key != Key::Char('b') && key != Key::Char('d') && key
                    != Key::Char('p') && key != Key::Char('r'),
            },
    {
        match key {
            Key::Char(c) => {
                if c == 'q' {
                    Some(true)
                } else if c == 'l' {
                    self.ui = UiState::lobby();
                    Some(false)
                } else if c == 'b' {
                    self.ui = UiState::betting();
                    Some(false)
                } else if c == 'd' {
                    self.start_deal_animation(now);
                    Some(false)
                } else if c == 'p' {
                    self.ui = mock_player_turn_ui();
                    Some(false)
                } else if c == 'r' {
                    self.ui = mock_resolving_ui();
                    Some(false)
                } else {
                    None
                }
            },
            _ => None,
        }
    }

    /// A key in the lobby.
    fn on_lobby_key(&mut self, key: Key)
        ensures
            final(self).ui@ == spec_lobby_key(old(self).ui@, key),
    {
        match key {
            Key::Up => {
                if let Some(lobby) = &mut self.ui.lobby {
                    if lobby.selected > 0 {
                        lobby.selected -= 1;
                    }
                }
            },
            Key::Down => {
                if let Some(lobby) = &mut self.ui.lobby {
                    if lobby.selected < lobby.tables.len() && lobby.selected + 1
                        < lobby.tables.len() {
                        lobby.selected += 1;
                    }
                }
            },
            Key::Enter => {
                if self.ui.lobby.is_some() {
                    self.enter_table();
                }
            },
            _ => {},
        }
    }

    /// A key while a bet is chosen.
    fn on_betting_key(&mut self, key: Key, now: u64)
        ensures
            final(self).ui@ == spec_betting_key(old(self).ui@, key, now),
    {
        match key {
            Key::Left => {
                if let Some(betting) = &mut self.ui.betting {
                    let lower = if betting.current_bet >= betting.step {
                        betting.current_bet - betting.step
                    } else {
                        0
                    };
                    betting.current_bet = if lower > betting.min_bet {
                        lower
                    } else {
                        betting.min_bet
                    };
                }
            },
            Key::Right => {
                if let Some(betting) = &mut self.ui.betting {
                    let room = u64::MAX - betting.current_bet;
                    betting.current_bet = if betting.step <= room && betting.current_bet
                        + betting.step < betting.max_bet {
                        betting.current_bet + betting.step
                    } else {
                        betting.max_bet
                    };
                }
            },
            Key::Enter => {
                if self.ui.betting.is_some() {
                    self.start_deal_animation(now);
                }
            },
            _ => {},
        }
    }

    /// Shows the table before the first card of the animated deal.
    fn start_deal_animation(&mut self, now: u64)
        ensures
            final(self).ui@ == spec_start_deal(now),
    {
        self.ui = deal_step_ui(0);
        self.ui.deal_animation = Some(DealAnimation { step: 0, last_tick: now });
    }

    /// Lets time pass up to `now`, as `spec_update_animation` says.
    pub fn update_animation(&mut self, now: u64)
        ensures
            final(self).ui@ == spec_update_animation(old(self).ui@, now),
    {
        let animation = match self.ui.deal_animation {
            Some(animation) => animation,
            None => {
                return ;
            },
        };
        if now < animation.last_tick || now - animation.last_tick < DEAL_TICK_MS {
            return ;
        }
        if animation.step >= DEAL_STEPS {
            self.ui = mock_player_turn_ui();
        } else {
            let step = animation.step + 1;
            self.ui = deal_step_ui(step);
            self.ui.deal_animation = Some(DealAnimation { step, last_tick: now });
        }
    }

    /// Leaves the lobby for the table: the bet is chosen first.
    fn enter_table(&mut self)
        ensures
            final(self).ui@ == UiStateView::spec_betting(),
    {
        self.ui = UiState::betting()
    }
}

} // verus!
