use super::betting::BettingState;
use super::lobby::{LobbyState, LobbyStateView, LobbyStatus, TableInfo, TableInfoView};
use super::table::{TableState, TableStateView};
use crate::cli::animation::DealAnimation;
use vstd::prelude::*;

verus! {

/// Which screen is shown.
#[derive(Debug, Clone, Copy, PartialEq, Eq, Structural)]
pub enum UiView {
    Lobby,
    Betting,
    Dealing,
    PlayerTurn,
    DealerTurn,
    Resolving,
    Finished,
}

/// The line at the top of the screen.
#[derive(Debug, Clone, PartialEq, Eq)]
pub struct HeaderState {
    pub title: String,
    pub subtitle: String,
}

/// The top line as plain values.
pub struct HeaderStateView {
    pub title: Seq<char>,
    pub subtitle: Seq<char>,
}

impl View for HeaderState {
    type V = HeaderStateView;

    open spec fn view(&self) -> HeaderStateView {
        HeaderStateView { title: self.title@, subtitle: self.subtitle@ }
    }
}

/// The line at the bottom of the screen: which keys do what.
#[derive(Debug, Clone, PartialEq, Eq)]
pub struct FooterState {
    pub hints: Vec<String>,
}

/// The bottom line as plain values.
pub struct FooterStateView {
    pub hints: Seq<Seq<char>>,
}

/// A row of texts as plain values.
pub open spec fn spec_texts(texts: Seq<String>) -> Seq<Seq<char>> {
    Seq::new(texts.len(), |i: int| texts[i]@)
}

impl View for FooterState {
    type V = FooterStateView;

    open spec fn view(&self) -> FooterStateView {
        FooterStateView { hints: spec_texts(self.hints@) }
    }
}

/// All that the screen shows.
#[derive(Debug, Clone, PartialEq, Eq)]
pub struct UiState {
    pub view: UiView,
    pub header: HeaderState,
    pub footer: FooterState,
    pub lobby: Option<LobbyState>,
    pub table: Option<TableState>,
    pub betting: Option<BettingState>,
    pub deal_animation: Option<DealAnimation>,
}

/// The screen as plain values.
pub struct UiStateView {
    pub view: UiView,
    pub header: HeaderStateView,
    pub footer: FooterStateView,
    pub lobby: Option<LobbyStateView>,
    pub table: Option<TableStateView>,
    pub betting: Option<BettingState>,
    pub deal_animation: Option<DealAnimation>,
}

impl View for UiState {
    type V = UiStateView;

    open spec fn view(&self) -> UiStateView {
        UiStateView {
            view: self.view,
            header: self.header@,
            footer: self.footer@,
            lobby: match self.lobby {
                Some(lobby) => Some(lobby@),
                None => None,
            },
            table: match self.table {
                Some(table) => Some(table@),
                None => None,
            },
            betting: self.betting,
            deal_animation: self.deal_animation,
        }
    }
}

impl UiStateView {
    /// The lobby as the client opens it: not connected, with one table listed
    /// and marked.
    pub open spec fn spec_lobby() -> UiStateView {
        UiStateView {
            view: UiView::Lobby,
            header: HeaderStateView { title: "Blackjack"@, subtitle: "Lobby"@ },
            footer: FooterStateView {
                hints: seq!["↑ ↓ = select table"@, "enter = connect"@, "q = quit"@],
            },
            lobby: Some(
                LobbyStateView {
                    status: LobbyStatus::Disconnected,
                    tables: seq![TableInfoView { name: "Table #1"@, players: 1, max_players: 4 }],
                    selected: 0,
                },
            ),
            table: None,
            betting: None,
            deal_animation: None,
        }
    }

    /// The betting screen as it opens: a bet of 50 between 10 and 1000, in
    /// steps of 10, not confirmed.
    pub open spec fn spec_betting() -> UiStateView {
        UiStateView {
            view: UiView::Betting,
            header: HeaderStateView { title: "Blackjack"@, subtitle: "Place your bet"@ },
            footer: FooterStateView {
                hints: seq!["← → = change bet"@, "enter = confirm"@, "q = quit"@],
            },
            lobby: None,
            table: None,
            betting: Some(
                BettingState {
                    min_bet: 10,
                    max_bet: 1_000,
                    current_bet: 50,
                    step: 10,
                    confirmed: false,
                },
            ),
            deal_animation: None,
        }
    }
}

impl UiState {
    /// The lobby as the client opens it.
    pub fn lobby() -> (ui: UiState)
        ensures
            ui@ == UiStateView::spec_lobby(),
    {
        let mut hints: Vec<String> = Vec::new();
        hints.push("↑ ↓ = select table".to_owned());
        hints.push("enter = connect".to_owned());
        hints.push("q = quit".to_owned());
        let mut tables: Vec<TableInfo> = Vec::new();
        tables.push(TableInfo { name: "Table #1".to_owned(), players: 1, max_players: 4 });
        let ui = UiState {
            view: UiView::Lobby,
            header: HeaderState { title: "Blackjack".to_owned(), subtitle: "Lobby".to_owned() },
            footer: FooterState { hints },
            lobby: Some(LobbyState { status: LobbyStatus::Disconnected, selected: 0, tables }),
            table: None,
            betting: None,
            deal_animation: None,
        };
        assert(ui@.footer.hints =~= UiStateView::spec_lobby().footer.hints);
        assert(ui@.lobby->Some_0.tables =~= UiStateView::spec_lobby().lobby->Some_0.tables);
        ui
    }

    /// The betting screen as it opens.
    pub fn betting() -> (ui: UiState)
        ensures
            ui@ == UiStateView::spec_betting(),
    {
        let mut hints: Vec<String> = Vec::new();
        hints.push("← → = change bet".to_owned());
        hints.push("enter = confirm".to_owned());
        hints.push("q = quit".to_owned());
        let ui = UiState {
            view: UiView::Betting,
            header: HeaderState {
                title: "Blackjack".to_owned(),
                subtitle: "Place your bet".to_owned(),
            },
            footer: FooterState { hints },
            lobby: None,
            table: None,
            betting: Some(
                BettingState {
                    min_bet: 10,
                    max_bet: 1_000,
                    current_bet: 50,
                    step: 10,
                    confirmed: false,
                },
            ),
            deal_animation: None,
        };
        assert(ui@.footer.hints =~= UiStateView::spec_betting().footer.hints);
        ui
    }
}

} // verus!
