//! Screens with made-up games, which the client shows until it plays real ones.

use crate::cli::state::{
    FooterState, FooterStateView, HeaderState, HeaderStateView, PlayerUiState, PlayerUiStateView,
    TableState, TableStateView, UiCard, UiCardView, UiHand, UiHandView, UiState, UiStateView,
    UiView,
};
use vstd::prelude::*;

verus! {

/// A shown card with the given texts.
pub open spec fn spec_card(rank: &str, suit: &str) -> UiCardView {
    UiCardView { rank: rank@, suit: suit@ }
}

/// A table that shows the given hands and nothing of the game behind them.
pub open spec fn spec_table(dealer: UiHandView, players: Seq<PlayerUiStateView>) -> TableStateView {
    TableStateView { game_id: 0, phase: Seq::empty(), event_id: 0, dealer, players }
}

/// A player under the name "You" with the given hand and no word on how the
/// player stands.
pub open spec fn spec_you(active: bool, hand: UiHandView) -> PlayerUiStateView {
    PlayerUiStateView { name: "You"@, active, hand, status: Seq::empty() }
}

/// A screen of the given kind over a table, with no lobby, no bet and no animation.
pub open spec fn spec_table_screen(
    view: UiView,
    subtitle: &str,
    table: TableStateView,
    hints: Seq<Seq<char>>,
) -> UiStateView {
    UiStateView {
        view,
        header: HeaderStateView { title: "Blackjack"@, subtitle: subtitle@ },
        footer: FooterStateView { hints },
        lobby: None,
        table: Some(table),
        betting: None,
        deal_animation: None,
    }
}

/// An empty table under the title of the lobby.
pub open spec fn spec_mock_lobby_ui() -> UiStateView {
    spec_table_screen(
        UiView::Lobby,
        "Lobby",
        spec_table(UiHandView { cards: Seq::empty(), value: None }, Seq::empty()),
        seq!["l = lobby"@, "p = player turn"@, "q = quit"@],
    )
}

/// A game in the player's turn: the dealer shows a king and a hidden card,
/// the player holds a ten and a seven, 17.
pub open spec fn spec_mock_player_turn_ui() -> UiStateView {
    spec_table_screen(
        UiView::PlayerTurn,
        "Your turn",
        spec_table(
            UiHandView { cards: seq![spec_card("K", "♠"), spec_card("?", "?")], value: None },
            seq![
                spec_you(
                    true,
                    UiHandView {
                        cards: seq![spec_card("10", "♥"), spec_card("7", "♦")],
                        value: Some("17"@),
                    },
                ),
            ],
        ),
        seq!["h = hit"@, "s = stand"@, "r = resolve"@, "q = quit"@],
    )
}

/// A game that is over: the dealer holds a king and a nine, 19, the player
/// a ten and a seven, 17.
pub open spec fn spec_mock_resolving_ui() -> UiStateView {
    spec_table_screen(
        UiView::Resolving,
        "Result",
        spec_table(
            UiHandView {
                cards: seq![spec_card("K", "♠"), spec_card("9", "♣")],
                value: Some("19"@),
            },
            seq![
                spec_you(
                    false,
                    UiHandView {
                        cards: seq![spec_card("10", "♥"), spec_card("7", "♦")],
                        value: Some("17"@),
                    },
                ),
            ],
        ),
        seq!["l = lobby"@, "q = quit"@],
    )
}

/// The cards that lie before the player after `step` cards of the first deal:
/// the first and the third card dealt.
pub open spec fn spec_deal_player_cards(step: usize) -> Seq<UiCardView> {
    if step >= 3 {
        seq![spec_card("10", "♥"), spec_card("7", "♦")]
    } else if step >= 1 {
        seq![spec_card("10", "♥")]
    } else {
        Seq::empty()
    }
}

/// The cards that lie before the dealer after `step` cards of the first deal:
/// the second and the fourth card dealt, the fourth hidden.
pub open spec fn spec_deal_dealer_cards(step: usize) -> Seq<UiCardView> {
    if step >= 4 {
        seq![spec_card("K", "♠"), spec_card("?", "?")]
    } else if step >= 2 {
        seq![spec_card("K", "♠")]
    } else {
        Seq::empty()
    }
}

/// The first deal after `step` cards: the cards go in turn to the player and
/// to the dealer, and after four all lie there.
pub open spec fn spec_deal_step_ui(step: usize) -> UiStateView {
    spec_table_screen(
        UiView::Dealing,
        "Dealing…",
        spec_table(
            UiHandView { cards: spec_deal_dealer_cards(step), value: None },
            seq![spec_you(false, UiHandView { cards: spec_deal_player_cards(step), value: None })],
        ),
        seq!["Dealing cards…"@],
    )
}

/// A table that shows the given hands and nothing of the game behind them.
fn table_of(dealer: UiHand, players: Vec<PlayerUiState>) -> (table: TableState)
    ensures
        table@ == spec_table(dealer@, crate::cli::state::table::spec_player_ui_views(players@)),
{
    TableState { game_id: 0, phase: String::new(), event_id: 0, dealer, players }
}

/// A player under the name "You".
fn you(active: bool, hand: UiHand) -> (player: PlayerUiState)
    ensures
        player@ == spec_you(active, hand@),
{
    PlayerUiState { name: "You".to_owned(), active, hand, status: String::new() }
}

/// A screen of the given kind over a table.
fn table_screen(view: UiView, subtitle: &str, table: TableState, hints: Vec<String>) -> (ui:
    UiState)
    ensures
        ui@ == spec_table_screen(
            view,
            subtitle,
            table@,
            crate::cli::state::ui_state::spec_texts(hints@),
        ),
{
    UiState {
        view,
        header: HeaderState { title: "Blackjack".to_owned(), subtitle: subtitle.to_owned() },
        footer: FooterState { hints },
        lobby: None,
        table: Some(table),
        betting: None,
        deal_animation: None,
    }
}

/// A hand of up to two cards.
fn hand_of(first: Option<UiCard>, second: Option<UiCard>, value: Option<String>) -> (hand: UiHand)
    ensures
        hand.value == value,
        hand@.cards == match (first, second) {
            (Some(a), Some(b)) => seq![a@, b@],
            (Some(a), None) => seq![a@],
            (None, Some(b)) => seq![b@],
            (None, None) => Seq::<UiCardView>::empty(),
        },
{
    let mut cards: Vec<UiCard> = Vec::new();
    if let Some(card) = first {
        cards.push(card);
    }
    if let Some(card) = second {
        cards.push(card);
    }
    let hand = UiHand { cards, value };
    assert(hand@.cards =~= match (first, second) {
        (Some(a), Some(b)) => seq![a@, b@],
        (Some(a), None) => seq![a@],
        (None, Some(b)) => seq![b@],
        (None, None) => Seq::<UiCardView>::empty(),
    });
    hand
}

/// An empty table under the title of the lobby.
pub fn mock_lobby_ui() -> (ui: UiState)
    ensures
        ui@ == spec_mock_lobby_ui(),
{
    let mut hints: Vec<String> = Vec::new();
    hints.push("l = lobby".to_owned());
    hints.push("p = player turn".to_owned());
    hints.push("q = quit".to_owned());
    let players: Vec<PlayerUiState> = Vec::new();
    let table = table_of(hand_of(None, None, None), players);
    let ui = table_screen(UiView::Lobby, "Lobby", table, hints);
    assert(ui@.footer.hints =~= spec_mock_lobby_ui().footer.hints);
    assert(ui@.table->Some_0.players =~= spec_mock_lobby_ui().table->Some_0.players);
    ui
}

/// A game in the player's turn.
pub fn mock_player_turn_ui() -> (ui: UiState)
    ensures
        ui@ == spec_mock_player_turn_ui(),
{
    let mut hints: Vec<String> = Vec::new();
    hints.push("h = hit".to_owned());
    hints.push("s = stand".to_owned());
    hints.push("r = resolve".to_owned());
    hints.push("q = quit".to_owned());
    let dealer = hand_of(
        Some(UiCard { rank: "K", suit: "♠" }),
        Some(UiCard { rank: "?", suit: "?" }),
        None,
    );
    let hand = hand_of(
        Some(UiCard { rank: "10", suit: "♥" }),
        Some(UiCard { rank: "7", suit: "♦" }),
        Some("17".to_owned()),
    );
    let mut players: Vec<PlayerUiState> = Vec::new();
    players.push(you(true, hand));
    let table = table_of(dealer, players);
    let ui = table_screen(UiView::PlayerTurn, "Your turn", table, hints);
    assert(ui@.footer.hints =~= spec_mock_player_turn_ui().footer.hints);
    assert(ui@.table->Some_0.players =~= spec_mock_player_turn_ui().table->Some_0.players);
    ui
}

/// A game that is over.
pub fn mock_resolving_ui() -> (ui: UiState)
    ensures
        ui@ == spec_mock_resolving_ui(),
{
    let mut hints: Vec<String> = Vec::new();
    hints.push("l = lobby".to_owned());
    hints.push("q = quit".to_owned());
    let dealer = hand_of(
        Some(UiCard { rank: "K", suit: "♠" }),
        Some(UiCard { rank: "9", suit: "♣" }),
        Some("19".to_owned()),
    );
    let hand = hand_of(
        Some(UiCard { rank: "10", suit: "♥" }),
        Some(UiCard { rank: "7", suit: "♦" }),
        Some("17".to_owned()),
    );
    let mut players: Vec<PlayerUiState> = Vec::new();
    players.push(you(false, hand));
    let table = table_of(dealer, players);
    let ui = table_screen(UiView::Resolving, "Result", table, hints);
    assert(ui@.footer.hints =~= spec_mock_resolving_ui().footer.hints);
    assert(ui@.table->Some_0.players =~= spec_mock_resolving_ui().table->Some_0.players);
    ui
}

/// The first deal after `step` cards.
pub fn deal_step_ui(step: usize) -> (ui: UiState)
    ensures
        ui@ == spec_deal_step_ui(step),
{
    let player_cards = hand_of(
        if step >= 1 {
            Some(UiCard { rank: "10", suit: "♥" })
        } else {
            None
        },
        if step >= 3 {
            Some(UiCard { rank: "7", suit: "♦" })
        } else {
            None
        },
        None,
    );
    let dealer_cards = hand_of(
        if step >= 2 {
            Some(UiCard { rank: "K", suit: "♠" })
        } else {
            None
        },
        if step >= 4 {
            Some(UiCard { rank: "?", suit: "?" })
        } else {
            None
        },
        None,
    );
    let mut players: Vec<PlayerUiState> = Vec::new();
    players.push(you(false, player_cards));
    let mut hints: Vec<String> = Vec::new();
    hints.push("Dealing cards…".to_owned());
    let table = table_of(dealer_cards, players);
    let ui = table_screen(UiView::Dealing, "Dealing…", table, hints);
    assert(ui@.footer.hints =~= spec_deal_step_ui(step).footer.hints);
    assert(ui@.table->Some_0.players =~= spec_deal_step_ui(step).table->Some_0.players);
    ui
}

} // verus!
