use blackjack::cli::animation::DealAnimation;
use blackjack::cli::app::{App, Key, DEAL_STEPS, DEAL_TICK_MS};
use blackjack::cli::card::{card_text, rank_template, suit_symbol, CARD_HEIGHT, CARD_WIDTH};
use blackjack::cli::mock::{deal_step_ui, mock_lobby_ui, mock_player_turn_ui, mock_resolving_ui};
use blackjack::cli::state::{
    BettingState, FooterState, HeaderState, LobbyState, LobbyStatus, LoginState, LoginStatus,
    PlayerUiState, TableInfo, TableState, UiCard, UiHand, UiState, UiView,
};
use blackjack::domain::{Card, DeckId, Rank, Suit};

fn texts(items: &[&str]) -> Vec<String> {
    items.iter().map(|item| item.to_string()).collect()
}

fn shown(rank: &'static str, suit: &'static str) -> UiCard {
    UiCard { rank, suit }
}

fn table(dealer: UiHand, players: Vec<PlayerUiState>) -> TableState {
    TableState {
        game_id: 0,
        phase: String::new(),
        event_id: 0,
        dealer,
        players,
    }
}

fn you(active: bool, cards: Vec<UiCard>, value: Option<&str>) -> PlayerUiState {
    PlayerUiState {
        name: "You".to_string(),
        active,
        hand: UiHand {
            cards,
            value: value.map(|text| text.to_string()),
        },
        status: String::new(),
    }
}

fn screen(view: UiView, subtitle: &str, table: TableState, hints: &[&str]) -> UiState {
    UiState {
        view,
        header: HeaderState {
            title: "Blackjack".to_string(),
            subtitle: subtitle.to_string(),
        },
        footer: FooterState {
            hints: texts(hints),
        },
        lobby: None,
        table: Some(table),
        betting: None,
        deal_animation: None,
    }
}

fn lobby_screen() -> UiState {
    UiState {
        view: UiView::Lobby,
        header: HeaderState {
            title: "Blackjack".to_string(),
            subtitle: "Lobby".to_string(),
        },
        footer: FooterState {
            hints: texts(&["↑ ↓ = select table", "enter = connect", "q = quit"]),
        },
        lobby: Some(LobbyState {
            status: LobbyStatus::Disconnected,
            selected: 0,
            tables: vec![TableInfo {
                name: "Table #1".to_string(),
                players: 1,
                max_players: 4,
            }],
        }),
        table: None,
        betting: None,
        deal_animation: None,
    }
}

fn betting_screen(current_bet: u64) -> UiState {
    UiState {
        view: UiView::Betting,
        header: HeaderState {
            title: "Blackjack".to_string(),
            subtitle: "Place your bet".to_string(),
        },
        footer: FooterState {
            hints: texts(&["← → = change bet", "enter = confirm", "q = quit"]),
        },
        lobby: None,
        table: None,
        betting: Some(BettingState {
            min_bet: 10,
            max_bet: 1_000,
            current_bet,
            step: 10,
            confirmed: false,
        }),
        deal_animation: None,
    }
}

fn player_turn_screen() -> UiState {
    screen(
        UiView::PlayerTurn,
        "Your turn",
        table(
            UiHand {
                cards: vec![shown("K", "♠"), shown("?", "?")],
                value: None,
            },
            vec![you(true, vec![shown("10", "♥"), shown("7", "♦")], Some("17"))],
        ),
        &["h = hit", "s = stand", "r = resolve", "q = quit"],
    )
}

fn resolving_screen() -> UiState {
    screen(
        UiView::Resolving,
        "Result",
        table(
            UiHand {
                cards: vec![shown("K", "♠"), shown("9", "♣")],
                value: Some("19".to_string()),
            },
            vec![you(false, vec![shown("10", "♥"), shown("7", "♦")], Some("17"))],
        ),
        &["l = lobby", "q = quit"],
    )
}

fn deal_screen(dealer: Vec<UiCard>, player: Vec<UiCard>) -> UiState {
    screen(
        UiView::Dealing,
        "Dealing…",
        table(
            UiHand {
                cards: dealer,
                value: None,
            },
            vec![you(false, player, None)],
        ),
        &["Dealing cards…"],
    )
}

fn dealing(step: usize, last_tick: u64) -> UiState {
    let mut ui = deal_step_ui(step);
    ui.deal_animation = Some(DealAnimation { step, last_tick });
    ui
}

#[test]
fn the_lobby_as_it_opens() {
    assert_eq!(UiState::lobby(), lobby_screen());
    assert_eq!(App::new().ui, lobby_screen());
}

#[test]
fn the_betting_as_it_opens() {
    assert_eq!(UiState::betting(), betting_screen(50));
}

#[test]
fn the_login_as_it_opens() {
    assert_eq!(
        LoginState::default(),
        LoginState {
            username: String::new(),
            status: LoginStatus::Idle
        }
    );
}

#[test]
fn the_made_up_screens() {
    assert_eq!(
        mock_lobby_ui(),
        screen(
            UiView::Lobby,
            "Lobby",
            table(
                UiHand {
                    cards: vec![],
                    value: None
                },
                vec![]
            ),
            &["l = lobby", "p = player turn", "q = quit"],
        )
    );
    assert_eq!(mock_player_turn_ui(), player_turn_screen());
    assert_eq!(mock_resolving_ui(), resolving_screen());
}

#[test]
fn the_deal_card_by_card() {
    let ten = shown("10", "♥");
    let seven = shown("7", "♦");
    let king = shown("K", "♠");
    let hidden = shown("?", "?");
    assert_eq!(deal_step_ui(0), deal_screen(vec![], vec![]));
    assert_eq!(deal_step_ui(1), deal_screen(vec![], vec![ten]));
    assert_eq!(deal_step_ui(2), deal_screen(vec![king], vec![ten]));
    assert_eq!(deal_step_ui(3), deal_screen(vec![king], vec![ten, seven]));
    assert_eq!(
        deal_step_ui(4),
        deal_screen(vec![king, hidden], vec![ten, seven])
    );
    assert_eq!(deal_step_ui(5), deal_step_ui(4));
    assert_eq!(deal_step_ui(usize::MAX), deal_step_ui(4));
}

#[test]
fn q_ends_the_client_on_every_screen() {
    for ui in [
        lobby_screen(),
        betting_screen(50),
        dealing(2, 0),
        player_turn_screen(),
        resolving_screen(),
    ] {
        let mut app = App { ui: ui.clone() };
        assert!(app.on_key(Key::Char('q'), 7));
        assert_eq!(app.ui, ui);
    }
}

#[test]
fn the_keys_that_change_the_screen() {
    for ui in [lobby_screen(), betting_screen(50), player_turn_screen()] {
        let mut app = App { ui: ui.clone() };
        assert!(!app.on_key(Key::Char('l'), 7));
        assert_eq!(app.ui, lobby_screen());

        let mut app = App { ui: ui.clone() };
        assert!(!app.on_key(Key::Char('b'), 7));
        assert_eq!(app.ui, betting_screen(50));

        let mut app = App { ui: ui.clone() };
        assert!(!app.on_key(Key::Char('d'), 7));
        assert_eq!(app.ui, dealing(0, 7));

        let mut app = App { ui: ui.clone() };
        assert!(!app.on_key(Key::Char('p'), 7));
        assert_eq!(app.ui, player_turn_screen());

        let mut app = App { ui: ui.clone() };
        assert!(!app.on_key(Key::Char('r'), 7));
        assert_eq!(app.ui, resolving_screen());
    }
}

#[test]
fn keys_without_a_meaning_do_nothing() {
    for ui in [
        lobby_screen(),
        betting_screen(50),
        dealing(1, 0),
        player_turn_screen(),
        resolving_screen(),
    ] {
        for key in [Key::Char('x'), Key::Char('Q'), Key::Other] {
            let mut app = App { ui: ui.clone() };
            assert!(!app.on_key(key, 7));
            assert_eq!(app.ui, ui);
        }
    }
    for ui in [dealing(1, 0), player_turn_screen(), resolving_screen()] {
        for key in [Key::Up, Key::Down, Key::Left, Key::Right, Key::Enter] {
            let mut app = App { ui: ui.clone() };
            assert!(!app.on_key(key, 7));
            assert_eq!(app.ui, ui);
        }
    }
}

fn lobby_with(tables: usize, selected: usize) -> UiState {
    let mut ui = lobby_screen();
    let lobby = ui.lobby.as_mut().unwrap();
    lobby.tables = (0..tables)
        .map(|i| TableInfo {
            name: format!("Table #{}", i + 1),
            players: i,
            max_players: 4,
        })
        .collect();
    lobby.selected = selected;
    ui
}

#[test]
fn the_arrows_move_the_mark_in_the_lobby() {
    let mut app = App { ui: lobby_with(3, 0) };
    assert!(!app.on_key(Key::Up, 0));
    assert_eq!(app.ui, lobby_with(3, 0));
    assert!(!app.on_key(Key::Down, 0));
    assert_eq!(app.ui, lobby_with(3, 1));
    assert!(!app.on_key(Key::Down, 0));
    assert_eq!(app.ui, lobby_with(3, 2));
    assert!(!app.on_key(Key::Down, 0));
    assert_eq!(app.ui, lobby_with(3, 2));
    assert!(!app.on_key(Key::Up, 0));
    assert_eq!(app.ui, lobby_with(3, 1));
    assert!(!app.on_key(Key::Left, 0));
    assert!(!app.on_key(Key::Right, 0));
    assert_eq!(app.ui, lobby_with(3, 1));

    let mut app = App { ui: lobby_with(0, 0) };
    assert!(!app.on_key(Key::Down, 0));
    assert_eq!(app.ui, lobby_with(0, 0));

    // A mark beyond the list stays where it is on the way down, and comes up.
    let mut app = App { ui: lobby_with(2, usize::MAX) };
    assert!(!app.on_key(Key::Down, 0));
    assert_eq!(app.ui, lobby_with(2, usize::MAX));
    assert!(!app.on_key(Key::Up, 0));
    assert_eq!(app.ui, lobby_with(2, usize::MAX - 1));
}

#[test]
fn enter_in_the_lobby_leads_to_the_betting() {
    let mut app = App { ui: lobby_with(3, 2) };
    assert!(!app.on_key(Key::Enter, 0));
    assert_eq!(app.ui, betting_screen(50));
}

#[test]
fn a_lobby_screen_without_a_lobby_takes_no_keys() {
    let mut ui = lobby_screen();
    ui.lobby = None;
    for key in [Key::Up, Key::Down, Key::Enter] {
        let mut app = App { ui: ui.clone() };
        assert!(!app.on_key(key, 0));
        assert_eq!(app.ui, ui);
    }
    let mut ui = betting_screen(50);
    ui.betting = None;
    for key in [Key::Left, Key::Right, Key::Enter] {
        let mut app = App { ui: ui.clone() };
        assert!(!app.on_key(key, 0));
        assert_eq!(app.ui, ui);
    }
}

#[test]
fn the_arrows_change_the_bet_within_its_limits() {
    let mut app = App { ui: betting_screen(50) };
    assert!(!app.on_key(Key::Right, 0));
    assert_eq!(app.ui, betting_screen(60));
    assert!(!app.on_key(Key::Left, 0));
    assert!(!app.on_key(Key::Left, 0));
    assert_eq!(app.ui, betting_screen(40));
    assert!(!app.on_key(Key::Up, 0));
    assert!(!app.on_key(Key::Down, 0));
    assert_eq!(app.ui, betting_screen(40));

    let mut app = App { ui: betting_screen(15) };
    assert!(!app.on_key(Key::Left, 0));
    assert_eq!(app.ui, betting_screen(10));
    assert!(!app.on_key(Key::Left, 0));
    assert_eq!(app.ui, betting_screen(10));

    let mut app = App { ui: betting_screen(995) };
    assert!(!app.on_key(Key::Right, 0));
    assert_eq!(app.ui, betting_screen(1_000));
    assert!(!app.on_key(Key::Right, 0));
    assert_eq!(app.ui, betting_screen(1_000));

    // A bet under the step goes to the least bet, not under nothing.
    let mut app = App { ui: betting_screen(3) };
    assert!(!app.on_key(Key::Left, 0));
    assert_eq!(app.ui, betting_screen(10));
}

#[test]
fn the_bet_does_not_wrap() {
    let mut ui = betting_screen(u64::MAX - 3);
    ui.betting.as_mut().unwrap().max_bet = u64::MAX;
    let mut app = App { ui };
    assert!(!app.on_key(Key::Right, 0));
    assert_eq!(app.ui.betting.unwrap().current_bet, u64::MAX);

    let mut ui = betting_screen(u64::MAX - 3);
    ui.betting.as_mut().unwrap().max_bet = 100;
    let mut app = App { ui };
    assert!(!app.on_key(Key::Right, 0));
    assert_eq!(app.ui.betting.unwrap().current_bet, 100);
}

#[test]
fn enter_on_a_bet_starts_the_deal() {
    let mut app = App { ui: betting_screen(70) };
    assert!(!app.on_key(Key::Enter, 1234));
    assert_eq!(app.ui, dealing(0, 1234));
}

#[test]
fn the_deal_lays_a_card_every_half_second() {
    assert_eq!(DEAL_TICK_MS, 500);
    assert_eq!(DEAL_STEPS, 4);
    let mut app = App { ui: dealing(0, 1_000) };
    app.update_animation(1_000);
    assert_eq!(app.ui, dealing(0, 1_000));
    app.update_animation(1_499);
    assert_eq!(app.ui, dealing(0, 1_000));
    app.update_animation(1_500);
    assert_eq!(app.ui, dealing(1, 1_500));
    app.update_animation(1_999);
    assert_eq!(app.ui, dealing(1, 1_500));
    app.update_animation(2_700);
    assert_eq!(app.ui, dealing(2, 2_700));
    app.update_animation(3_200);
    assert_eq!(app.ui, dealing(3, 3_200));
    app.update_animation(3_700);
    assert_eq!(app.ui, dealing(4, 3_700));
    app.update_animation(4_199);
    assert_eq!(app.ui, dealing(4, 3_700));
    app.update_animation(4_200);
    assert_eq!(app.ui, player_turn_screen());
    app.update_animation(9_000);
    assert_eq!(app.ui, player_turn_screen());
}

#[test]
fn time_changes_nothing_without_a_deal_or_on_a_clock_gone_back() {
    for ui in [lobby_screen(), betting_screen(50), resolving_screen()] {
        let mut app = App { ui: ui.clone() };
        app.update_animation(u64::MAX);
        assert_eq!(app.ui, ui);
    }
    let mut app = App { ui: dealing(2, 5_000) };
    app.update_animation(0);
    assert_eq!(app.ui, dealing(2, 5_000));
    app.update_animation(4_999);
    assert_eq!(app.ui, dealing(2, 5_000));

    let mut app = App {
        ui: dealing(usize::MAX, 0),
    };
    app.update_animation(u64::MAX);
    assert_eq!(app.ui, player_turn_screen());
}

#[test]
fn the_picture_of_a_card() {
    let card = Card::new(DeckId::One, Suit::Spades, Rank::Ace);
    assert_eq!(
        card_text(&card),
        "╭──────╮\n│A♠  ♠ │\n│      │\n│ ♠  ♠A│\n╰──────╯"
    );
    let card = Card::new(DeckId::Two, Suit::Hearts, Rank::Ten);
    assert_eq!(
        card_text(&card),
        "╭──────╮\n│10  ♥ │\n│      │\n│ ♥  10│\n╰──────╯"
    );
    let card = Card::new(DeckId::Two, Suit::Diamonds, Rank::Queen);
    assert_eq!(
        card_text(&card),
        "╭──────╮\n│Q♦    │\n│  QQ  │\n│    ♦Q│\n╰──────╯"
    );
    let card = Card::new(DeckId::Four, Suit::Clubs, Rank::Seven);
    assert_eq!(
        card_text(&card),
        "╭──────╮\n│7♣  ♣ │\n│      │\n│ ♣  ♣7│\n╰──────╯"
    );
}

#[test]
fn every_picture_has_five_lines_of_eight() {
    assert_eq!(CARD_WIDTH, 8);
    assert_eq!(CARD_HEIGHT, 5);
    for rank in Rank::all() {
        let template = rank_template(rank);
        let lines: Vec<&str> = template.lines().collect();
        assert_eq!(lines.len(), CARD_HEIGHT as usize);
        for line in &lines {
            assert_eq!(line.chars().count(), CARD_WIDTH as usize);
        }
        assert_eq!(lines[0], "╭──────╮");
        assert_eq!(lines[4], "╰──────╯");
        for suit in Suit::all() {
            let text = card_text(&Card::new(DeckId::One, suit, rank));
            assert!(!text.contains('x'));
            assert_eq!(text, template.replace('x', &suit_symbol(suit).to_string()));
            assert_eq!(text.lines().count(), 5);
        }
    }
    assert_eq!(
        rank_template(Rank::King),
        "╭──────╮\n│Kx    │\n│  KK  │\n│    xK│\n╰──────╯"
    );
    assert_eq!(
        rank_template(Rank::Two),
        "╭──────╮\n│2x  x │\n│      │\n│ x  x2│\n╰──────╯"
    );
}

#[test]
fn the_signs_of_the_suits() {
    assert_eq!(suit_symbol(Suit::Clubs), '♣');
    assert_eq!(suit_symbol(Suit::Diamonds), '♦');
    assert_eq!(suit_symbol(Suit::Hearts), '♥');
    assert_eq!(suit_symbol(Suit::Spades), '♠');
}
