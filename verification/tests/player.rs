use blackjack::domain::dealer::{DealerId, DealerState};
use blackjack::domain::engine::action::PlayerDecision;
use blackjack::domain::player::{BetError, PlayerId, PlayerState};

#[test]
fn new_player_has_nothing() {
    let player = PlayerState::new(PlayerId(7));
    assert_eq!(player.player_id, PlayerId(7));
    assert!(player.hand.cards.is_empty());
    assert_eq!(player.balance, 0);
    assert_eq!(player.bet, None);
    assert!(player.decisions.is_empty());
}

#[test]
fn with_balance_sets_the_balance_only() {
    let player = PlayerState::with_balance(PlayerId(3), 250);
    assert_eq!(player.player_id, PlayerId(3));
    assert!(player.hand.cards.is_empty());
    assert_eq!(player.balance, 250);
    assert_eq!(player.bet, None);
    assert!(player.decisions.is_empty());
}

#[test]
fn place_bet_above_the_balance_is_refused() {
    let mut player = PlayerState::with_balance(PlayerId(1), 100);
    assert_eq!(player.place_bet(101), Err(BetError::InsufficientFunds));
    assert_eq!(player.balance, 100);
    assert_eq!(player.bet, None);
    assert_eq!(player.place_bet(u32::MAX), Err(BetError::InsufficientFunds));
    assert_eq!(player.balance, 100);
    assert_eq!(player.bet, None);
}

#[test]
fn place_bet_of_nothing_is_refused() {
    let mut player = PlayerState::with_balance(PlayerId(1), 100);
    assert_eq!(player.place_bet(0), Err(BetError::InvalidAmount));
    assert_eq!(player.balance, 100);
    assert_eq!(player.bet, None);

    let mut broke = PlayerState::new(PlayerId(2));
    assert_eq!(broke.place_bet(0), Err(BetError::InvalidAmount));
    assert_eq!(broke.place_bet(1), Err(BetError::InsufficientFunds));
    assert_eq!(broke.balance, 0);
    assert_eq!(broke.bet, None);
}

#[test]
fn place_bet_takes_the_amount_from_the_balance() {
    let mut player = PlayerState::with_balance(PlayerId(1), 100);
    assert_eq!(player.place_bet(30), Ok(()));
    assert_eq!(player.balance, 70);
    assert_eq!(player.bet, Some(30));
    assert_eq!(player.place_bet(70), Ok(()));
    assert_eq!(player.balance, 0);
    assert_eq!(player.bet, Some(70));
    assert_eq!(player.place_bet(1), Err(BetError::InsufficientFunds));
    assert_eq!(player.balance, 0);
    assert_eq!(player.bet, Some(70));
}

#[test]
fn clear_bet_and_add_winnings() {
    let mut player = PlayerState::with_balance(PlayerId(1), 100);
    player.place_bet(40).unwrap();
    player.clear_bet();
    assert_eq!(player.bet, None);
    assert_eq!(player.balance, 60);
    player.add_winnings(100);
    assert_eq!(player.balance, 160);
    assert_eq!(player.bet, None);
    player.add_winnings(0);
    assert_eq!(player.balance, 160);
}

#[test]
fn record_action_appends() {
    let mut player = PlayerState::new(PlayerId(1));
    player.record_action(PlayerDecision::Hit);
    player.record_action(PlayerDecision::Bet { amount: 5 });
    player.record_action(PlayerDecision::Stand);
    assert_eq!(
        player.decisions,
        vec![
            PlayerDecision::Hit,
            PlayerDecision::Bet { amount: 5 },
            PlayerDecision::Stand
        ]
    );
    assert_eq!(player.balance, 0);
    assert_eq!(player.bet, None);
}

#[test]
fn new_dealer_has_no_cards() {
    let dealer = DealerState::new(DealerId(9));
    assert_eq!(dealer.dealer_id, DealerId(9));
    assert!(dealer.hand.cards.is_empty());
}
