use blackjack::domain::hand::{Hand, HandValue};
use blackjack::domain::{Card, DeckId, Rank, Suit};

fn create_hand(ranks: Vec<Rank>) -> Hand {
    let mut hand = Hand::new();
    for rank in ranks {
        hand.add_card(Card {
            deck_id: DeckId::One, // Deck ID doesn't matter for value calculation
            rank,
            suit: Suit::Spades, // Suit doesn't matter for value calculation
        });
    }
    hand
}

#[test]
fn test_simple_hard_hand() {
    let hand = create_hand(vec![Rank::King, Rank::Queen]);
    assert_eq!(hand.value(), HandValue::Single { value: 20 });
}

#[test]
fn test_simple_soft_hand() {
    let hand = create_hand(vec![Rank::Ace, Rank::Seven]);
    assert_eq!(hand.value(), HandValue::Dual { soft: 18, hard: 8 });
}

#[test]
fn test_blackjack() {
    let hand = create_hand(vec![Rank::Ace, Rank::King]);
    assert_eq!(hand.value(), HandValue::Dual { soft: 21, hard: 11 });
}

#[test]
fn test_bust_hand() {
    let hand = create_hand(vec![Rank::King, Rank::Queen, Rank::Five]);
    assert_eq!(hand.value(), HandValue::Bust { value: 25 });
}

#[test]
fn test_soft_hand_becomes_hard() {
    // A, 5, 10 = 16 (soft 16 would be 26, which busts, so it's hard 16)
    let hand = create_hand(vec![Rank::Ace, Rank::Five, Rank::Ten]);
    assert_eq!(hand.value(), HandValue::Single { value: 16 });
}

#[test]
fn test_multiple_aces_soft() {
    // A, A, 9 = soft 21 (one ace as 11, one as 1), hard 11
    let hand = create_hand(vec![Rank::Ace, Rank::Ace, Rank::Nine]);
    assert_eq!(hand.value(), HandValue::Dual { soft: 21, hard: 11 });
}

#[test]
fn test_multiple_aces_hard() {
    // A, A, A = soft 13 (one ace as 11, two as 1), hard 3
    let hand = create_hand(vec![Rank::Ace, Rank::Ace, Rank::Ace]);
    assert_eq!(hand.value(), HandValue::Dual { soft: 13, hard: 3 });
}

#[test]
fn test_low_value_hand() {
    let hand = create_hand(vec![Rank::Two, Rank::Three]);
    assert_eq!(hand.value(), HandValue::Single { value: 5 });
}

#[test]
fn test_exactly_21() {
    let hand = create_hand(vec![Rank::Seven, Rank::Seven, Rank::Seven]);
    assert_eq!(hand.value(), HandValue::Single { value: 21 });
}

#[test]
fn test_face_cards() {
    let hand = create_hand(vec![Rank::Jack, Rank::Queen, Rank::King]);
    assert_eq!(hand.value(), HandValue::Bust { value: 30 });
}

#[test]
fn test_ace_with_ten_value_cards() {
    // Ace with Jack
    let hand = create_hand(vec![Rank::Ace, Rank::Jack]);
    assert_eq!(hand.value(), HandValue::Dual { soft: 21, hard: 11 });

    // Ace with Queen
    let hand = create_hand(vec![Rank::Ace, Rank::Queen]);
    assert_eq!(hand.value(), HandValue::Dual { soft: 21, hard: 11 });

    // Ace with King
    let hand = create_hand(vec![Rank::Ace, Rank::King]);
    assert_eq!(hand.value(), HandValue::Dual { soft: 21, hard: 11 });
}

#[test]
fn test_empty_hand() {
    let hand = Hand::new();
    assert_eq!(hand.value(), HandValue::Single { value: 0 });
}

#[test]
fn test_single_ace() {
    let hand = create_hand(vec![Rank::Ace]);
    assert_eq!(hand.value(), HandValue::Dual { soft: 11, hard: 1 });
}

#[test]
fn test_complex_multi_card_hand() {
    // 2, 3, 4, 5, 6 = 20
    let hand = create_hand(vec![
        Rank::Two,
        Rank::Three,
        Rank::Four,
        Rank::Five,
        Rank::Six,
    ]);
    assert_eq!(hand.value(), HandValue::Single { value: 20 });
}

#[test]
fn add_card_appends() {
    let mut hand = Hand::new();
    assert!(hand.cards.is_empty());
    let king = Card::new(DeckId::Two, Suit::Hearts, Rank::King);
    let five = Card::new(DeckId::One, Suit::Clubs, Rank::Five);
    hand.add_card(king);
    hand.add_card(five);
    hand.add_card(king);
    assert_eq!(hand.cards, vec![king, five, king]);
}

#[test]
fn hard_total_and_tally() {
    let hand = create_hand(vec![Rank::Ace, Rank::Ace, Rank::Nine]);
    assert_eq!(hand.hard_total(), 11);
    assert_eq!(hand.tally(), (11, true));
    let hand = create_hand(vec![Rank::King, Rank::Queen, Rank::Five]);
    assert_eq!(hand.hard_total(), 25);
    assert_eq!(hand.tally(), (25, false));
    assert_eq!(Hand::new().tally(), (0, false));
}

#[test]
fn a_hand_of_many_cards_has_its_full_total() {
    // Forty tens count 400, more than a byte holds.
    let hand = create_hand(vec![Rank::Ten; 40]);
    assert_eq!(hand.value(), HandValue::Bust { value: 400 });
    // Twelve aces count 12 hard; one of them at 11 would make 22.
    let hand = create_hand(vec![Rank::Ace; 12]);
    assert_eq!(hand.value(), HandValue::Single { value: 12 });
    // Eleven aces: 11 hard, 21 soft.
    let hand = create_hand(vec![Rank::Ace; 11]);
    assert_eq!(hand.value(), HandValue::Dual { soft: 21, hard: 11 });
    // Twenty-two aces are bust.
    let hand = create_hand(vec![Rank::Ace; 22]);
    assert_eq!(hand.value(), HandValue::Bust { value: 22 });
}

#[test]
fn value_of_a_total() {
    assert_eq!(HandValue::of(0, false), HandValue::Single { value: 0 });
    assert_eq!(HandValue::of(11, true), HandValue::Dual { soft: 21, hard: 11 });
    assert_eq!(HandValue::of(12, true), HandValue::Single { value: 12 });
    assert_eq!(HandValue::of(11, false), HandValue::Single { value: 11 });
    assert_eq!(HandValue::of(21, true), HandValue::Single { value: 21 });
    assert_eq!(HandValue::of(22, true), HandValue::Bust { value: 22 });
    assert_eq!(HandValue::of(22, false), HandValue::Bust { value: 22 });
}

#[test]
fn best_and_bust() {
    assert_eq!(HandValue::Single { value: 17 }.best(), 17);
    assert_eq!(HandValue::Dual { soft: 18, hard: 8 }.best(), 18);
    assert_eq!(HandValue::Bust { value: 25 }.best(), 25);
    assert!(HandValue::Bust { value: 25 }.is_bust());
    assert!(!HandValue::Single { value: 21 }.is_bust());
    assert!(!HandValue::Dual { soft: 21, hard: 11 }.is_bust());
}

#[test]
fn blackjack_is_two_cards_that_count_21() {
    assert!(create_hand(vec![Rank::Ace, Rank::King]).is_blackjack());
    assert!(create_hand(vec![Rank::Ten, Rank::Ace]).is_blackjack());
    assert!(!create_hand(vec![Rank::Seven, Rank::Seven, Rank::Seven]).is_blackjack());
    assert!(!create_hand(vec![Rank::Ace, Rank::Five, Rank::Five]).is_blackjack());
    assert!(!create_hand(vec![Rank::King, Rank::Queen]).is_blackjack());
    assert!(!create_hand(vec![Rank::Ace]).is_blackjack());
    assert!(!Hand::new().is_blackjack());
}
