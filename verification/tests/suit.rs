use blackjack::domain::{Suit, SuitError};

#[test]
fn suit_test_try_from() {
    assert_eq!(Suit::try_from(0), Ok(Suit::Hearts));
    assert_eq!(Suit::try_from(1), Ok(Suit::Spades));
    assert_eq!(Suit::try_from(2), Ok(Suit::Diamonds));
    assert_eq!(Suit::try_from(3), Ok(Suit::Clubs));
    assert_eq!(Suit::try_from(4), Err(SuitError::Invalid(4)));
}

#[test]
fn test_try_from() {
    let read = |value: u8| Suit::try_from(value).map_err(|error| error.as_str());
    assert_eq!(read(0), Ok(Suit::Hearts));
    assert_eq!(read(1), Ok(Suit::Spades));
    assert_eq!(read(2), Ok(Suit::Diamonds));
    assert_eq!(read(3), Ok(Suit::Clubs));
    assert_eq!(read(4), Err("Invalid suit value"));
}

#[test]
fn suit_numbers() {
    let suits = Suit::all();
    assert_eq!(
        suits,
        [Suit::Hearts, Suit::Spades, Suit::Diamonds, Suit::Clubs]
    );
    for (i, suit) in suits.iter().enumerate() {
        assert_eq!(suit.number() as usize, i);
    }
    assert_eq!(Suit::try_from(255), Err(SuitError::Invalid(255)));
    assert_eq!(Suit::try_from(255).unwrap_err().value(), 255);
}
