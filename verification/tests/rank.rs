use blackjack::domain::{Rank, RankError};

#[test]
fn rank_test_try_from_valid_values() {
    assert_eq!(Rank::try_from(2).unwrap(), Rank::Two);
    assert_eq!(Rank::try_from(3).unwrap(), Rank::Three);
    assert_eq!(Rank::try_from(4).unwrap(), Rank::Four);
    assert_eq!(Rank::try_from(5).unwrap(), Rank::Five);
    assert_eq!(Rank::try_from(6).unwrap(), Rank::Six);
    assert_eq!(Rank::try_from(7).unwrap(), Rank::Seven);
    assert_eq!(Rank::try_from(8).unwrap(), Rank::Eight);
    assert_eq!(Rank::try_from(9).unwrap(), Rank::Nine);
    assert_eq!(Rank::try_from(10).unwrap(), Rank::Ten);
    assert_eq!(Rank::try_from(11).unwrap(), Rank::Jack);
    assert_eq!(Rank::try_from(12).unwrap(), Rank::Queen);
    assert_eq!(Rank::try_from(13).unwrap(), Rank::King);
    assert_eq!(Rank::try_from(14).unwrap(), Rank::Ace);
}

#[test]
fn rank_test_try_from_invalid_values() {
    assert_eq!(Rank::try_from(1).unwrap_err(), RankError::Invalid(1));
    assert_eq!(Rank::try_from(15).unwrap_err(), RankError::Invalid(15));
    assert_eq!(Rank::try_from(0).unwrap_err(), RankError::Invalid(0));
    assert_eq!(Rank::try_from(255).unwrap_err(), RankError::Invalid(255));
}

#[test]
fn test_try_from_valid_values() {
    assert_eq!(Rank::try_from(2).unwrap(), Rank::Two);
    assert_eq!(Rank::try_from(3).unwrap(), Rank::Three);
    assert_eq!(Rank::try_from(4).unwrap(), Rank::Four);
    assert_eq!(Rank::try_from(5).unwrap(), Rank::Five);
    assert_eq!(Rank::try_from(6).unwrap(), Rank::Six);
    assert_eq!(Rank::try_from(7).unwrap(), Rank::Seven);
    assert_eq!(Rank::try_from(8).unwrap(), Rank::Eight);
    assert_eq!(Rank::try_from(9).unwrap(), Rank::Nine);
    assert_eq!(Rank::try_from(10).unwrap(), Rank::Ten);
    assert_eq!(Rank::try_from(11).unwrap(), Rank::Jack);
    assert_eq!(Rank::try_from(12).unwrap(), Rank::Queen);
    assert_eq!(Rank::try_from(13).unwrap(), Rank::King);
    assert_eq!(Rank::try_from(14).unwrap(), Rank::Ace);
}

#[test]
fn test_try_from_invalid_values() {
    assert_eq!(Rank::try_from(1).unwrap_err().as_str(), "Invalid rank value");
    assert_eq!(Rank::try_from(15).unwrap_err().as_str(), "Invalid rank value");
    assert_eq!(Rank::try_from(0).unwrap_err().as_str(), "Invalid rank value");
    assert_eq!(Rank::try_from(255).unwrap_err().as_str(), "Invalid rank value");
}

#[test]
fn rank_numbers_and_points() {
    let ranks = Rank::all();
    assert_eq!(ranks.len(), 13);
    for (i, rank) in ranks.iter().enumerate() {
        assert_eq!(rank.number() as usize, i + 2);
        assert_eq!(Rank::try_from(rank.number()), Ok(*rank));
    }
    assert_eq!(Rank::Two.hard_points(), 2);
    assert_eq!(Rank::Nine.hard_points(), 9);
    assert_eq!(Rank::Ten.hard_points(), 10);
    assert_eq!(Rank::Jack.hard_points(), 10);
    assert_eq!(Rank::Queen.hard_points(), 10);
    assert_eq!(Rank::King.hard_points(), 10);
    assert_eq!(Rank::Ace.hard_points(), 1);
    assert_eq!(Rank::try_from(200).unwrap_err().value(), 200);
}
