use vstd::prelude::*;

verus! {

/// The rank of a card. Its number runs from 2 for `Two` to 14 for `Ace`.
#[derive(Debug, Clone, Copy, PartialEq, Eq, Structural)]
pub enum Rank {
    Two,
    Three,
    Four,
    Five,
    Six,
    Seven,
    Eight,
    Nine,
    Ten,
    Jack,
    Queen,
    King,
    Ace,
}

/// A number that is no rank.
#[derive(Debug, Clone, Copy, PartialEq, Eq, Structural)]
pub enum RankError {
    /// The number given, which lies outside 2..=14.
    Invalid(u8),
}

impl RankError {
    /// The number that was refused.
    pub fn value(&self) -> (value: u8)
        ensures
            *self == RankError::Invalid(value),
    {
        match self {
            RankError::Invalid(value) => *value,
        }
    }

    /// What went wrong, in words.
    pub fn as_str(&self) -> (text: &'static str)
        ensures
            text@ == "Invalid rank value"@,
    {
        "Invalid rank value"
    }
}

impl Rank {
    /// The number of a rank, as it is stored in the high four bits of a card's byte.
    pub open spec fn spec_number(self) -> u8 {
        match self {
            Rank::Two => 2,
            Rank::Three => 3,
            Rank::Four => 4,
            Rank::Five => 5,
            Rank::Six => 6,
            Rank::Seven => 7,
            Rank::Eight => 8,
            Rank::Nine => 9,
            Rank::Ten => 10,
            Rank::Jack => 11,
            Rank::Queen => 12,
            Rank::King => 13,
            Rank::Ace => 14,
        }
    }

    /// The rank with the given number, if there is one.
    pub open spec fn spec_from_number(value: u8) -> Option<Rank> {
        if value == 2 {
            Some(Rank::Two)
        } else if value == 3 {
            Some(Rank::Three)
        } else if value == 4 {
            Some(Rank::Four)
        } else if value == 5 {
            Some(Rank::Five)
        } else if value == 6 {
            Some(Rank::Six)
        } else if value == 7 {
            Some(Rank::Seven)
        } else if value == 8 {
            Some(Rank::Eight)
        } else if value == 9 {
            Some(Rank::Nine)
        } else if value == 10 {
            Some(Rank::Ten)
        } else if value == 11 {
            Some(Rank::Jack)
        } else if value == 12 {
            Some(Rank::Queen)
        } else if value == 13 {
            Some(Rank::King)
        } else if value == 14 {
            Some(Rank::Ace)
        } else {
            None
        }
    }

    /// What a rank counts in a hand when every ace counts 1.
    pub open spec fn spec_hard_points(self) -> nat {
        match self {
            Rank::Ace => 1,
            Rank::Ten | Rank::Jack | Rank::Queen | Rank::King => 10,
            _ => self.spec_number() as nat,
        }
    }

    /// The number of this rank, between 2 and 14.
    pub fn number(self) -> (n: u8)
        ensures
            n == self.spec_number(),
            2 <= n <= 14,
    {
        match self {
            Rank::Two => 2,
            Rank::Three => 3,
            Rank::Four => 4,
            Rank::Five => 5,
            Rank::Six => 6,
            Rank::Seven => 7,
            Rank::Eight => 8,
            Rank::Nine => 9,
            Rank::Ten => 10,
            Rank::Jack => 11,
            Rank::Queen => 12,
            Rank::King => 13,
            Rank::Ace => 14,
        }
    }

    /// What this rank counts in a hand when every ace counts 1: an ace 1, a
    /// ten and each court card 10, any other rank its number.
    pub fn hard_points(self) -> (points: u8)
        ensures
            points == self.spec_hard_points(),
            1 <= points <= 10,
    {
        match self {
            Rank::Ace => 1,
            Rank::Ten | Rank::Jack | Rank::Queen | Rank::King => 10,
            _ => self.number(),
        }
    }

    /// The thirteen ranks from `Two` up to `Ace`.
    pub fn all() -> (ranks: [Rank; 13])
        ensures
            forall|i: int| 0 <= i < 13 ==> (#[trigger] ranks@[i]).spec_number() == i + 2,
    {
        [
            Rank::Two,
            Rank::Three,
            Rank::Four,
            Rank::Five,
            Rank::Six,
            Rank::Seven,
            Rank::Eight,
            Rank::Nine,
            Rank::Ten,
            Rank::Jack,
            Rank::Queen,
            Rank::King,
            Rank::Ace,
        ]
    }
}

impl TryFrom<u8> for Rank {
    type Error = RankError;

    /// Reads a rank from its number; any number outside 2..=14 is handed back in the error.
    fn try_from(value: u8) -> (result: Result<Rank, RankError>) {
        match value {
            2 => Ok(Rank::Two),
            3 => Ok(Rank::Three),
            4 => Ok(Rank::Four),
            5 => Ok(Rank::Five),
            6 => Ok(Rank::Six),
            7 => Ok(Rank::Seven),
            8 => Ok(Rank::Eight),
            9 => Ok(Rank::Nine),
            10 => Ok(Rank::Ten),
            11 => Ok(Rank::Jack),
            12 => Ok(Rank::Queen),
            13 => Ok(Rank::King),
            14 => Ok(Rank::Ace),
            _ => Err(RankError::Invalid(value)),
        }
    }
}

impl vstd::std_specs::convert::TryFromSpecImpl<u8> for Rank {
    open spec fn obeys_try_from_spec() -> bool {
        true
    }

    open spec fn try_from_spec(value: u8) -> Result<Rank, RankError> {
        match Rank::spec_from_number(value) {
            Some(rank) => Ok(rank),
            None => Err(RankError::Invalid(value)),
        }
    }
}

/// Reading a rank's own number gives the rank back, and a number that reads as a
/// rank is that rank's number.
pub proof fn lemma_rank_number_round_trip(rank: Rank, value: u8)
    ensures
        Rank::spec_from_number(rank.spec_number()) == Some(rank),
        Rank::spec_from_number(value) is Some <==> 2 <= value <= 14,
        Rank::spec_from_number(value) is Some ==> Rank::spec_from_number(
            value,
        )->Some_0.spec_number() == value,
{
}

} // verus!
