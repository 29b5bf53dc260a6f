use vstd::prelude::*;

verus! {

/// The suit of a card. Its number runs from 0 for `Hearts` to 3 for `Clubs`.
#[derive(Debug, PartialEq, Eq, Clone, Copy, Structural)]
pub enum Suit {
    Hearts,
    Spades,
    Diamonds,
    Clubs,
}

/// A number that is no suit.
#[derive(Debug, Clone, Copy, PartialEq, Eq, Structural)]
pub enum SuitError {
    /// The number given, which lies above 3.
    Invalid(u8),
}

impl SuitError {
    /// The number that was refused.
    pub fn value(&self) -> (value: u8)
        ensures
            *self == SuitError::Invalid(value),
    {
        match self {
            SuitError::Invalid(value) => *value,
        }
    }

    /// What went wrong, in words.
    pub fn as_str(&self) -> (text: &'static str)
        ensures
            text@ == "Invalid suit value"@,
    {
        "Invalid suit value"
    }
}

impl Suit {
    /// The number of a suit, as it is stored in bits 2 and 3 of a card's byte.
    pub open spec fn spec_number(self) -> u8 {
        match self {
            Suit::Hearts => 0,
            Suit::Spades => 1,
            Suit::Diamonds => 2,
            Suit::Clubs => 3,
        }
    }

    /// The suit with the given number, if there is one.
    pub open spec fn spec_from_number(value: u8) -> Option<Suit> {
        if value == 0 {
            Some(Suit::Hearts)
        } else if value == 1 {
            Some(Suit::Spades)
        } else if value == 2 {
            Some(Suit::Diamonds)
        } else if value == 3 {
            Some(Suit::Clubs)
        } else {
            None
        }
    }

    /// The number of this suit, between 0 and 3.
    pub fn number(self) -> (n: u8)
        ensures
            n == self.spec_number(),
            n <= 3,
    {
        match self {
            Suit::Hearts => 0,
            Suit::Spades => 1,
            Suit::Diamonds => 2,
            Suit::Clubs => 3,
        }
    }

    /// The four suits in the order of their numbers.
    pub fn all() -> (suits: [Suit; 4])
        ensures
            forall|i: int| 0 <= i < 4 ==> (#[trigger] suits@[i]).spec_number() == i,
    {
        [Suit::Hearts, Suit::Spades, Suit::Diamonds, Suit::Clubs]
    }
}

impl TryFrom<u8> for Suit {
    type Error = SuitError;

    /// Reads a suit from its number; any number above 3 is handed back in the error.
    fn try_from(value: u8) -> (result: Result<Suit, SuitError>) {
        match value {
            0 => Ok(Suit::Hearts),
            1 => Ok(Suit::Spades),
            2 => Ok(Suit::Diamonds),
            3 => Ok(Suit::Clubs),
            _ => Err(SuitError::Invalid(value)),
        }
    }
}

impl vstd::std_specs::convert::TryFromSpecImpl<u8> for Suit {
    open spec fn obeys_try_from_spec() -> bool {
        true
    }

    open spec fn try_from_spec(value: u8) -> Result<Suit, SuitError> {
        match Suit::spec_from_number(value) {
            Some(suit) => Ok(suit),
            None => Err(SuitError::Invalid(value)),
        }
    }
}

/// Reading a suit's own number gives the suit back, and a number that reads as a
/// suit is that suit's number.
pub proof fn lemma_suit_number_round_trip(suit: Suit, value: u8)
    ensures
        Suit::spec_from_number(suit.spec_number()) == Some(suit),
        Suit::spec_from_number(value) is Some <==> value <= 3,
        Suit::spec_from_number(value) is Some ==> Suit::spec_from_number(
            value,
        )->Some_0.spec_number() == value,
{
}

} // verus!
