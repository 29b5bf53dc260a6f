use super::{Card, Rank, Suit};
use vstd::prelude::*;

verus! {

/// Which of the four decks of a shoe a card comes from. Its number runs from 1 to 4.
#[derive(Debug, PartialEq, Eq, Clone, Copy, Structural)]
pub enum DeckId {
    One,
    Two,
    Three,
    Four,
}

/// A number that names no deck.
#[derive(Debug, Clone, Copy, PartialEq, Eq, Structural)]
pub enum DeckIdError {
    /// The number given, which lies outside 1..=4.
    Invalid(u8),
}

impl DeckIdError {
    /// The number that was refused.
    pub fn value(&self) -> (value: u8)
        ensures
            *self == DeckIdError::Invalid(value),
    {
        match self {
            DeckIdError::Invalid(value) => *value,
        }
    }

    /// What went wrong, in words.
    pub fn as_str(&self) -> (text: &'static str)
        ensures
            text@ == "Invalid deck ID"@,
    {
        "Invalid deck ID"
    }
}

impl DeckId {
    /// The number of a deck; a card's byte stores it, less one, in bits 0 and 1.
    pub open spec fn spec_number(self) -> u8 {
        match self {
            DeckId::One => 1,
            DeckId::Two => 2,
            DeckId::Three => 3,
            DeckId::Four => 4,
        }
    }

    /// The deck with the given number, if there is one.
    pub open spec fn spec_from_number(value: u8) -> Option<DeckId> {
        if value == 1 {
            Some(DeckId::One)
        } else if value == 2 {
            Some(DeckId::Two)
        } else if value == 3 {
            Some(DeckId::Three)
        } else if value == 4 {
            Some(DeckId::Four)
        } else {
            None
        }
    }

    /// The number of this deck, between 1 and 4.
    pub fn number(self) -> (n: u8)
        ensures
            n == self.spec_number(),
            1 <= n <= 4,
    {
        match self {
            DeckId::One => 1,
            DeckId::Two => 2,
            DeckId::Three => 3,
            DeckId::Four => 4,
        }
    }

    /// The four decks in the order of their numbers.
    pub fn all() -> (ids: [DeckId; 4])
        ensures
            forall|i: int| 0 <= i < 4 ==> (#[trigger] ids@[i]).spec_number() == i + 1,
    {
        [DeckId::One, DeckId::Two, DeckId::Three, DeckId::Four]
    }
}

impl TryFrom<u8> for DeckId {
    type Error = DeckIdError;

    /// Reads a deck from its number; any number outside 1..=4 is handed back in the error.
    fn try_from(value: u8) -> (result: Result<DeckId, DeckIdError>) {
        match value {
            1 => Ok(DeckId::One),
            2 => Ok(DeckId::Two),
            3 => Ok(DeckId::Three),
            4 => Ok(DeckId::Four),
            _ => Err(DeckIdError::Invalid(value)),
        }
    }
}

impl vstd::std_specs::convert::TryFromSpecImpl<u8> for DeckId {
    open spec fn obeys_try_from_spec() -> bool {
        true
    }

    open spec fn try_from_spec(value: u8) -> Result<DeckId, DeckIdError> {
        match DeckId::spec_from_number(value) {
            Some(id) => Ok(id),
            None => Err(DeckIdError::Invalid(value)),
        }
    }
}

impl From<DeckId> for u8 {
    /// The number of the deck.
    fn from(deck: DeckId) -> (n: u8) {
        deck.number()
    }
}

impl vstd::std_specs::convert::FromSpecImpl<DeckId> for u8 {
    open spec fn obeys_from_spec() -> bool {
        true
    }

    open spec fn from_spec(deck: DeckId) -> u8 {
        deck.spec_number()
    }
}

/// Reading a deck's own number gives the deck back, and a number that reads as a
/// deck is that deck's number.
pub proof fn lemma_deck_number_round_trip(deck: DeckId, value: u8)
    ensures
        DeckId::spec_from_number(deck.spec_number()) == Some(deck),
        DeckId::spec_from_number(value) is Some <==> 1 <= value <= 4,
        DeckId::spec_from_number(value) is Some ==> DeckId::spec_from_number(
            value,
        )->Some_0.spec_number() == value,
{
}

/// The card that stands at a place of a full deck: the suits follow each other in
/// the order of their numbers, and within a suit the ranks from `Two` to `Ace`.
pub open spec fn spec_deck_card(id: DeckId, place: int) -> Card {
    Card {
        deck_id: id,
        suit: Suit::spec_from_number((place / 13) as u8)->Some_0,
        rank: Rank::spec_from_number((place % 13 + 2) as u8)->Some_0,
    }
}

/// An ordered pile of cards.
#[derive(Debug, PartialEq)]
pub struct Deck {
    pub cards: Vec<Card>,
}

impl View for Deck {
    type V = Seq<Card>;

    open spec fn view(&self) -> Seq<Card> {
        self.cards@
    }
}

impl Deck {
    /// The 52 cards of a full deck in their canonical order.
    pub open spec fn spec_default(id: DeckId) -> Seq<Card> {
        Seq::new(52, |place: int| spec_deck_card(id, place))
    }

    /// A full deck in canonical order: every pair of suit and rank once, each
    /// card marked with `id`.
    pub fn default(id: DeckId) -> (deck: Deck)
        ensures
            deck@ == Deck::spec_default(id),
    {
        let suits = Suit::all();
        let ranks = Rank::all();
        let mut cards: Vec<Card> = Vec::new();
        let mut s: usize = 0;
        while s < 4
            invariant
                s <= 4,
                cards@.len() == s * 13,
                forall|i: int| 0 <= i < 4 ==> (#[trigger] suits@[i]).spec_number() == i,
                forall|i: int| 0 <= i < 13 ==> (#[trigger] ranks@[i]).spec_number() == i + 2,
                forall|place: int|
                    0 <= place < cards@.len() ==> #[trigger] cards@[place] == spec_deck_card(
                        id,
                        place,
                    ),
            decreases 4 - s,
        {
            let mut r: usize = 0;
            while r < 13
                invariant
                    s < 4,
                    r <= 13,
                    cards@.len() == s * 13 + r,
                    forall|i: int| 0 <= i < 4 ==> (#[trigger] suits@[i]).spec_number() == i,
                    forall|i: int| 0 <= i < 13 ==> (#[trigger] ranks@[i]).spec_number() == i + 2,
                    forall|place: int|
                        0 <= place < cards@.len() ==> #[trigger] cards@[place] == spec_deck_card(
                            id,
                            place,
                        ),
                decreases 13 - r,
            {
                let card = Card::new(id, suits[s], ranks[r]);
                proof {
                    let place = cards@.len() as int;
                    assert(place / 13 == s && place % 13 == r) by (nonlinear_arith)
                        requires
                            place == s * 13 + r,
                            0 <= r < 13,
                    ;
                    assert(suits@[s as int].spec_number() == s);
                    assert(ranks@[r as int].spec_number() == r + 2);
                    assert(card == spec_deck_card(id, place));
                }
                cards.push(card);
                r += 1;
            }
            s += 1;
        }
        assert(cards@ =~= Deck::spec_default(id));
        Deck { cards }
    }
}

} // verus!
