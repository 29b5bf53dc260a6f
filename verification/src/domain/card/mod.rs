//! Playing cards and their one-byte encoding.

mod deck;
mod rank;
mod shoe;
mod suit;

pub use deck::{
    lemma_deck_number_round_trip, spec_deck_card, Deck, DeckId, DeckIdError,
};
pub use rank::{lemma_rank_number_round_trip, Rank, RankError};
pub use shoe::{
    lemma_canonical_shoe, lemma_flatten_skips_empty, lemma_shoe_card_place, spec_card_place,
    spec_piles, spec_shoe_card, Shoe, ShoeError,
};
pub use suit::{lemma_suit_number_round_trip, Suit, SuitError};

use vstd::prelude::*;

verus! {

/// A playing card: a suit and a rank, and the deck it comes from.
///
/// A card fits in one byte:
///
/// | bits | field                       |
/// |------|-----------------------------|
/// | 0–1  | the deck's number, less one |
/// | 2–3  | the suit's number           |
/// | 4–7  | the rank's number           |
#[derive(Debug, PartialEq, Eq, Clone, Copy, Structural)]
pub struct Card {
    pub deck_id: DeckId,
    pub suit: Suit,
    pub rank: Rank,
}

/// Why three numbers, or a byte, are no card: the field that is out of range,
/// with the number found there.
#[derive(Debug, Clone, Copy, PartialEq, Eq, Structural)]
pub enum CardError {
    DeckId(DeckIdError),
    Suit(SuitError),
    Rank(RankError),
}

impl Card {
    /// The byte that stands for a card.
    pub open spec fn spec_encode(self) -> u8 {
        ((self.deck_id.spec_number() - 1) + 4 * self.suit.spec_number() + 16
            * self.rank.spec_number()) as u8
    }

    /// The card made of a deck's, a suit's and a rank's number. The first field
    /// out of range, in that order, is the one reported.
    pub open spec fn spec_from_numbers(deck_id: u8, suit: u8, rank: u8) -> Result<Card, CardError> {
        match DeckId::spec_from_number(deck_id) {
            None => Err(CardError::DeckId(DeckIdError::Invalid(deck_id))),
            Some(d) => match Suit::spec_from_number(suit) {
                None => Err(CardError::Suit(SuitError::Invalid(suit))),
                Some(s) => match Rank::spec_from_number(rank) {
                    None => Err(CardError::Rank(RankError::Invalid(rank))),
                    Some(r) => Ok(Card { deck_id: d, suit: s, rank: r }),
                },
            },
        }
    }

    /// The card that a byte stands for, or the field of the byte that is out of range.
    pub open spec fn spec_decode(byte: u8) -> Result<Card, CardError> {
        Card::spec_from_numbers((byte % 4 + 1) as u8, (byte / 4 % 4) as u8, byte / 16)
    }

    /// Creates a card.
    pub fn new(deck_id: DeckId, suit: Suit, rank: Rank) -> (card: Card)
        ensures
            card == (Card { deck_id, suit, rank }),
    {
        Card { deck_id, suit, rank }
    }

    /// Builds a card from the numbers of its deck, suit and rank, and says which
    /// number is out of range where one is.
    pub fn from_numbers(deck_id: u8, suit: u8, rank: u8) -> (result: Result<Card, CardError>)
        ensures
            result == Card::spec_from_numbers(deck_id, suit, rank),
    {
        let deck_id = match DeckId::try_from(deck_id) {
            Ok(d) => d,
            Err(e) => {
                return Err(CardError::DeckId(e));
            },
        };
        let suit = match Suit::try_from(suit) {
            Ok(s) => s,
            Err(e) => {
                return Err(CardError::Suit(e));
            },
        };
        let rank = match Rank::try_from(rank) {
            Ok(r) => r,
            Err(e) => {
                return Err(CardError::Rank(e));
            },
        };
        Ok(Card { deck_id, suit, rank })
    }

    /// Packs the card into its byte.
    pub fn encode(self) -> (byte: u8)
        ensures
            byte == self.spec_encode(),
            byte & 0b0000_0011 == self.deck_id.spec_number() - 1,
            (byte >> 2) & 0b0000_0011 == self.suit.spec_number(),
            byte >> 4 == self.rank.spec_number(),
    {
        let d: u8 = self.deck_id.number() - 1;
        let s: u8 = self.suit.number();
        let r: u8 = self.rank.number();
        let byte: u8 = d | (s << 2) | (r << 4);
        assert(byte == d + 4 * s + 16 * r && byte & 0b0000_0011 == d && (byte >> 2) & 0b0000_0011
            == s && byte >> 4 == r) by (bit_vector)
            requires
                d <= 3,
                s <= 3,
                r <= 15,
                byte == d | (s << 2) | (r << 4),
        ;
        byte
    }

    /// Unpacks a byte. Every byte holds a deck and a suit; it is a card unless
    /// its high four bits are no rank.
    pub fn decode(byte: u8) -> (result: Result<Card, CardError>)
        ensures
            result == Card::spec_decode(byte),
    {
        let d: u8 = byte & 0b0000_0011;
        let s: u8 = (byte >> 2) & 0b0000_0011;
        let r: u8 = byte >> 4;
        assert(d == byte % 4 && s == byte / 4 % 4 && r == byte / 16) by (bit_vector)
            requires
                d == byte & 0b0000_0011,
                s == (byte >> 2) & 0b0000_0011,
                r == byte >> 4,
        ;
        Card::from_numbers(d + 1, s, r)
    }
}

impl TryFrom<u8> for Card {
    type Error = CardError;

    /// Unpacks a byte, as `Card::decode` does.
    fn try_from(byte: u8) -> (result: Result<Card, CardError>) {
        Card::decode(byte)
    }
}

impl vstd::std_specs::convert::TryFromSpecImpl<u8> for Card {
    open spec fn obeys_try_from_spec() -> bool {
        true
    }

    open spec fn try_from_spec(byte: u8) -> Result<Card, CardError> {
        Card::spec_decode(byte)
    }
}

impl From<Card> for u8 {
    /// Packs the card into its byte, as `Card::encode` does.
    fn from(card: Card) -> (byte: u8) {
        card.encode()
    }
}

impl vstd::std_specs::convert::FromSpecImpl<Card> for u8 {
    open spec fn obeys_from_spec() -> bool {
        true
    }

    open spec fn from_spec(card: Card) -> u8 {
        card.spec_encode()
    }
}

/// Decoding the byte of a card gives the card back.
pub proof fn lemma_decode_encode(card: Card)
    ensures
        Card::spec_decode(card.spec_encode()) == Ok::<Card, CardError>(card),
{
    lemma_deck_number_round_trip(card.deck_id, 0);
    lemma_suit_number_round_trip(card.suit, 0);
    lemma_rank_number_round_trip(card.rank, 0);
}

/// A byte that decodes to a card is the byte of that card: no two bytes stand
/// for one card.
pub proof fn lemma_encode_decode(byte: u8)
    requires
        Card::spec_decode(byte) is Ok,
    ensures
        Card::spec_decode(byte)->Ok_0.spec_encode() == byte,
{
    lemma_deck_number_round_trip(DeckId::One, (byte % 4 + 1) as u8);
    lemma_suit_number_round_trip(Suit::Hearts, (byte / 4 % 4) as u8);
    lemma_rank_number_round_trip(Rank::Two, byte / 16);
}

/// A byte fails to decode exactly when its high four bits are no rank, that is
/// 0, 1 or 15, and the error then names the rank and holds those bits. The
/// deck and suit fields of a byte are never out of range.
pub proof fn lemma_decode_rejects(byte: u8)
    ensures
        Card::spec_decode(byte) is Err <==> !(2 <= byte / 16 <= 14),
        Card::spec_decode(byte) is Err ==> Card::spec_decode(byte) == Err::<Card, CardError>(
            CardError::Rank(RankError::Invalid(byte / 16)),
        ),
{
    lemma_deck_number_round_trip(DeckId::One, (byte % 4 + 1) as u8);
    lemma_suit_number_round_trip(Suit::Hearts, (byte / 4 % 4) as u8);
    lemma_rank_number_round_trip(Rank::Two, byte / 16);
}

/// Of three numbers the first that is out of range is reported: the deck's
/// outside 1..=4, else the suit's above 3, else the rank's outside 2..=14; and
/// three numbers in range are a card.
pub proof fn lemma_from_numbers_rejects(deck_id: u8, suit: u8, rank: u8)
    ensures
        !(1 <= deck_id <= 4) ==> Card::spec_from_numbers(deck_id, suit, rank) == Err::<
            Card,
            CardError,
        >(CardError::DeckId(DeckIdError::Invalid(deck_id))),
        1 <= deck_id <= 4 && suit > 3 ==> Card::spec_from_numbers(deck_id, suit, rank) == Err::<
            Card,
            CardError,
        >(CardError::Suit(SuitError::Invalid(suit))),
        1 <= deck_id <= 4 && suit <= 3 && !(2 <= rank <= 14) ==> Card::spec_from_numbers(
            deck_id,
            suit,
            rank,
        ) == Err::<Card, CardError>(CardError::Rank(RankError::Invalid(rank))),
        1 <= deck_id <= 4 && suit <= 3 && 2 <= rank <= 14 ==> {
            let card = Card::spec_from_numbers(deck_id, suit, rank);
            &&& card is Ok
            &&& card->Ok_0.deck_id.spec_number() == deck_id
            &&& card->Ok_0.suit.spec_number() == suit
            &&& card->Ok_0.rank.spec_number() == rank
        },
{
    lemma_deck_number_round_trip(DeckId::One, deck_id);
    lemma_suit_number_round_trip(Suit::Hearts, suit);
    lemma_rank_number_round_trip(Rank::Two, rank);
}

} // verus!
