//! How a card looks on the screen, as text.

use crate::domain::card::{Card, Rank, Suit};
use vstd::prelude::*;

verus! {

/// The width of a drawn card in characters.
pub const CARD_WIDTH: u16 = 8;

/// The height of a drawn card in lines.
pub const CARD_HEIGHT: u16 = 5;

/// The picture of a card of the given rank, with `x` where its suit goes.
pub open spec fn spec_rank_template(rank: Rank) -> Seq<char> {
    match rank {
        Rank::Ace => "╭──────╮\n│Ax  x │\n│      │\n│ x  xA│\n╰──────╯"@,
        Rank::Two => "╭──────╮\n│2x  x │\n│      │\n│ x  x2│\n╰──────╯"@,
        Rank::Three => "╭──────╮\n│3x  x │\n│      │\n│ x  x3│\n╰──────╯"@,
        Rank::Four => "╭──────╮\n│4x  x │\n│      │\n│ x  x4│\n╰──────╯"@,
        Rank::Five => "╭──────╮\n│5x  x │\n│      │\n│ x  x5│\n╰──────╯"@,
        Rank::Six => "╭──────╮\n│6x  x │\n│      │\n│ x  x6│\n╰──────╯"@,
        Rank::Seven => "╭──────╮\n│7x  x │\n│      │\n│ x  x7│\n╰──────╯"@,
        Rank::Eight => "╭──────╮\n│8x  x │\n│      │\n│ x  x8│\n╰──────╯"@,
        Rank::Nine => "╭──────╮\n│9x  x │\n│      │\n│ x  x9│\n╰──────╯"@,
        Rank::Ten => "╭──────╮\n│10  x │\n│      │\n│ x  10│\n╰──────╯"@,
        Rank::Jack => "╭──────╮\n│Jx    │\n│  JJ  │\n│    xJ│\n╰──────╯"@,
        Rank::Queen => "╭──────╮\n│Qx    │\n│  QQ  │\n│    xQ│\n╰──────╯"@,
        Rank::King => "╭──────╮\n│Kx    │\n│  KK  │\n│    xK│\n╰──────╯"@,
    }
}

/// The sign of a suit.
pub open spec fn spec_suit_symbol(suit: Suit) -> char {
    match suit {
        Suit::Clubs => '♣',
        Suit::Diamonds => '♦',
        Suit::Hearts => '♥',
        Suit::Spades => '♠',
    }
}

/// The text with every `from` in it replaced by `to`.
pub open spec fn spec_replaced(text: Seq<char>, from: char, to: char) -> Seq<char> {
    text.map_values(
        |c: char|
            if c == from {
                to
            } else {
                c
            },
    )
}

/// The picture of a card: that of its rank with the sign of its suit put in.
pub open spec fn spec_card_text(card: Card) -> Seq<char> {
    spec_replaced(spec_rank_template(card.rank), 'x', spec_suit_symbol(card.suit))
}

/// `str::replace` with a character for the pattern and one for what takes
/// its place: the text comes back with every `from` in it changed to `to` and
/// every other character as it was.
#[verifier::external_body]
fn replace_char(text: &str, from: char, to: char) -> (replaced: String)
    ensures
        replaced@ == spec_replaced(text@, from, to),
{
    text.replace(from, to.encode_utf8(&mut [0; 4]))
}

/// The picture of a card of the given rank, five lines of eight characters,
/// with `x` where its suit goes.
pub fn rank_template(rank: Rank) -> (template: &'static str)
    ensures
        template@ == spec_rank_template(rank),
{
    match rank {
        Rank::Ace => "╭──────╮\n│Ax  x │\n│      │\n│ x  xA│\n╰──────╯",
        Rank::Two => "╭──────╮\n│2x  x │\n│      │\n│ x  x2│\n╰──────╯",
        Rank::Three => "╭──────╮\n│3x  x │\n│      │\n│ x  x3│\n╰──────╯",
        Rank::Four => "╭──────╮\n│4x  x │\n│      │\n│ x  x4│\n╰──────╯",
        Rank::Five => "╭──────╮\n│5x  x │\n│      │\n│ x  x5│\n╰──────╯",
        Rank::Six => "╭──────╮\n│6x  x │\n│      │\n│ x  x6│\n╰──────╯",
        Rank::Seven => "╭──────╮\n│7x  x │\n│      │\n│ x  x7│\n╰──────╯",
        Rank::Eight => "╭──────╮\n│8x  x │\n│      │\n│ x  x8│\n╰──────╯",
        Rank::Nine => "╭──────╮\n│9x  x │\n│      │\n│ x  x9│\n╰──────╯",
        Rank::Ten => "╭──────╮\n│10  x │\n│      │\n│ x  10│\n╰──────╯",
        Rank::Jack => "╭──────╮\n│Jx    │\n│  JJ  │\n│    xJ│\n╰──────╯",
        Rank::Queen => "╭──────╮\n│Qx    │\n│  QQ  │\n│    xQ│\n╰──────╯",
        Rank::King => "╭──────╮\n│Kx    │\n│  KK  │\n│    xK│\n╰──────╯",
    }
}

/// The sign of a suit.
pub fn suit_symbol(suit: Suit) -> (symbol: char)
    ensures
        symbol == spec_suit_symbol(suit),
{
    match suit {
        Suit::Clubs => '♣',
        Suit::Diamonds => '♦',
        Suit::Hearts => '♥',
        Suit::Spades => '♠',
    }
}

/// The picture of a card: that of its rank with the sign of its suit put in.
pub fn card_text(card: &Card) -> (text: String)
    ensures
        text@ == spec_card_text(*card),
{
    replace_char(rank_template(card.rank), 'x', suit_symbol(card.suit))
}

} // verus!
