//! The game's domain: cards, hands, participants and the engine.

pub mod card;
pub mod dealer;
pub mod engine;
pub mod hand;
pub mod player;
pub mod table;

pub use card::{
    Card, CardError, Deck, DeckId, DeckIdError, Rank, RankError, Shoe, ShoeError, Suit, SuitError,
};
pub use table::{TableSettings, TableStatus};
