use vstd::prelude::*;

verus! {

/// What a player asks to do.
#[derive(Debug, Clone, Copy, PartialEq, Eq, Structural)]
pub enum PlayerDecision {
    /// Put the amount at stake, before the cards are dealt.
    Bet { amount: u32 },
    /// Take one more card.
    Hit,
    /// Take no more cards.
    Stand,
}

} // verus!
