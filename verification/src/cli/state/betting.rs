use vstd::prelude::*;

verus! {

/// The bet that is being chosen.
#[derive(Debug, Clone, Copy, PartialEq, Eq, Structural)]
pub struct BettingState {
    pub min_bet: u64,
    pub max_bet: u64,
    pub current_bet: u64,
    /// By how much a key changes the bet.
    pub step: u64,
    pub confirmed: bool,
}

} // verus!
