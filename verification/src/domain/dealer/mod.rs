//! The dealer of a game.

mod dealer_state;

pub use dealer_state::{DealerState, DealerStateView};

use vstd::prelude::*;

verus! {

/// The handle of a dealer.
#[derive(Debug, Clone, Copy, PartialEq, Eq, Hash, Structural)]
pub struct DealerId(pub u64);

} // verus!
