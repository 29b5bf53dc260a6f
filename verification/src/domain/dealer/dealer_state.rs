use crate::domain::card::Card;
use crate::domain::dealer::DealerId;
use crate::domain::hand::Hand;
use vstd::prelude::*;

verus! {

/// What the dealer holds in a game: a hand, and neither money nor a bet.
#[derive(Debug)]
pub struct DealerState {
    pub dealer_id: DealerId,
    pub hand: Hand,
}

/// The dealer's state as plain values.
pub struct DealerStateView {
    pub dealer_id: DealerId,
    pub hand: Seq<Card>,
}

impl View for DealerState {
    type V = DealerStateView;

    open spec fn view(&self) -> DealerStateView {
        DealerStateView { dealer_id: self.dealer_id, hand: self.hand@ }
    }
}

impl DealerState {
    /// A dealer with no cards.
    pub fn new(dealer_id: DealerId) -> (dealer: DealerState)
        ensures
            dealer@ == (DealerStateView { dealer_id, hand: Seq::empty() }),
    {
        DealerState { dealer_id, hand: Hand::new() }
    }
}

} // verus!
