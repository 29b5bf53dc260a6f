use crate::domain::player::PlayerId;
use vstd::prelude::*;

verus! {

/// The stage of a game. A game passes through the stages in the order in which
/// they stand here; within `PlayerTurn` the player who acts may change.
#[derive(Debug, Clone, Copy, PartialEq, Eq, Structural)]
pub enum Phase {
    WaitingForBets,
    InitialDealing,
    /// The players act in turn; the one named acts now.
    PlayerTurn(PlayerId),
    DealerTurn,
    Payouts,
    Finished,
}

impl Phase {
    /// The place of a stage in the order of the game, from 0 for
    /// `WaitingForBets` to 5 for `Finished`.
    pub open spec fn spec_rank(self) -> int {
        match self {
            Phase::WaitingForBets => 0,
            Phase::InitialDealing => 1,
            Phase::PlayerTurn(_) => 2,
            Phase::DealerTurn => 3,
            Phase::Payouts => 4,
            Phase::Finished => 5,
        }
    }

    /// Whether a game in this stage may go to `next`: to any later stage, or
    /// from one player's turn to another's.
    pub open spec fn spec_may_go_to(self, next: Phase) -> bool {
        self.spec_rank() < next.spec_rank() || (self is PlayerTurn && next is PlayerTurn)
    }

    /// The place of this stage in the order of the game.
    pub fn rank(&self) -> (rank: u8)
        ensures
            rank == self.spec_rank(),
    {
        match self {
            Phase::WaitingForBets => 0,
            Phase::InitialDealing => 1,
            Phase::PlayerTurn(_) => 2,
            Phase::DealerTurn => 3,
            Phase::Payouts => 4,
            Phase::Finished => 5,
        }
    }

    /// Whether a game in this stage may go to `next`.
    pub fn may_go_to(&self, next: &Phase) -> (allowed: bool)
        ensures
            allowed == self.spec_may_go_to(*next),
    {
        self.rank() < next.rank() || (self.rank() == 2 && next.rank() == 2)
    }
}

} // verus!
