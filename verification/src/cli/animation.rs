use vstd::prelude::*;

verus! {

/// How far the animated first deal has come.
#[derive(Debug, Clone, Copy, PartialEq, Eq, Structural)]
pub struct DealAnimation {
    /// How many cards lie on the table.
    pub step: usize,
    /// When the last card was laid, in milliseconds of the clock that the
    /// program reads.
    pub last_tick: u64,
}

} // verus!
