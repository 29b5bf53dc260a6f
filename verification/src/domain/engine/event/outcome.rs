use crate::domain::player::PlayerId;
use vstd::prelude::*;

verus! {

/// How a game ended for a player.
#[derive(Debug, Clone, Copy, PartialEq, Eq, Structural)]
pub enum PlayerOutcome {
    Won,
    Lost,
    Push,
    Blackjack,
    Bust,
}

/// The factor by which a bet is paid out: 0 for a loss, 1 for a push, 2 for a
/// win and 2.5 for a blackjack.
#[derive(Debug, Clone, Copy, PartialEq, Eq, Structural)]
pub enum Multiplier {
    Loss,
    Push,
    Win,
    Blackjack,
}

impl Multiplier {
    /// Ten times the factor.
    pub open spec fn spec_tenths(self) -> nat {
        match self {
            Multiplier::Loss => 0,
            Multiplier::Push => 10,
            Multiplier::Win => 20,
            Multiplier::Blackjack => 25,
        }
    }

    /// Ten times the factor: 0, 10, 20 or 25.
    pub fn tenths(&self) -> (tenths: u8)
        ensures
            tenths == self.spec_tenths(),
    {
        match self {
            Multiplier::Loss => 0,
            Multiplier::Push => 10,
            Multiplier::Win => 20,
            Multiplier::Blackjack => 25,
        }
    }
}

impl PlayerOutcome {
    /// The factor that an outcome pays: nothing for a loss or a bust, the bet
    /// back for a push, twice the bet for a win, two and a half times for a
    /// blackjack.
    pub open spec fn spec_multiplier(self) -> Multiplier {
        match self {
            PlayerOutcome::Won => Multiplier::Win,
            PlayerOutcome::Lost => Multiplier::Loss,
            PlayerOutcome::Push => Multiplier::Push,
            PlayerOutcome::Blackjack => Multiplier::Blackjack,
            PlayerOutcome::Bust => Multiplier::Loss,
        }
    }

    /// The factor that this outcome pays.
    pub fn multiplier(&self) -> (multiplier: Multiplier)
        ensures
            multiplier == self.spec_multiplier(),
    {
        match self {
            PlayerOutcome::Won => Multiplier::Win,
            PlayerOutcome::Lost => Multiplier::Loss,
            PlayerOutcome::Push => Multiplier::Push,
            PlayerOutcome::Blackjack => Multiplier::Blackjack,
            PlayerOutcome::Bust => Multiplier::Loss,
        }
    }
}

/// What a bet pays: the bet and the factor it is paid out by.
#[derive(Debug, Clone, Copy, PartialEq, Eq, Structural)]
pub struct Payout {
    pub bet: u32,
    pub multiplier: Multiplier,
}

impl Payout {
    /// The bet times the factor, rounded down.
    pub open spec fn spec_total(self) -> nat {
        self.bet as nat * self.multiplier.spec_tenths() / 10
    }

    /// The payout of a bet at a factor.
    pub fn new(bet: u32, multiplier: Multiplier) -> (payout: Payout)
        ensures
            payout == (Payout { bet, multiplier }),
    {
        Payout { bet, multiplier }
    }

    /// The sum paid out: the bet times the factor, rounded down.
    pub fn total(&self) -> (total: u64)
        ensures
            total == self.spec_total(),
    {
        let bet: u64 = self.bet as u64;
        let tenths: u64 = self.multiplier.tenths() as u64;
        assert(bet * tenths <= 0xffff_ffff * 25) by (nonlinear_arith)
            requires
                bet <= 0xffff_ffff,
                tenths <= 25,
        ;
        bet * tenths / 10
    }
}

/// How a game ended for one player.
#[derive(Debug, Clone, Copy, PartialEq, Eq, Structural)]
pub struct PlayerResult {
    pub player: PlayerId,
    pub outcome: PlayerOutcome,
    pub payout: Payout,
}

/// How a game ended.
#[derive(Debug)]
pub struct GameResult {
    /// One result for each player, in the order in which they sit.
    pub player_results: Vec<PlayerResult>,
    pub dealer_busted: bool,
}

/// The end of a game as plain values.
pub struct GameResultView {
    pub player_results: Seq<PlayerResult>,
    pub dealer_busted: bool,
}

impl View for GameResult {
    type V = GameResultView;

    open spec fn view(&self) -> GameResultView {
        GameResultView {
            player_results: self.player_results@,
            dealer_busted: self.dealer_busted,
        }
    }
}

impl Clone for GameResult {
    /// A copy with the same results in the same order.
    fn clone(&self) -> (copy: GameResult)
        ensures
            copy@ == self@,
    {
        let mut player_results: Vec<PlayerResult> = Vec::new();
        let mut i: usize = 0;
        while i < self.player_results.len()
            invariant
                i <= self.player_results@.len(),
                player_results@ == self.player_results@.subrange(0, i as int),
            decreases self.player_results@.len() - i,
        {
            player_results.push(self.player_results[i]);
            i += 1;
            assert(self.player_results@.subrange(0, i as int) =~= self.player_results@.subrange(
                0,
                i as int - 1,
            ).push(self.player_results@[i as int - 1]));
        }
        assert(self.player_results@.subrange(0, i as int) =~= self.player_results@);
        GameResult { player_results, dealer_busted: self.dealer_busted }
    }
}

} // verus!
