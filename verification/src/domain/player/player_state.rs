use crate::domain::card::Card;
use crate::domain::engine::action::PlayerDecision;
use crate::domain::hand::Hand;
use crate::domain::player::PlayerId;
use vstd::prelude::*;

verus! {

/// Why a bet was refused.
#[derive(Debug, Clone, Copy, PartialEq, Eq, Structural)]
pub enum BetError {
    /// The amount is more than the balance.
    InsufficientFunds,
    /// The amount is zero.
    InvalidAmount,
}

/// What a player holds in a game.
#[derive(Debug)]
pub struct PlayerState {
    pub player_id: PlayerId,
    pub hand: Hand,
    pub balance: u32,
    /// The running bet: set by a bet that was accepted, until it is cleared.
    pub bet: Option<u32>,
    /// The decisions taken so far, oldest first.
    pub decisions: Vec<PlayerDecision>,
}

/// A player's state as plain values.
pub struct PlayerStateView {
    pub player_id: PlayerId,
    pub hand: Seq<Card>,
    pub balance: u32,
    pub bet: Option<u32>,
    pub decisions: Seq<PlayerDecision>,
}

impl View for PlayerState {
    type V = PlayerStateView;

    open spec fn view(&self) -> PlayerStateView {
        PlayerStateView {
            player_id: self.player_id,
            hand: self.hand@,
            balance: self.balance,
            bet: self.bet,
            decisions: self.decisions@,
        }
    }
}

impl PlayerStateView {
    /// A player who holds the given balance and nothing else.
    pub open spec fn spec_with_balance(player_id: PlayerId, balance: u32) -> PlayerStateView {
        PlayerStateView {
            player_id,
            hand: Seq::empty(),
            balance,
            bet: None,
            decisions: Seq::empty(),
        }
    }

    /// The player after a bet of `amount` was taken from the balance. A balance
    /// that is too small ends at zero.
    pub open spec fn spec_with_bet(self, amount: u32) -> PlayerStateView {
        PlayerStateView {
            balance: if amount <= self.balance {
                (self.balance - amount) as u32
            } else {
                0
            },
            bet: Some(amount),
            ..self
        }
    }

    /// The player with one more card at the end of the hand.
    pub open spec fn spec_with_card(self, card: Card) -> PlayerStateView {
        PlayerStateView { hand: self.hand.push(card), ..self }
    }

    /// The player with one more decision at the end of the log.
    pub open spec fn spec_with_decision(self, action: PlayerDecision) -> PlayerStateView {
        PlayerStateView { decisions: self.decisions.push(action), ..self }
    }
}

impl PlayerState {
    /// A player with no money, no cards, no bet and no decisions.
    pub fn new(player_id: PlayerId) -> (player: PlayerState)
        ensures
            player@ == PlayerStateView::spec_with_balance(player_id, 0),
    {
        PlayerState::with_balance(player_id, 0)
    }

    /// A player with the given balance, no cards, no bet and no decisions.
    pub fn with_balance(player_id: PlayerId, balance: u32) -> (player: PlayerState)
        ensures
            player@ == PlayerStateView::spec_with_balance(player_id, balance),
    {
        PlayerState {
            player_id,
            hand: Hand::new(),
            balance,
            bet: None,
            decisions: Vec::new(),
        }
    }

    /// Puts a decision at the end of the log.
    pub fn record_action(&mut self, action: PlayerDecision)
        ensures
            final(self)@ == old(self)@.spec_with_decision(action),
    {
        self.decisions.push(action);
    }

    /// Takes a bet from the balance. An amount above the balance is refused as
    /// `InsufficientFunds`, an amount of zero as `InvalidAmount`, and the
    /// player is then left as before. Otherwise the balance goes down by the
    /// amount and the bet is set to it, both at once.
    pub fn place_bet(&mut self, amount: u32) -> (result: Result<(), BetError>)
        ensures
            amount > old(self).balance ==> result == Err::<(), BetError>(
                BetError::InsufficientFunds,
            ),
            amount == 0 ==> result == Err::<(), BetError>(BetError::InvalidAmount),
            0 < amount <= old(self).balance ==> result == Ok::<(), BetError>(()),
            result is Err ==> final(self)@ == old(self)@,
            result is Ok ==> final(self)@ == old(self)@.spec_with_bet(amount),
            result is Ok ==> final(self).balance == old(self).balance - amount && final(self).bet
                == Some(amount),
    {
        if amount > self.balance {
            return Err(BetError::InsufficientFunds);
        }
        if amount == 0 {
            return Err(BetError::InvalidAmount);
        }
        self.balance -= amount;
        self.bet = Some(amount);
        Ok(())
    }

    /// Forgets the running bet.
    pub fn clear_bet(&mut self)
        ensures
            final(self)@ == (PlayerStateView { bet: None, ..old(self)@ }),
    {
        self.bet = None;
    }

    /// Adds winnings to the balance, which must have room for them.
    pub fn add_winnings(&mut self, amount: u32)
        requires
            old(self).balance + amount <= u32::MAX,
        ensures
            final(self)@ == (PlayerStateView {
                balance: (old(self).balance + amount) as u32,
                ..old(self)@
            }),
    {
        self.balance += amount;
    }
}

} // verus!
