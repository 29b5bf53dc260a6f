//! Hands and what they count.

use crate::domain::card::{Card, Rank};
use vstd::prelude::*;

verus! {

/// What a hand counts.
///
/// The totals are as wide as the sum over any hand that a `Vec` can hold may be,
/// so that every hand has a value.
#[derive(Debug, Clone, Copy, PartialEq, Eq, Structural)]
pub enum HandValue {
    /// The hand counts one total of at most 21.
    Single { value: u128 },
    /// The hand holds an ace that may count 11: `soft` is the total of at most
    /// 21 with that ace at 11, `hard` the total with every ace at 1.
    Dual { soft: u128, hard: u128 },
    /// The hand counts more than 21 with every ace at 1.
    Bust { value: u128 },
}

/// The sum of the cards with every ace at 1, the court cards at 10 and the
/// others at their number.
pub open spec fn spec_hard_total(cards: Seq<Card>) -> nat
    decreases cards.len(),
{
    if cards.len() == 0 {
        0
    } else {
        spec_hard_total(cards.drop_last()) + cards.last().rank.spec_hard_points()
    }
}

/// Whether an ace is among the cards.
pub open spec fn spec_has_ace(cards: Seq<Card>) -> bool {
    exists|i: int| 0 <= i < cards.len() && (#[trigger] cards[i]).rank == Rank::Ace
}

/// The value of a hand with the given hard total, with or without an ace in
/// it. At most one ace counts 11, however many there are: a second one at 11
/// would add another 10.
pub open spec fn spec_value_of(hard: nat, ace: bool) -> HandValue {
    if hard > 21 {
        HandValue::Bust { value: hard as u128 }
    } else if ace && hard + 10 <= 21 {
        HandValue::Dual { soft: (hard + 10) as u128, hard: hard as u128 }
    } else {
        HandValue::Single { value: hard as u128 }
    }
}

/// The value of a hand of the given cards.
pub open spec fn spec_hand_value(cards: Seq<Card>) -> HandValue {
    spec_value_of(spec_hard_total(cards), spec_has_ace(cards))
}

/// Whether the cards are a blackjack: two cards that count 21.
pub open spec fn spec_is_blackjack(cards: Seq<Card>) -> bool {
    cards.len() == 2 && spec_hand_value(cards).spec_best() == 21
}

impl HandValue {
    /// The total that the hand plays with: the soft one where there is one.
    pub open spec fn spec_best(self) -> u128 {
        match self {
            HandValue::Single { value } => value,
            HandValue::Dual { soft, hard } => soft,
            HandValue::Bust { value } => value,
        }
    }

    /// The total that the hand plays with: the soft one where there is one.
    pub fn best(&self) -> (total: u128)
        ensures
            total == self.spec_best(),
    {
        match self {
            HandValue::Single { value } => *value,
            HandValue::Dual { soft, hard } => *soft,
            HandValue::Bust { value } => *value,
        }
    }

    /// The value of a hand with the given hard total, with or without an ace in it.
    pub fn of(hard: u128, ace: bool) -> (value: HandValue)
        ensures
            value == spec_value_of(hard as nat, ace),
    {
        // One ace may count 11 in place of 1, which adds 10.
        if hard > 21 {
            HandValue::Bust { value: hard }
        } else if ace && hard + 10 <= 21 {
            HandValue::Dual { soft: hard + 10, hard }
        } else {
            HandValue::Single { value: hard }
        }
    }

    /// Whether the hand counts more than 21.
    pub fn is_bust(&self) -> (bust: bool)
        ensures
            bust == (*self is Bust),
    {
        match self {
            HandValue::Bust { value } => true,
            _ => false,
        }
    }
}

/// The cards of one participant, in the order in which they were dealt.
#[derive(Debug)]
pub struct Hand {
    pub cards: Vec<Card>,
}

impl View for Hand {
    type V = Seq<Card>;

    open spec fn view(&self) -> Seq<Card> {
        self.cards@
    }
}

impl Hand {
    /// The empty hand.
    pub fn new() -> (hand: Hand)
        ensures
            hand@ == Seq::<Card>::empty(),
    {
        Hand { cards: Vec::new() }
    }

    /// Puts a card at the end of the hand.
    pub fn add_card(&mut self, card: Card)
        ensures
            final(self)@ == old(self)@.push(card),
    {
        self.cards.push(card);
    }

    /// The hard total of the hand, and whether an ace is in it.
    pub fn tally(&self) -> (tally: (u128, bool))
        ensures
            tally.0 == spec_hard_total(self@),
            tally.1 == spec_has_ace(self@),
            tally.0 <= 10 * self@.len(),
    {
        let mut hard: u128 = 0;
        let mut ace: bool = false;
        let mut i: usize = 0;
        while i < self.cards.len()
            invariant
                i <= self.cards@.len(),
                hard == spec_hard_total(self@.subrange(0, i as int)),
                hard <= 10 * i,
                ace == spec_has_ace(self@.subrange(0, i as int)),
            decreases self.cards@.len() - i,
        {
            let ghost seen = self@.subrange(0, i as int);
            let ghost more = self@.subrange(0, i as int + 1);
            proof {
                assert(more =~= seen.push(self@[i as int]));
                lemma_hard_total_push(seen, self@[i as int]);
                lemma_has_ace_push(seen, self@[i as int]);
            }
            let rank = self.cards[i].rank;
            hard += rank.hard_points() as u128;
            if rank == Rank::Ace {
                ace = true;
            }
            i += 1;
        }
        assert(self@.subrange(0, i as int) =~= self@);
        (hard, ace)
    }

    /// The sum of the hand with every ace at 1.
    pub fn hard_total(&self) -> (hard: u128)
        ensures
            hard == spec_hard_total(self@),
            hard <= 10 * self@.len(),
    {
        self.tally().0
    }

    /// What the hand counts: bust above 21 with every ace at 1; else both
    /// totals where an ace can count 11 without passing 21; else the one total.
    pub fn value(&self) -> (value: HandValue)
        ensures
            value == spec_hand_value(self@),
    {
        let (hard, ace) = self.tally();
        HandValue::of(hard, ace)
    }

    /// Whether the hand is a blackjack: two cards that count 21.
    pub fn is_blackjack(&self) -> (blackjack: bool)
        ensures
            blackjack == spec_is_blackjack(self@),
    {
        self.cards.len() == 2 && self.value().best() == 21
    }
}

/// The hard total grows by what the card counts when a card is added, and every
/// card counts at least 1 and at most 10.
pub proof fn lemma_hard_total_push(cards: Seq<Card>, card: Card)
    ensures
        spec_hard_total(cards.push(card)) == spec_hard_total(cards)
            + card.rank.spec_hard_points(),
        1 <= card.rank.spec_hard_points() <= 10,
{
    assert(cards.push(card).drop_last() =~= cards);
}

/// An ace is among the cards with one more at the end where it was among them
/// before or the new card is one.
pub proof fn lemma_has_ace_push(cards: Seq<Card>, card: Card)
    ensures
        spec_has_ace(cards.push(card)) == (spec_has_ace(cards) || card.rank == Rank::Ace),
{
    let more = cards.push(card);
    if spec_has_ace(cards) {
        let k = choose|k: int| 0 <= k < cards.len() && (#[trigger] cards[k]).rank == Rank::Ace;
        assert(more[k].rank == Rank::Ace);
    }
    if card.rank == Rank::Ace {
        assert(more[cards.len() as int].rank == Rank::Ace);
    }
    if spec_has_ace(more) && card.rank != Rank::Ace {
        let k = choose|k: int| 0 <= k < more.len() && (#[trigger] more[k]).rank == Rank::Ace;
        assert(cards[k].rank == Rank::Ace);
    }
}

} // verus!
