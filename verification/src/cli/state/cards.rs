use vstd::prelude::*;

verus! {

/// A card as it is shown: the texts of its rank and its suit.
#[derive(Debug, Clone, Copy, PartialEq, Eq)]
pub struct UiCard {
    pub rank: &'static str,
    pub suit: &'static str,
}

/// A shown card as plain values.
pub struct UiCardView {
    pub rank: Seq<char>,
    pub suit: Seq<char>,
}

impl View for UiCard {
    type V = UiCardView;

    open spec fn view(&self) -> UiCardView {
        UiCardView { rank: self.rank@, suit: self.suit@ }
    }
}

/// A hand as it is shown: its cards, and the text of its value where that is shown.
#[derive(Debug, Clone, PartialEq, Eq)]
pub struct UiHand {
    pub cards: Vec<UiCard>,
    pub value: Option<String>,
}

/// A shown hand as plain values.
pub struct UiHandView {
    pub cards: Seq<UiCardView>,
    pub value: Option<Seq<char>>,
}

/// A row of shown cards as plain values.
pub open spec fn spec_card_views(cards: Seq<UiCard>) -> Seq<UiCardView> {
    Seq::new(cards.len(), |i: int| cards[i]@)
}

impl View for UiHand {
    type V = UiHandView;

    open spec fn view(&self) -> UiHandView {
        UiHandView {
            cards: spec_card_views(self.cards@),
            value: match self.value {
                Some(text) => Some(text@),
                None => None,
            },
        }
    }
}

} // verus!
