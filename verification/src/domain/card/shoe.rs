use super::{
    lemma_deck_number_round_trip, lemma_rank_number_round_trip, lemma_suit_number_round_trip,
    spec_deck_card, Card, Deck, DeckId, DeckIdError, Rank, Suit,
};
use rand::seq::SliceRandom;
use vstd::prelude::*;
use vstd::seq_lib::lemma_flatten_concat;

verus! {

/// The generator that `rand::rng` hands out. Nothing is known of its state.
#[verifier::external_type_specification]
#[verifier::external_body]
pub struct ExThreadRng(rand::rngs::ThreadRng);

/// `rand::rng`: a handle to the calling thread's generator. Nothing is claimed
/// of it. The call aborts the thread where the operating system gives no seed.
pub assume_specification[ rand::rng ]() -> (rng: rand::rngs::ThreadRng)
;

/// `rand::seq::SliceRandom::shuffle` on the cards of a `Vec`: the cards are
/// put in another order in place, so that afterwards the same cards are there,
/// each as often as before. Which order comes out is not stated.
#[verifier::external_body]
fn shuffle_cards(cards: &mut Vec<Card>, rng: &mut rand::rngs::ThreadRng)
    ensures
        final(cards)@.to_multiset() == old(cards)@.to_multiset(),
{
    cards.shuffle(rng);
}

/// The piles of a row of decks, each as the sequence of its cards.
pub open spec fn spec_piles(decks: Seq<Deck>) -> Seq<Seq<Card>> {
    Seq::new(decks.len(), |i: int| decks[i]@)
}

/// The card that stands at a place of the canonical shoe: the decks follow each
/// other in the order of their numbers, each in its canonical order.
pub open spec fn spec_shoe_card(place: int) -> Card {
    spec_deck_card(DeckId::spec_from_number((place / 52 + 1) as u8)->Some_0, place % 52)
}

/// Drawing from a shoe that holds no card.
#[derive(Debug, Clone, Copy, PartialEq, Eq, Structural)]
pub enum ShoeError {
    Empty,
}

/// The cards in play for a game: a row of decks, dealt from the front.
#[derive(Debug, PartialEq)]
pub struct Shoe {
    pub decks: Vec<Deck>,
}

impl View for Shoe {
    type V = Seq<Seq<Card>>;

    open spec fn view(&self) -> Seq<Seq<Card>> {
        spec_piles(self.decks@)
    }
}

impl Shoe {
    /// The cards of the shoe in the order in which they are dealt: deck after deck.
    pub open spec fn spec_cards(&self) -> Seq<Card> {
        self@.flatten()
    }

    /// The canonical shoe of `deck_count` decks, as piles.
    pub open spec fn spec_with_decks(deck_count: int) -> Seq<Seq<Card>> {
        Seq::new(
            deck_count as nat,
            |i: int| Deck::spec_default(DeckId::spec_from_number((i + 1) as u8)->Some_0),
        )
    }

    /// The canonical shoe of up to four decks, `Two` to `Ace` of each suit in
    /// each deck, the decks numbered from 1. More than four decks cannot be
    /// told apart: the count is then handed back in the error.
    pub fn with_decks(deck_count: u8) -> (result: Result<Shoe, DeckIdError>)
        ensures
            deck_count <= 4 ==> result is Ok && result->Ok_0@ == Shoe::spec_with_decks(
                deck_count as int,
            ),
            deck_count > 4 ==> result == Err::<Shoe, DeckIdError>(
                DeckIdError::Invalid(deck_count),
            ),
    {
        if deck_count > 4 {
            return Err(DeckIdError::Invalid(deck_count));
        }
        let ids = DeckId::all();
        let mut decks: Vec<Deck> = Vec::new();
        let mut i: usize = 0;
        while i < deck_count as usize
            invariant
                i <= deck_count <= 4,
                decks@.len() == i,
                forall|k: int| 0 <= k < 4 ==> (#[trigger] ids@[k]).spec_number() == k + 1,
                forall|k: int|
                    0 <= k < i ==> (#[trigger] decks@[k])@ == Deck::spec_default(
                        DeckId::spec_from_number((k + 1) as u8)->Some_0,
                    ),
            decreases deck_count - i,
        {
            assert(ids@[i as int].spec_number() == i + 1);
            decks.push(Deck::default(ids[i]));
            i += 1;
        }
        let shoe = Shoe { decks };
        assert(shoe@ =~= Shoe::spec_with_decks(deck_count as int));
        Ok(shoe)
    }

    /// A copy of the cards of the shoe in the order in which they are dealt.
    pub fn cards(&self) -> (cards: Vec<Card>)
        ensures
            cards@ == self.spec_cards(),
    {
        let mut cards: Vec<Card> = Vec::new();
        let mut i: usize = 0;
        while i < self.decks.len()
            invariant
                i <= self.decks@.len(),
                cards@ == self@.subrange(0, i as int).flatten(),
            decreases self.decks@.len() - i,
        {
            let deck = &self.decks[i];
            let ghost before = cards@;
            let mut j: usize = 0;
            while j < deck.cards.len()
                invariant
                    j <= deck.cards@.len(),
                    cards@ == before + deck.cards@.subrange(0, j as int),
                decreases deck.cards@.len() - j,
            {
                cards.push(deck.cards[j]);
                j += 1;
                assert(deck.cards@.subrange(0, j as int) =~= deck.cards@.subrange(
                    0,
                    j as int - 1,
                ).push(deck.cards@[j as int - 1]));
            }
            proof {
                assert(deck.cards@.subrange(0, j as int) =~= deck@);
                assert(self@.subrange(0, i as int + 1) =~= self@.subrange(0, i as int).push(
                    self@[i as int],
                ));
                self@.subrange(0, i as int).lemma_flatten_push(self@[i as int]);
            }
            i += 1;
        }
        assert(self@.subrange(0, i as int) =~= self@);
        cards
    }

    /// Takes the shoe apart into its cards, in the order in which they are dealt.
    pub fn into_cards(self) -> (cards: Vec<Card>)
        ensures
            cards@ == self.spec_cards(),
    {
        self.cards()
    }

    /// Removes the first card of the shoe and returns it: the first card of the
    /// first deck that is not empty. An exhausted shoe is left as it is and
    /// reported.
    pub fn draw(&mut self) -> (result: Result<Card, ShoeError>)
        ensures
            old(self).spec_cards().len() == 0 <==> result == Err::<Card, ShoeError>(
                ShoeError::Empty,
            ),
            result is Err ==> final(self)@ == old(self)@,
            result is Ok ==> {
                &&& result->Ok_0 == old(self).spec_cards().first()
                &&& final(self).spec_cards() == old(self).spec_cards().drop_first()
                &&& exists|k: int|
                    {
                        &&& 0 <= k < old(self)@.len()
                        &&& forall|j: int| 0 <= j < k ==> (#[trigger] old(self)@[j]).len() == 0
                        &&& old(self)@[k].len() > 0
                        &&& final(self)@ == old(self)@.update(k, old(self)@[k].drop_first())
                    }
            },
    {
        let mut i: usize = 0;
        while i < self.decks.len()
            invariant
                i <= self.decks@.len(),
                *self == *old(self),
                forall|j: int| 0 <= j < i ==> (#[trigger] self@[j]).len() == 0,
            decreases self.decks@.len() - i,
        {
            if self.decks[i].cards.len() > 0 {
                let card = self.decks[i].cards.remove(0);
                proof {
                    let k = i as int;
                    let before = old(self)@;
                    let after = self@;
                    assert(after =~= before.update(k, before[k].drop_first()));
                    lemma_flatten_skips_empty(before, k);
                    lemma_flatten_skips_empty(after, k);
                    assert(after.subrange(k, after.len() as int).drop_first() =~= before.subrange(
                        k,
                        before.len() as int,
                    ).drop_first());
                    assert(after.subrange(k, after.len() as int).flatten() =~= before.subrange(
                        k,
                        before.len() as int,
                    ).flatten().drop_first());
                }
                return Ok(card);
            }
            i += 1;
        }
        proof {
            lemma_flatten_skips_empty(self@, self@.len() as int);
            assert(self@.subrange(self@.len() as int, self@.len() as int) =~= Seq::<
                Seq<Card>,
            >::empty());
        }
        Err(ShoeError::Empty)
    }

    /// Lays the given cards into the decks of the shoe in place of those that
    /// are there: the first cards into the first deck, as many as it held, the
    /// next into the second, and so on, so that the shoe deals the given cards
    /// in their order. This is done, and `true` returned, where the cards are
    /// as many as the shoe holds; else the shoe is left as it is and `false`
    /// returned.
    pub fn refill(&mut self, cards: &Vec<Card>) -> (done: bool)
        ensures
            done == (cards@.len() == old(self).spec_cards().len()),
            !done ==> final(self)@ == old(self)@,
            done ==> final(self).spec_cards() == cards@,
            done ==> final(self)@.len() == old(self)@.len(),
            done ==> forall|i: int|
                0 <= i < old(self)@.len() ==> (#[trigger] final(self)@[i]).len() == old(
                    self,
                )@[i].len(),
    {
        let mut decks: Vec<Deck> = Vec::new();
        let mut offset: usize = 0;
        let mut i: usize = 0;
        while i < self.decks.len()
            invariant
                *self == *old(self),
                i <= self.decks@.len(),
                decks@.len() == i,
                offset == self@.subrange(0, i as int).flatten().len(),
                offset <= cards.len(),
                spec_piles(decks@).flatten() == cards@.subrange(0, offset as int),
                forall|k: int| 0 <= k < i ==> (#[trigger] decks@[k])@.len() == self@[k].len(),
            decreases self.decks@.len() - i,
        {
            let n = self.decks[i].cards.len();
            proof {
                assert(self@.subrange(0, i as int + 1) =~= self@.subrange(0, i as int).push(
                    self@[i as int],
                ));
                self@.subrange(0, i as int).lemma_flatten_push(self@[i as int]);
                assert(self@ =~= self@.subrange(0, i as int + 1) + self@.subrange(
                    i as int + 1,
                    self@.len() as int,
                ));
                lemma_flatten_concat(
                    self@.subrange(0, i as int + 1),
                    self@.subrange(i as int + 1, self@.len() as int),
                );
            }
            if n > cards.len() - offset {
                // The shoe holds more cards than were given.
                return false;
            }
            let mut pile: Vec<Card> = Vec::new();
            let mut j: usize = 0;
            while j < n
                invariant
                    j <= n,
                    offset + n <= cards.len(),
                    pile@ == cards@.subrange(offset as int, offset + j),
                decreases n - j,
            {
                pile.push(cards[offset + j]);
                j += 1;
                assert(cards@.subrange(offset as int, offset + j) =~= cards@.subrange(
                    offset as int,
                    offset + j - 1,
                ).push(cards@[offset + j - 1]));
            }
            proof {
                let piles = spec_piles(decks@);
                assert(spec_piles(decks@.push(Deck { cards: pile })) =~= piles.push(pile@));
                piles.lemma_flatten_push(pile@);
                assert(cards@.subrange(0, offset as int) + cards@.subrange(
                    offset as int,
                    offset + n,
                ) =~= cards@.subrange(0, offset + n));
            }
            decks.push(Deck { cards: pile });
            offset += n;
            i += 1;
        }
        assert(self@.subrange(0, i as int) =~= self@);
        if offset != cards.len() {
            // More cards were given than the shoe holds.
            return false;
        }
        assert(cards@.subrange(0, offset as int) =~= cards@);
        self.decks = decks;
        true
    }

    /// Puts the cards of the shoe in a random order: the cards are taken out,
    /// shuffled, and laid back into the decks as `refill` lays them. Every
    /// deck keeps its size, and the shoe as a whole keeps its cards, each as
    /// often as it was there. Which order comes out is left to chance; the
    /// order that was there is one that may.
    pub fn shuffle(&mut self)
        ensures
            final(self).spec_cards().to_multiset() == old(self).spec_cards().to_multiset(),
            final(self)@.len() == old(self)@.len(),
            forall|i: int|
                0 <= i < old(self)@.len() ==> (#[trigger] final(self)@[i]).len() == old(
                    self,
                )@[i].len(),
    {
        let mut cards = self.cards();
        let mut rng = rand::rng();
        shuffle_cards(&mut cards, &mut rng);
        proof {
            cards@.to_multiset_ensures();
            self.spec_cards().to_multiset_ensures();
        }
        let done = self.refill(&cards);
        assert(done);
    }

    /// The canonical shoe of four decks with its cards put in a random order.
    pub fn random() -> (shoe: Shoe)
        ensures
            shoe.spec_cards().to_multiset() == Shoe::spec_with_decks(4).flatten().to_multiset(),
            shoe@.len() == 4,
            forall|i: int| 0 <= i < 4 ==> (#[trigger] shoe@[i]).len() == 52,
    {
        let mut shoe = Shoe::default();
        shoe.shuffle();
        shoe
    }
}

impl Default for Shoe {
    /// The canonical shoe of four decks: 208 cards.
    fn default() -> (shoe: Shoe)
        ensures
            shoe@ == Shoe::spec_with_decks(4),
    {
        match Shoe::with_decks(4) {
            Ok(shoe) => shoe,
            Err(_) => Shoe { decks: Vec::new() },
        }
    }
}

/// The canonical shoe of up to four decks holds 52 cards for each deck, in
/// the canonical order; no card stands in it twice; and it holds exactly the
/// cards of the decks it was made of: each pair of suit and rank once for
/// each deck. With four decks that is every card there is, 208 in all.
pub proof fn lemma_canonical_shoe(deck_count: int)
    requires
        0 <= deck_count <= 4,
    ensures
        ({
            let cards = Shoe::spec_with_decks(deck_count).flatten();
            &&& cards.len() == 52 * deck_count
            &&& forall|place: int|
                0 <= place < cards.len() ==> #[trigger] cards[place] == spec_shoe_card(place)
            &&& cards.no_duplicates()
            &&& forall|card: Card| #[trigger]
                cards.contains(card) <==> card.deck_id.spec_number() <= deck_count
        }),
    decreases deck_count,
{
    let piles = Shoe::spec_with_decks(deck_count);
    let cards = piles.flatten();
    if deck_count == 0 {
        assert(piles =~= Seq::<Seq<Card>>::empty());
        assert(cards =~= Seq::<Card>::empty());
    } else {
        lemma_canonical_shoe(deck_count - 1);
        let fewer = Shoe::spec_with_decks(deck_count - 1);
        let pile = Deck::spec_default(DeckId::spec_from_number(deck_count as u8)->Some_0);
        assert(piles =~= fewer.push(pile));
        fewer.lemma_flatten_push(pile);
        assert(cards =~= fewer.flatten() + pile);
        assert forall|place: int| 0 <= place < cards.len() implies #[trigger] cards[place]
            == spec_shoe_card(place) by {
            if place >= 52 * (deck_count - 1) {
                assert(cards[place] == pile[place - 52 * (deck_count - 1)]);
            }
        }
    }
    assert forall|i: int, j: int| 0 <= i < cards.len() && 0 <= j < cards.len() && i != j implies
        cards[i] != cards[j] by {
        lemma_shoe_card_place(i);
        lemma_shoe_card_place(j);
    }
    assert forall|card: Card| #[trigger]
        cards.contains(card) <==> card.deck_id.spec_number() <= deck_count by {
        let place = spec_card_place(card);
        lemma_deck_number_round_trip(card.deck_id, 0);
        lemma_suit_number_round_trip(card.suit, 0);
        lemma_rank_number_round_trip(card.rank, 0);
        if card.deck_id.spec_number() <= deck_count {
            assert(cards[place] == card);
        }
        if cards.contains(card) {
            let at = choose|at: int| 0 <= at < cards.len() && cards[at] == card;
            lemma_shoe_card_place(at);
        }
    }
}

/// The place of a card in the canonical shoe.
pub open spec fn spec_card_place(card: Card) -> int {
    52 * (card.deck_id.spec_number() - 1) + 13 * card.suit.spec_number() + (
    card.rank.spec_number() - 2)
}

/// The card at a place of the canonical shoe stands at that place and at no other.
pub proof fn lemma_shoe_card_place(place: int)
    requires
        0 <= place < 208,
    ensures
        spec_card_place(spec_shoe_card(place)) == place,
{
    lemma_deck_number_round_trip(DeckId::One, (place / 52 + 1) as u8);
    lemma_suit_number_round_trip(Suit::Hearts, (place % 52 / 13) as u8);
    lemma_rank_number_round_trip(Rank::Two, (place % 52 % 13 + 2) as u8);
}

/// Where the first `k` piles are empty, the cards of all piles are those of
/// the piles from `k` on.
pub proof fn lemma_flatten_skips_empty(piles: Seq<Seq<Card>>, k: int)
    requires
        0 <= k <= piles.len(),
        forall|j: int| 0 <= j < k ==> (#[trigger] piles[j]).len() == 0,
    ensures
        piles.flatten() == piles.subrange(k, piles.len() as int).flatten(),
    decreases k,
{
    if k == 0 {
        assert(piles.subrange(0, piles.len() as int) =~= piles);
    } else {
        lemma_flatten_skips_empty(piles, k - 1);
        let rest = piles.subrange(k - 1, piles.len() as int);
        assert(rest.first() =~= Seq::<Card>::empty());
        assert(rest.drop_first() =~= piles.subrange(k, piles.len() as int));
        assert(rest.flatten() =~= rest.drop_first().flatten());
    }
}

} // verus!
