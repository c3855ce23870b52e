//! An ordered, mutable deck of cards: the shared substrate of both games.
//!
//! A deck is a stack: `push` appends, `draw` removes the topmost (last) card.
//! `shuffle` permutes the contents in place; its contract promises only that
//! the multiset of cards is unchanged, which is all that holds of a random
//! permutation.

use vstd::prelude::*;

use crate::card::{Card, Rank, Suit};
use crate::error::GameError;

verus! {

broadcast use vstd::seq_lib::group_to_multiset_ensures;

pub struct Deck {
    deck: Vec<Card>,
}

impl View for Deck {
    type V = Seq<Card>;

    closed spec fn view(&self) -> Seq<Card> {
        self.deck@
    }
}

/// The suit of the `i`-th block of thirteen cards in a fresh deck.
pub open spec fn suit_of_index(i: int) -> Suit {
    if i == 0 {
        Suit::Heart
    } else if i == 1 {
        Suit::Spade
    } else if i == 2 {
        Suit::Club
    } else {
        Suit::Diamond
    }
}

/// The rank at offset `i` within one thirteen-card block, Ace first.
pub open spec fn rank_of_index(i: int) -> Rank {
    if i == 0 {
        Rank::Ace
    } else if i == 1 {
        Rank::Two
    } else if i == 2 {
        Rank::Three
    } else if i == 3 {
        Rank::Four
    } else if i == 4 {
        Rank::Five
    } else if i == 5 {
        Rank::Six
    } else if i == 6 {
        Rank::Seven
    } else if i == 7 {
        Rank::Eight
    } else if i == 8 {
        Rank::Nine
    } else if i == 9 {
        Rank::Ten
    } else if i == 10 {
        Rank::Jack
    } else if i == 11 {
        Rank::Queen
    } else {
        Rank::King
    }
}

/// The `i`-th card of a fresh 52-card deck: thirteen ranks per suit.
pub open spec fn standard_card(i: int) -> Card {
    Card { suit: suit_of_index(i / 13), rank: rank_of_index(i % 13) }
}

/// The contents of a fresh 52-card deck, in creation order.
pub open spec fn standard_deck() -> Seq<Card> {
    Seq::new(52, |i: int| standard_card(i))
}

/// The contents of a fresh 54-card deck: the standard 52 plus two wildcards
/// of distinct nominal ranks.
pub open spec fn joker_deck() -> Seq<Card> {
    standard_deck().push(Card { suit: Suit::Joker, rank: Rank::Ace }).push(
        Card { suit: Suit::Joker, rank: Rank::Two },
    )
}

fn suit_at(i: usize) -> (s: Suit)
    requires
        i < 4,
    ensures
        s == suit_of_index(i as int),
{
    if i == 0 {
        Suit::Heart
    } else if i == 1 {
        Suit::Spade
    } else if i == 2 {
        Suit::Club
    } else {
        Suit::Diamond
    }
}

fn rank_at(i: usize) -> (r: Rank)
    requires
        i < 13,
    ensures
        r == rank_of_index(i as int),
{
    if i == 0 {
        Rank::Ace
    } else if i == 1 {
        Rank::Two
    } else if i == 2 {
        Rank::Three
    } else if i == 3 {
        Rank::Four
    } else if i == 4 {
        Rank::Five
    } else if i == 5 {
        Rank::Six
    } else if i == 6 {
        Rank::Seven
    } else if i == 7 {
        Rank::Eight
    } else if i == 8 {
        Rank::Nine
    } else if i == 9 {
        Rank::Ten
    } else if i == 10 {
        Rank::Jack
    } else if i == 11 {
        Rank::Queen
    } else {
        Rank::King
    }
}

impl Deck {
    /// A deck with no cards at all.
    pub fn empty() -> (d: Deck)
        ensures
            d@ == Seq::<Card>::empty(),
    {
        Deck { deck: Vec::new() }
    }

    /// A fresh 52-card deck: every suit and rank combination exactly once.
    pub fn default_52_cards() -> (d: Deck)
        ensures
            d@ == standard_deck(),
    {
        let mut cards: Vec<Card> = Vec::new();
        let mut si: usize = 0;
        while si < 4
            invariant
                si <= 4,
                cards@.len() == si * 13,
                forall|k: int| 0 <= k < cards@.len() ==> cards@[k] == standard_card(k),
            decreases 4 - si,
        {
            let mut ri: usize = 0;
            while ri < 13
                invariant
                    si < 4,
                    ri <= 13,
                    cards@.len() == si * 13 + ri,
                    forall|k: int| 0 <= k < cards@.len() ==> cards@[k] == standard_card(k),
                decreases 13 - ri,
            {
                let c = Card { suit: suit_at(si), rank: rank_at(ri) };
                proof {
                    let n = si * 13 + ri;
                    assert(n / 13 == si && n % 13 == ri) by (nonlinear_arith)
                        requires
                            n == si * 13 + ri,
                            0 <= si < 4,
                            0 <= ri < 13,
                    ;
                }
                cards.push(c);
                ri = ri + 1;
            }
            si = si + 1;
        }
        proof {
            assert(cards@ =~= standard_deck());
        }
        Deck { deck: cards }
    }

    /// A fresh 54-card deck: the standard 52 plus two wildcards.
    pub fn joker_54_cards() -> (d: Deck)
        ensures
            d@ == joker_deck(),
    {
        let mut d = Deck::default_52_cards();
        d.deck.push(Card { suit: Suit::Joker, rank: Rank::Ace });
        d.deck.push(Card { suit: Suit::Joker, rank: Rank::Two });
        d
    }

    /// Returns a card to the deck by appending it on top.
    pub fn push(&mut self, card: Card)
        ensures
            final(self)@ == old(self)@.push(card),
    {
        self.deck.push(card);
    }

    /// Returns a card to the deck, then shuffles.
    pub fn push_and_shuffle(&mut self, card: Card)
        ensures
            final(self)@.to_multiset() == old(self)@.to_multiset().insert(card),
            final(self)@.len() == old(self)@.len() + 1,
    {
        self.deck.push(card);
        self.shuffle();
    }

    /// Removes and returns the topmost card; fails on an exhausted deck and
    /// leaves it untouched.
    pub fn draw(&mut self) -> (r: Result<Card, GameError>)
        ensures
            old(self)@.len() > 0 ==> r == Ok::<Card, GameError>(old(self)@.last())
                && final(self)@ == old(self)@.drop_last(),
            old(self)@.len() == 0 ==> r == Err::<Card, GameError>(GameError::EmptyDeck)
                && final(self)@ == old(self)@,
    {
        match self.deck.pop() {
            Some(card) => Ok(card),
            None => Err(GameError::EmptyDeck),
        }
    }

    /// Shuffles, then draws the topmost card. Which card comes out is up to
    /// the shuffle; what is promised is that it was in the deck, and that the
    /// deck keeps exactly the rest.
    pub fn shuffle_and_draw(&mut self) -> (r: Result<Card, GameError>)
        ensures
            old(self)@.len() > 0 ==> match r {
                Ok(c) => old(self)@.to_multiset().contains(c)
                    && final(self)@.to_multiset() == old(self)@.to_multiset().remove(c)
                    && final(self)@.len() == old(self)@.len() - 1,
                Err(_) => false,
            },
            old(self)@.len() == 0 ==> r == Err::<Card, GameError>(GameError::EmptyDeck)
                && final(self)@ == old(self)@,
    {
        let ghost pre = self@;
        self.shuffle();
        let ghost mid = self@;
        let r = self.draw();
        proof {
            if pre.len() > 0 {
                assert(mid.drop_last() =~= mid.remove(mid.len() - 1));
                assert(mid.contains(mid.last()));
            }
        }
        r
    }

    /// Uniformly permutes the cards in place.
    ///
    /// Relies on rand's `SliceRandom::shuffle` (seeded from `rand::rng()`): it
    /// reorders the slice and neither adds nor removes elements, so the
    /// multiset of cards is unchanged.
    #[verifier::external_body]
    pub fn shuffle(&mut self)
        ensures
            final(self)@.to_multiset() == old(self)@.to_multiset(),
            final(self)@.len() == old(self)@.len(),
    {
        rand::seq::SliceRandom::shuffle(self.deck.as_mut_slice(), &mut rand::rng());
    }

    /// How many cards the deck currently holds.
    pub fn len(&self) -> (n: usize)
        ensures
            n == self@.len(),
    {
        self.deck.len()
    }

    /// A copy of the current contents, bottom of the deck first.
    pub fn inner(&self) -> (cards: Vec<Card>)
        ensures
            cards@ == self@,
    {
        let mut cards: Vec<Card> = Vec::new();
        let mut i: usize = 0;
        while i < self.deck.len()
            invariant
                i <= self.deck@.len(),
                cards@ == self.deck@.subrange(0, i as int),
            decreases self.deck@.len() - i,
        {
            let c = self.deck[i];
            cards.push(c);
            proof {
                assert(cards@ =~= self.deck@.subrange(0, i + 1));
            }
            i = i + 1;
        }
        proof {
            assert(cards@ =~= self.deck@);
        }
        cards
    }
}

/// A fresh standard deck holds exactly 52 cards, pairwise distinct, and none
/// of them wild.
pub proof fn lemma_standard_deck_wf()
    ensures
        standard_deck().len() == 52,
        forall|i: int, j: int| 0 <= i < j < 52 ==> standard_deck()[i] != standard_deck()[j],
        forall|i: int| 0 <= i < 52 ==> standard_deck()[i].suit != Suit::Joker,
{
    assert forall|i: int, j: int| 0 <= i < j < 52 implies
        standard_deck()[i] != standard_deck()[j] by {
        vstd::arithmetic::div_mod::lemma_fundamental_div_mod(i, 13);
        vstd::arithmetic::div_mod::lemma_fundamental_div_mod(j, 13);
    }
}

/// The wildcard deck is the standard 52 plus exactly two wildcards, whose
/// nominal ranks differ; all 54 cards are pairwise distinct.
pub proof fn lemma_joker_deck_wf()
    ensures
        joker_deck().len() == 54,
        forall|i: int, j: int| 0 <= i < j < 54 ==> joker_deck()[i] != joker_deck()[j],
        forall|i: int| 0 <= i < 54 ==> (joker_deck()[i].suit == Suit::Joker <==> i == 52 || i
            == 53),
        joker_deck()[52].rank != joker_deck()[53].rank,
{
    lemma_standard_deck_wf();
}

/// Drawing the top card and pushing it straight back restores the same
/// multiset of cards; only the order may differ.
pub proof fn lemma_draw_then_push(s: Seq<Card>)
    requires
        s.len() > 0,
    ensures
        s.drop_last().push(s.last()).to_multiset() == s.to_multiset(),
{
    assert(s.drop_last().push(s.last()) =~= s);
}

} // verus!
