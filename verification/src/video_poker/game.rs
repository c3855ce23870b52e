//! The video-poker round: deal, exchange once, classify, restore the deck.

use vstd::multiset::Multiset;
use vstd::prelude::*;

use super::player::Player;
use crate::card::Card;
use crate::deck::{joker_deck, standard_deck, Deck};
use crate::hand::Hand;

verus! {

broadcast use {vstd::multiset::group_multiset_axioms, vstd::seq_lib::group_to_multiset_ensures};

/// Which deck a game is played with.
#[derive(Clone, Copy, Debug, PartialEq, Eq, Structural)]
pub enum Rule {
    Default52Cards,
    Jokers54Cards,
}

/// The cards a fresh deck holds under each rule.
pub open spec fn deck_of_rule(r: Rule) -> Seq<Card> {
    match r {
        Rule::Default52Cards => standard_deck(),
        Rule::Jokers54Cards => joker_deck(),
    }
}

impl Rule {
    fn create_deck(&self) -> (d: Deck)
        ensures
            d@ == deck_of_rule(*self),
    {
        match self {
            Self::Default52Cards => Deck::default_52_cards(),
            Self::Jokers54Cards => Deck::joker_54_cards(),
        }
    }
}

/// The video-poker engine. It owns its deck; every card dealt during a round
/// is returned before the round ends, so the deck's contents are an
/// invariant of the session.
pub struct VideoPoker {
    deck: Deck,
}

impl View for VideoPoker {
    type V = Seq<Card>;

    closed spec fn view(&self) -> Seq<Card> {
        self.deck@
    }
}

impl VideoPoker {
    /// An engine over a fresh deck for the given rule.
    pub fn new(rule: Rule) -> (g: VideoPoker)
        ensures
            g@ == deck_of_rule(rule),
    {
        VideoPoker { deck: rule.create_deck() }
    }

    /// How many cards the engine's deck currently holds. Between rounds this
    /// is always the full configured card set.
    pub fn cards_left(&self) -> (n: usize)
        ensures
            n == self@.len(),
    {
        self.deck.len()
    }

    /// One round: shuffle and deal five cards, show them, exchange the
    /// positions the player chose, show the final hand, classify it, and
    /// return all five cards to the deck.
    ///
    /// Whatever the player decides and whatever cards come up, the deck ends
    /// with exactly the cards it began with.
    pub fn start<P: Player>(&mut self, player: &mut P) -> (h: Hand)
        requires
            old(self)@.len() >= 5,
        ensures
            final(self)@.to_multiset() == old(self)@.to_multiset(),
            final(self)@.len() == old(self)@.len(),
    {
        self.deck.shuffle();
        let mut players_deck = self.create_deck();
        player.show_cards(&players_deck);

        let indice_to_exchange = player.exchange(&players_deck);
        self.exchange_cards(&mut players_deck, indice_to_exchange);
        player.show_cards(&players_deck);

        let hand = Hand::from_cards(&players_deck);
        self.push_back_to_deck(players_deck);
        hand
    }

    /// Deals the five topmost cards.
    fn create_deck(&mut self) -> (hand: Vec<Card>)
        requires
            old(self)@.len() >= 5,
        ensures
            hand@.len() == 5,
            final(self)@.len() == old(self)@.len() - 5,
            final(self)@.to_multiset().add(hand@.to_multiset()) == old(self)@.to_multiset(),
    {
        let mut hand: Vec<Card> = Vec::new();
        let mut j: usize = 0;
        while j < 5
            invariant
                j <= 5,
                hand@.len() == j,
                old(self)@.len() >= 5,
                self@.len() == old(self)@.len() - j,
                self@.to_multiset().add(hand@.to_multiset()) == old(self)@.to_multiset(),
            decreases 5 - j,
        {
            let ghost pre = self@;
            let ghost hand_pre = hand@;
            let c = match self.deck.draw() {
                Ok(c) => c,
                Err(_) => vstd::pervasive::unreached(),
            };
            hand.push(c);
            proof {
                assert(pre.drop_last() =~= pre.remove(pre.len() - 1));
                assert(self@.to_multiset().add(hand@.to_multiset()) =~= pre.to_multiset().add(
                    hand_pre.to_multiset(),
                ));
            }
            j = j + 1;
        }
        hand
    }

    /// Replaces the cards at the chosen positions: the old cards go back to
    /// the deck, the deck is shuffled, and each chosen position receives a
    /// fresh draw. Kept cards stay in their slots, and no card is lost: deck
    /// and hand together hold the same multiset of cards as before.
    fn exchange_cards(&mut self, deck: &mut Vec<Card>, indice_to_exchange: Vec<usize>)
        requires
            old(deck)@.len() == 5,
            forall|a: int, b: int|
                0 <= a < b < indice_to_exchange@.len() ==> indice_to_exchange@[a]
                    < indice_to_exchange@[b],
            forall|a: int|
                0 <= a < indice_to_exchange@.len() ==> indice_to_exchange@[a] < 5,
        ensures
            final(deck)@.len() == 5,
            final(self)@.len() == old(self)@.len(),
            final(self)@.to_multiset().add(final(deck)@.to_multiset()) == old(
                self,
            )@.to_multiset().add(old(deck)@.to_multiset()),
            forall|p: int|
                0 <= p < 5 && !indice_to_exchange@.contains(p as usize) ==> final(deck)@[p]
                    == old(deck)@[p],
    {
        let k = indice_to_exchange.len();
        let ghost idx = indice_to_exchange@;
        let ghost hand0 = deck@;
        let ghost deck0 = self@;
        let ghost pushed = Seq::new(k as nat, |t: int| hand0[idx[t] as int]);

        let mut j: usize = 0;
        while j < k
            invariant
                j <= k,
                k == idx.len(),
                idx == indice_to_exchange@,
                forall|a: int| 0 <= a < k ==> idx[a] < 5,
                deck@ == hand0,
                hand0.len() == 5,
                pushed == Seq::new(k as nat, |t: int| hand0[idx[t] as int]),
                self@ == deck0 + pushed.take(j as int),
            decreases k - j,
        {
            let i = indice_to_exchange[j];
            let c = deck[i];
            self.deck.push(c);
            proof {
                assert(self@ =~= deck0 + pushed.take(j as int + 1));
            }
            j = j + 1;
        }
        proof {
            assert(pushed.take(k as int) =~= pushed);
            vstd::seq_lib::lemma_multiset_commutative(deck0, pushed);
        }

        self.deck.shuffle();

        let ghost base = deck0.to_multiset().add(hand0.to_multiset());
        proof {
            assert(pushed.skip(0) =~= pushed);
        }
        let mut j: usize = 0;
        while j < k
            invariant
                j <= k,
                k == idx.len(),
                idx == indice_to_exchange@,
                forall|a: int, b: int| 0 <= a < b < k ==> idx[a] < idx[b],
                forall|a: int| 0 <= a < k ==> idx[a] < 5,
                deck@.len() == 5,
                hand0.len() == 5,
                pushed == Seq::new(k as nat, |t: int| hand0[idx[t] as int]),
                base == deck0.to_multiset().add(hand0.to_multiset()),
                forall|t: int| j <= t < k ==> deck@[idx[t] as int] == hand0[idx[t] as int],
                forall|p: int|
                    0 <= p < 5 && !idx.contains(p as usize) ==> deck@[p] == hand0[p],
                self@.len() == deck0.len() + k - j,
                self@.to_multiset().add(deck@.to_multiset()) == base.add(
                    pushed.skip(j as int).to_multiset(),
                ),
            decreases k - j,
        {
            let i = indice_to_exchange[j];
            let ghost deck_pre = self@;
            let ghost hand_pre = deck@;
            let c = match self.deck.draw() {
                Ok(c) => c,
                Err(_) => vstd::pervasive::unreached(),
            };
            deck[i] = c;
            proof {
                let jj = j as int;
                let ii = idx[jj] as int;
                assert(hand_pre[ii] == pushed[jj]);
                assert(deck_pre.drop_last() =~= deck_pre.remove(deck_pre.len() - 1));
                assert(pushed.skip(jj).remove(0) =~= pushed.skip(jj + 1));
                assert(pushed.skip(jj)[0] == pushed[jj]);
                assert(deck_pre.contains(deck_pre.last()));
                assert(deck_pre.to_multiset().count(c) > 0);
                assert(hand_pre.contains(hand_pre[ii]));
                assert(hand_pre.to_multiset().count(pushed[jj]) > 0);
                assert(pushed.skip(jj).contains(pushed.skip(jj)[0]));
                assert(pushed.skip(jj).to_multiset().count(pushed[jj]) > 0);
                assert(pushed.skip(jj).remove(0).to_multiset() == pushed.skip(
                    jj,
                ).to_multiset().remove(pushed.skip(jj)[0]));
                assert(pushed.skip(jj + 1).to_multiset() == pushed.skip(jj).to_multiset().remove(
                    pushed[jj],
                ));
                assert(self@.to_multiset() == deck_pre.to_multiset().remove(c));
                assert(deck@.to_multiset() == hand_pre.to_multiset().insert(c).remove(
                    hand_pre[ii],
                ));
                assert forall|x: Card|
                    self@.to_multiset().add(deck@.to_multiset()).count(x) == base.add(
                        pushed.skip(jj + 1).to_multiset(),
                    ).count(x) by {
                    assert(deck_pre.to_multiset().add(hand_pre.to_multiset()).count(x) == base.add(
                        pushed.skip(jj).to_multiset(),
                    ).count(x));
                }
                assert(self@.to_multiset().add(deck@.to_multiset()) =~= base.add(
                    pushed.skip(jj + 1).to_multiset(),
                ));
                assert(idx.contains(idx[jj]));
            }
            j = j + 1;
        }
        proof {
            assert(pushed.skip(k as int) =~= Seq::<Card>::empty());
            assert(Seq::<Card>::empty().to_multiset() =~= Multiset::<Card>::empty());
            assert(self@.to_multiset().add(deck@.to_multiset()) =~= base);
        }
    }

    /// Returns the whole hand to the deck, restoring the session invariant.
    fn push_back_to_deck(&mut self, players_deck: Vec<Card>)
        ensures
            final(self)@.len() == old(self)@.len() + players_deck@.len(),
            final(self)@.to_multiset() == old(self)@.to_multiset().add(
                players_deck@.to_multiset(),
            ),
    {
        let ghost deck0 = self@;
        let n = players_deck.len();
        let mut j: usize = 0;
        while j < n
            invariant
                j <= n,
                n == players_deck@.len(),
                self@ == deck0 + players_deck@.take(j as int),
            decreases n - j,
        {
            let c = players_deck[j];
            self.deck.push(c);
            proof {
                assert(self@ =~= deck0 + players_deck@.take(j as int + 1));
            }
            j = j + 1;
        }
        proof {
            assert(players_deck@.take(n as int) =~= players_deck@);
            vstd::seq_lib::lemma_multiset_commutative(deck0, players_deck@);
        }
    }
}

} // verus!
