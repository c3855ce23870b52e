//! The bonus-round state machine.

use vstd::prelude::*;

use super::player::{Guess, Player};
use crate::card::{rank_value, Card};
use crate::deck::{standard_deck, Deck};

verus! {

/// The bonus mini-game. It owns a wildcard-free deck; each round shuffles,
/// draws one card, resolves the player's guess against it and returns the
/// card, so the deck's contents are an invariant of the session.
pub struct BonusGame {
    deck: Deck,
}

impl View for BonusGame {
    type V = Seq<Card>;

    closed spec fn view(&self) -> Seq<Card> {
        self.deck@
    }
}

/// Whether a guess wins against the drawn card: above seven only `Greater`
/// wins, below seven only `Less` wins, and exactly seven wins either way —
/// the tie favours the player.
pub open spec fn guess_correct(card: Card, guess: Guess) -> bool {
    if rank_value(card.rank) > 7 {
        guess == Guess::Greater
    } else if rank_value(card.rank) < 7 {
        guess == Guess::Less
    } else {
        true
    }
}

impl BonusGame {
    /// A bonus game over a fresh 52-card deck (no wildcards).
    pub fn new() -> (g: BonusGame)
        ensures
            g@ == standard_deck(),
    {
        BonusGame { deck: Deck::default_52_cards() }
    }

    /// How many cards the game's deck currently holds. Between sessions this
    /// is always the full 52.
    pub fn cards_left(&self) -> (n: usize)
        ensures
            n == self@.len(),
    {
        self.deck.len()
    }

    /// One bonus session. While the player wants a round, a card is drawn
    /// from the shuffled deck and the player's guess is resolved against it;
    /// a correct guess advances the round counter, a wrong one ends the
    /// session with no bonus. Declining at round `n` ends it with `Some(n)`.
    ///
    /// Whatever the player decides and whatever cards come up, every drawn
    /// card is returned: the deck ends with exactly the cards it began with.
    /// A reported round count is always at least 1.
    pub fn start<P: Player>(&mut self, player: &mut P) -> (r: Option<usize>)
        requires
            old(self)@.len() > 0,
        ensures
            final(self)@.to_multiset() == old(self)@.to_multiset(),
            final(self)@.len() == old(self)@.len(),
            match r {
                Some(n) => n >= 1,
                None => true,
            },
    {
        let mut current_round: usize = 1;
        loop
            invariant
                current_round >= 1,
                self@.len() > 0,
                self@.to_multiset() == old(self)@.to_multiset(),
                self@.len() == old(self)@.len(),
            decreases usize::MAX - current_round,
        {
            if !player.new_round(current_round) {
                return Some(current_round);
            }
            self.deck.shuffle();
            let ghost shuffled = self@;
            let card = match self.deck.draw() {
                Ok(c) => c,
                Err(_) => vstd::pervasive::unreached(),
            };
            let guess = player.guess();
            let is_correct = BonusGame::guess_is_correct(&card, &guess);
            player.round_result(&card, &guess, is_correct);
            self.deck.push(card);
            proof {
                assert(shuffled.drop_last().push(shuffled.last()) =~= shuffled);
            }
            if is_correct {
                if current_round == usize::MAX {
                    // the round counter has hit the machine word; stop the
                    // session as if the player had declined the next round
                    return Some(current_round);
                }
                current_round = current_round + 1;
            } else {
                return None;
            }
        }
    }

    /// Resolves one guess against one card.
    pub fn guess_is_correct(card: &Card, guess: &Guess) -> (r: bool)
        ensures
            r == guess_correct(*card, *guess),
    {
        let v = card.rank.value();
        if v > 7 {
            *guess == Guess::Greater
        } else if v < 7 {
            *guess == Guess::Less
        } else {
            true
        }
    }
}

/// The house-favourable tie rule, stated on its own: when the drawn card's
/// rank value is exactly seven, every guess resolves as correct, whichever
/// way it went.
pub proof fn lemma_seven_wins_either_way(card: Card, guess: Guess)
    requires
        rank_value(card.rank) == 7,
    ensures
        guess_correct(card, guess),
{
}

} // verus!
