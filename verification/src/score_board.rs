//! The token ledger: validates and deducts entry costs and credits payouts
//! computed from the hand category, the payout-rate table and the bonus
//! multiplier.

use vstd::prelude::*;

use vstd::arithmetic::power::{lemma0_pow, lemma_pow_increases, pow};

use crate::error::GameError;
use crate::hand::Hand;

verus! {

/// The payout-rate table: an integer multiplier per winning hand category.
/// A losing hand is not in the table and earns zero.
#[derive(Clone, Copy, Debug)]
pub struct Rate {
    pub royal_flush: usize,
    pub five_of_a_kind: usize,
    pub straight_flush: usize,
    pub four_of_a_kind: usize,
    pub full_house: usize,
    pub flush: usize,
    pub straight: usize,
    pub three_of_a_kind: usize,
    pub two_pair: usize,
    pub jacks_or_better: usize,
}

/// The multiplier the table assigns to a hand; a losing hand earns zero.
pub open spec fn rate_of(rate: Rate, h: Hand) -> int {
    match h {
        Hand::RoyalFlush => rate.royal_flush as int,
        Hand::StraightFlush => rate.straight_flush as int,
        Hand::FiveOfAKind => rate.five_of_a_kind as int,
        Hand::FourOfAKind => rate.four_of_a_kind as int,
        Hand::FullHouse => rate.full_house as int,
        Hand::Flush => rate.flush as int,
        Hand::Straight => rate.straight as int,
        Hand::ThreeOfAKind => rate.three_of_a_kind as int,
        Hand::TwoPair => rate.two_pair as int,
        Hand::JacksOrBetter => rate.jacks_or_better as int,
        Hand::Nothing => 0,
    }
}

/// The bonus exponent: one less than the rounds reached, and never negative.
pub open spec fn bonus_exp(rounds: int) -> nat {
    if rounds <= 1 {
        0
    } else {
        (rounds - 1) as nat
    }
}

/// The bonus multiplier: `base^(rounds - 1)` when the bonus game was played,
/// and 1 when it was not.
pub open spec fn bonus_factor(bonus_base: int, bonus_rounds: Option<usize>) -> int {
    match bonus_rounds {
        Option::None => 1,
        Option::Some(r) => pow(bonus_base, bonus_exp(r as int)),
    }
}

/// The payout of a round: the entry cost times the hand's rate times the
/// bonus multiplier.
pub open spec fn prize_spec(
    rate: Rate,
    bonus_base: int,
    base: int,
    h: Hand,
    bonus_rounds: Option<usize>,
) -> int {
    base * rate_of(rate, h) * bonus_factor(bonus_base, bonus_rounds)
}

impl Rate {
    /// Looks up the multiplier of a hand category.
    pub fn by_hand(&self, hand: &Hand) -> (r: usize)
        ensures
            r as int == rate_of(*self, *hand),
    {
        match hand {
            Hand::RoyalFlush => self.royal_flush,
            Hand::StraightFlush => self.straight_flush,
            Hand::FiveOfAKind => self.five_of_a_kind,
            Hand::FourOfAKind => self.four_of_a_kind,
            Hand::FullHouse => self.full_house,
            Hand::Flush => self.flush,
            Hand::Straight => self.straight,
            Hand::ThreeOfAKind => self.three_of_a_kind,
            Hand::TwoPair => self.two_pair,
            Hand::JacksOrBetter => self.jacks_or_better,
            Hand::Nothing => 0,
        }
    }
}

/// The token ledger. The balance never goes negative: a deduction that would
/// underflow is rejected and leaves the ledger untouched.
pub struct ScoreBoard {
    token: usize,
    rate: Rate,
    bonus_base: usize,
}

fn pow_usize(base: usize, exp: usize) -> (r: usize)
    requires
        pow(base as int, exp as nat) <= usize::MAX,
    ensures
        r as int == pow(base as int, exp as nat),
{
    proof {
        reveal(pow);
    }
    if base == 0 {
        if exp == 0 {
            1
        } else {
            proof {
                lemma0_pow(exp as nat);
            }
            0
        }
    } else {
        let mut acc: usize = 1;
        let mut i: usize = 0;
        while i < exp
            invariant
                i <= exp,
                base >= 1,
                acc as int == pow(base as int, i as nat),
                pow(base as int, exp as nat) <= usize::MAX,
            decreases exp - i,
        {
            proof {
                reveal(pow);
                lemma_pow_increases(base as nat, (i + 1) as nat, exp as nat);
                assert(pow(base as int, (i + 1) as nat) == base * pow(base as int, i as nat));
            }
            acc = acc * base;
            i = i + 1;
        }
        acc
    }
}

impl ScoreBoard {
    /// The current token balance.
    pub closed spec fn spec_token(&self) -> int {
        self.token as int
    }

    /// The payout-rate table the board was built with.
    pub closed spec fn spec_rate(&self) -> Rate {
        self.rate
    }

    /// The bonus multiplier base the board was built with.
    pub closed spec fn spec_base(&self) -> int {
        self.bonus_base as int
    }

    /// A ledger with an opening balance, a rate table and a bonus base.
    pub fn new(token: usize, rate: Rate, bonus_base: usize) -> (s: ScoreBoard)
        ensures
            s.spec_token() == token,
            s.spec_rate() == rate,
            s.spec_base() == bonus_base,
    {
        ScoreBoard { token, rate, bonus_base }
    }

    /// The current balance.
    pub fn token(&self) -> (t: usize)
        ensures
            t as int == self.spec_token(),
    {
        self.token
    }

    /// The payout of a round: entry cost times hand rate times the bonus
    /// multiplier. Pure: the ledger is not touched. The bounds keep every
    /// partial product within the machine word.
    pub fn prize(&self, base: usize, hand: &Hand, bonus_rounds: Option<usize>) -> (p: usize)
        requires
            base * rate_of(self.spec_rate(), *hand) <= usize::MAX,
            bonus_factor(self.spec_base(), bonus_rounds) <= usize::MAX,
            prize_spec(self.spec_rate(), self.spec_base(), base as int, *hand, bonus_rounds)
                <= usize::MAX,
        ensures
            p as int == prize_spec(
                self.spec_rate(),
                self.spec_base(),
                base as int,
                *hand,
                bonus_rounds,
            ),
    {
        let r = self.rate.by_hand(hand);
        let m: usize = match bonus_rounds {
            Option::None => 1,
            Option::Some(rounds) => {
                let e: usize = if rounds <= 1 {
                    0
                } else {
                    rounds - 1
                };
                pow_usize(self.bonus_base, e)
            },
        };
        let a = base * r;
        a * m
    }

    /// Deducts an entry cost. Fails, and changes nothing, exactly when the
    /// cost exceeds the balance; there is no partial deduction.
    pub fn cost(&mut self, cost: usize) -> (r: Result<(), GameError>)
        ensures
            final(self).spec_rate() == old(self).spec_rate(),
            final(self).spec_base() == old(self).spec_base(),
            cost <= old(self).spec_token() ==> r == Ok::<(), GameError>(())
                && final(self).spec_token() == old(self).spec_token() - cost,
            cost > old(self).spec_token() ==> r == Err::<(), GameError>(
                GameError::InsufficientTokens,
            ) && final(self).spec_token() == old(self).spec_token(),
    {
        if cost <= self.token {
            self.token = self.token - cost;
            Ok(())
        } else {
            Err(GameError::InsufficientTokens)
        }
    }

    /// Credits the payout of a finished round, bonus included, to the ledger.
    pub fn apply(&mut self, base: usize, hand: Hand, bonus_rounds: usize)
        requires
            base * rate_of(old(self).spec_rate(), hand) <= usize::MAX,
            bonus_factor(old(self).spec_base(), Some(bonus_rounds)) <= usize::MAX,
            prize_spec(
                old(self).spec_rate(),
                old(self).spec_base(),
                base as int,
                hand,
                Some(bonus_rounds),
            ) <= usize::MAX,
            old(self).spec_token() + prize_spec(
                old(self).spec_rate(),
                old(self).spec_base(),
                base as int,
                hand,
                Some(bonus_rounds),
            ) <= usize::MAX,
        ensures
            final(self).spec_rate() == old(self).spec_rate(),
            final(self).spec_base() == old(self).spec_base(),
            final(self).spec_token() == old(self).spec_token() + prize_spec(
                old(self).spec_rate(),
                old(self).spec_base(),
                base as int,
                hand,
                Some(bonus_rounds),
            ),
    {
        let p = self.prize(base, &hand, Some(bonus_rounds));
        self.token = self.token + p;
    }
}

} // verus!
