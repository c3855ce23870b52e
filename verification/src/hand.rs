//! The poker-hand classifier: maps five cards, some possibly wild, to the
//! best matching hand category.
//!
//! Wildcards are excluded from every suit and rank computation on the
//! `natural` (non-wild) cards and instead top up the strongest achievable
//! category. The categories form a strict priority cascade: the first
//! matching category wins, so a royal-flush-shaped hand is never also
//! reported as a flush.

use vstd::prelude::*;

use crate::card::{is_wild, rank_value, Card, Rank, Suit};

verus! {

/// The hand categories, strongest first. Exactly one applies to any hand.
#[derive(Clone, Copy, Debug, PartialEq, Eq, Structural)]
pub enum Hand {
    RoyalFlush,
    StraightFlush,
    FiveOfAKind,
    FourOfAKind,
    FullHouse,
    Flush,
    Straight,
    ThreeOfAKind,
    TwoPair,
    JacksOrBetter,
    Nothing,
}

pub open spec fn max2(a: int, b: int) -> int {
    if a >= b {
        a
    } else {
        b
    }
}

/// How many natural (non-wild) cards of rank value `v` the hand holds.
pub open spec fn count_rank(s: Seq<Card>, v: int) -> int
    decreases s.len(),
{
    if s.len() == 0 {
        0
    } else {
        count_rank(s.drop_last(), v) + if !is_wild(s.last()) && rank_value(s.last().rank) == v {
            1int
        } else {
            0int
        }
    }
}

/// How many wildcards the hand holds.
pub open spec fn count_jokers(s: Seq<Card>) -> int
    decreases s.len(),
{
    if s.len() == 0 {
        0
    } else {
        count_jokers(s.drop_last()) + if is_wild(s.last()) {
            1int
        } else {
            0int
        }
    }
}

/// The ranks a royal flush is made of.
pub open spec fn royal_rank(r: Rank) -> bool {
    r == Rank::Ace || r == Rank::Ten || r == Rank::Jack || r == Rank::Queen || r == Rank::King
}

/// Every natural card has a royal rank; vacuously true without naturals.
pub open spec fn is_royals_spec(s: Seq<Card>) -> bool {
    forall|i: int| 0 <= i < s.len() && !is_wild(s[i]) ==> royal_rank(s[i].rank)
}

/// All natural cards share one suit; vacuously true with at most one natural.
pub open spec fn is_flush_spec(s: Seq<Card>) -> bool {
    forall|i: int, j: int|
        0 <= i < s.len() && 0 <= j < s.len() && !is_wild(s[i]) && !is_wild(s[j]) ==> s[i].suit
            == s[j].suit
}

/// The natural ranks are pairwise distinct and span fewer than five values;
/// vacuously true with at most one natural.
pub open spec fn is_straight_spec(s: Seq<Card>) -> bool {
    (forall|v: int| 1 <= v <= 13 ==> count_rank(s, v) <= 1) && (forall|v: int, w: int|
        1 <= v <= 13 && 1 <= w <= 13 && count_rank(s, v) > 0 && count_rank(s, w) > 0 ==> v - w
            < 5)
}

/// The largest natural-rank frequency among values `1..=v`.
pub open spec fn max_freq_up_to(s: Seq<Card>, v: int) -> int
    decreases v,
{
    if v <= 0 {
        0
    } else {
        max2(max_freq_up_to(s, v - 1), count_rank(s, v))
    }
}

/// The highest count of any single rank among the natural cards.
pub open spec fn max_freq(s: Seq<Card>) -> int {
    max_freq_up_to(s, 13)
}

/// How many rank values in `1..=v` occur exactly `c` times among the naturals.
pub open spec fn ranks_with_count(s: Seq<Card>, c: int, v: int) -> int
    decreases v,
{
    if v <= 0 {
        0
    } else {
        ranks_with_count(s, c, v - 1) + if count_rank(s, v) == c {
            1int
        } else {
            0int
        }
    }
}

/// How many rank values in `1..=v` occur at all among the naturals.
pub open spec fn present_ranks_up_to(s: Seq<Card>, v: int) -> int
    decreases v,
{
    if v <= 0 {
        0
    } else {
        present_ranks_up_to(s, v - 1) + if count_rank(s, v) > 0 {
            1int
        } else {
            0int
        }
    }
}

/// How many distinct rank values the natural cards cover.
pub open spec fn distinct_ranks(s: Seq<Card>) -> int {
    present_ranks_up_to(s, 13)
}

/// How many rank values form a natural pair (frequency exactly two).
pub open spec fn pairs_spec(s: Seq<Card>) -> int {
    ranks_with_count(s, 2, 13)
}

/// The largest natural frequency among Jack, Queen, King and Ace.
pub open spec fn high_freq(s: Seq<Card>) -> int {
    max2(count_rank(s, 1), max2(count_rank(s, 11), max2(count_rank(s, 12), count_rank(s, 13))))
}

/// The classification cascade: the first matching category, strongest first.
pub open spec fn classify(s: Seq<Card>) -> Hand {
    if is_royals_spec(s) && is_flush_spec(s) {
        Hand::RoyalFlush
    } else if is_flush_spec(s) && is_straight_spec(s) {
        Hand::StraightFlush
    } else if max_freq(s) + count_jokers(s) == 5 {
        Hand::FiveOfAKind
    } else if max_freq(s) + count_jokers(s) == 4 {
        Hand::FourOfAKind
    } else if distinct_ranks(s) == 2 {
        Hand::FullHouse
    } else if is_flush_spec(s) {
        Hand::Flush
    } else if is_straight_spec(s) {
        Hand::Straight
    } else if max_freq(s) + count_jokers(s) == 3 {
        Hand::ThreeOfAKind
    } else if pairs_spec(s) == 2 {
        Hand::TwoPair
    } else if high_freq(s) + count_jokers(s) == 2 {
        Hand::JacksOrBetter
    } else {
        Hand::Nothing
    }
}

proof fn lemma_count_rank_le_len(s: Seq<Card>, v: int)
    ensures
        0 <= count_rank(s, v) <= s.len(),
    decreases s.len(),
{
    if s.len() > 0 {
        lemma_count_rank_le_len(s.drop_last(), v);
    }
}

proof fn lemma_count_jokers_le_len(s: Seq<Card>)
    ensures
        0 <= count_jokers(s) <= s.len(),
    decreases s.len(),
{
    if s.len() > 0 {
        lemma_count_jokers_le_len(s.drop_last());
    }
}

proof fn lemma_max_freq_le_len(s: Seq<Card>, v: int)
    ensures
        0 <= max_freq_up_to(s, v) <= s.len(),
    decreases v,
{
    if v > 0 {
        lemma_max_freq_le_len(s, v - 1);
        lemma_count_rank_le_len(s, v);
    }
}

/// Extending a prefix by one card changes each rank count by the obvious
/// amount and the joker count likewise.
proof fn lemma_counts_take_succ(s: Seq<Card>, i: int)
    requires
        0 <= i < s.len(),
    ensures
        forall|v: int|
            count_rank(s.take(i + 1), v) == count_rank(s.take(i), v) + (if !is_wild(s[i])
                && rank_value(s[i].rank) == v {
                1int
            } else {
                0int
            }),
        count_jokers(s.take(i + 1)) == count_jokers(s.take(i)) + (if is_wild(s[i]) {
            1int
        } else {
            0int
        }),
{
    assert(s.take(i + 1).drop_last() =~= s.take(i));
    assert(s.take(i + 1).last() == s[i]);
}

impl Hand {
    /// Classifies five cards as the strongest matching category.
    pub fn from_cards(cards: &Vec<Card>) -> (h: Hand)
        requires
            cards@.len() == 5,
        ensures
            h == classify(cards@),
    {
        let is_royals = Hand::is_royals(cards);
        let is_straight = Hand::is_straight(cards);
        let is_flush = Hand::is_flush(cards);
        let same_ranks = Hand::same_ranks(cards);
        let jokers = Hand::jokers(cards);
        let entries = Hand::count(cards);

        proof {
            lemma_max_freq_le_len(cards@, 13);
            lemma_count_jokers_le_len(cards@);
            lemma_count_rank_le_len(cards@, 1);
            lemma_count_rank_le_len(cards@, 11);
            lemma_count_rank_le_len(cards@, 12);
            lemma_count_rank_le_len(cards@, 13);
        }

        if is_royals && is_flush {
            Hand::RoyalFlush
        } else if is_flush && is_straight {
            Hand::StraightFlush
        } else if same_ranks + jokers == 5 {
            Hand::FiveOfAKind
        } else if same_ranks + jokers == 4 {
            Hand::FourOfAKind
        } else if Hand::is_full_house(cards) {
            Hand::FullHouse
        } else if is_flush {
            Hand::Flush
        } else if is_straight {
            Hand::Straight
        } else if same_ranks + jokers == 3 {
            Hand::ThreeOfAKind
        } else if Hand::pairs(&entries) == 2 {
            proof {
                lemma_pairs_table_matches(entries@, cards@, 13);
            }
            Hand::TwoPair
        } else {
            proof {
                lemma_pairs_table_matches(entries@, cards@, 13);
            }
            let mut high = entries[0];
            let e = entries[10];
            if e > high {
                high = e;
            }
            let e = entries[11];
            if e > high {
                high = e;
            }
            let e = entries[12];
            if e > high {
                high = e;
            }
            if high + jokers == 2 {
                Hand::JacksOrBetter
            } else {
                Hand::Nothing
            }
        }
    }

    /// Whether every natural card has a royal rank (Ten through King, or Ace).
    pub fn is_royals(cards: &Vec<Card>) -> (r: bool)
        ensures
            r == is_royals_spec(cards@),
    {
        let mut i: usize = 0;
        while i < cards.len()
            invariant
                i <= cards@.len(),
                forall|k: int| 0 <= k < i && !is_wild(cards@[k]) ==> royal_rank(cards@[k].rank),
            decreases cards@.len() - i,
        {
            let c = cards[i];
            if c.suit != Suit::Joker {
                let v = c.rank.value();
                if !(v == 1 || v >= 10) {
                    assert(!royal_rank(cards@[i as int].rank));
                    return false;
                }
                assert(royal_rank(cards@[i as int].rank));
            }
            i = i + 1;
        }
        true
    }

    /// Whether the natural ranks are pairwise distinct and span fewer than
    /// five values.
    pub fn is_straight(cards: &Vec<Card>) -> (r: bool)
        ensures
            r == is_straight_spec(cards@),
    {
        let entries = Hand::count(cards);
        let mut v: usize = 1;
        let mut lo: usize = 0;
        let mut hi: usize = 0;
        while v <= 13
            invariant
                1 <= v <= 14,
                entries@.len() == 13,
                forall|w: int| 1 <= w <= 13 ==> entries@[w - 1] as int == count_rank(cards@, w),
                forall|w: int| 1 <= w < v ==> count_rank(cards@, w) <= 1,
                lo == 0 ==> hi == 0 && forall|w: int| 1 <= w < v ==> count_rank(cards@, w) == 0,
                lo != 0 ==> 1 <= lo && lo <= hi && hi < v && count_rank(cards@, lo as int) > 0
                    && count_rank(cards@, hi as int) > 0 && (forall|w: int|
                    1 <= w < lo ==> count_rank(cards@, w) == 0) && (forall|w: int|
                    hi < w < v ==> count_rank(cards@, w) == 0),
            decreases 14 - v,
        {
            let c = entries[v - 1];
            if c >= 2 {
                proof {
                    assert(count_rank(cards@, v as int) == entries@[v as int - 1] as int);
                    assert(!is_straight_spec(cards@));
                }
                return false;
            }
            if c == 1 {
                if lo == 0 {
                    lo = v;
                }
                hi = v;
            }
            v = v + 1;
        }
        if lo == 0 {
            true
        } else {
            hi - lo < 5
        }
    }

    /// Whether all natural cards share one suit.
    pub fn is_flush(cards: &Vec<Card>) -> (r: bool)
        ensures
            r == is_flush_spec(cards@),
    {
        let ghost mut wit: int = 0;
        let mut found: Option<Suit> = Option::None;
        let mut i: usize = 0;
        while i < cards.len()
            invariant
                i <= cards@.len(),
                match found {
                    Option::None => forall|k: int| 0 <= k < i ==> is_wild(cards@[k]),
                    Option::Some(su) => 0 <= wit < i && !is_wild(cards@[wit]) && cards@[wit].suit
                        == su && forall|k: int|
                        0 <= k < i && !is_wild(cards@[k]) ==> cards@[k].suit == su,
                },
            decreases cards@.len() - i,
        {
            let c = cards[i];
            if c.suit != Suit::Joker {
                match found {
                    Option::None => {
                        found = Option::Some(c.suit);
                        proof {
                            wit = i as int;
                        }
                    },
                    Option::Some(su) => {
                        if c.suit != su {
                            return false;
                        }
                    },
                }
            }
            i = i + 1;
        }
        true
    }

    /// Whether the naturals collapse to exactly two distinct ranks.
    pub fn is_full_house(cards: &Vec<Card>) -> (r: bool)
        ensures
            r == (distinct_ranks(cards@) == 2),
    {
        let entries = Hand::count(cards);
        let mut v: usize = 1;
        let mut present: usize = 0;
        while v <= 13
            invariant
                1 <= v <= 14,
                entries@.len() == 13,
                forall|w: int| 1 <= w <= 13 ==> entries@[w - 1] as int == count_rank(cards@, w),
                present <= v - 1,
                present as int == present_ranks_up_to(cards@, v as int - 1),
            decreases 14 - v,
        {
            if entries[v - 1] > 0 {
                present = present + 1;
            }
            v = v + 1;
        }
        present == 2
    }

    /// The highest count of any single rank among the natural cards.
    pub fn same_ranks(cards: &Vec<Card>) -> (m: usize)
        ensures
            m as int == max_freq(cards@),
    {
        let entries = Hand::count(cards);
        let mut v: usize = 1;
        let mut m: usize = 0;
        while v <= 13
            invariant
                1 <= v <= 14,
                entries@.len() == 13,
                forall|w: int| 1 <= w <= 13 ==> entries@[w - 1] as int == count_rank(cards@, w),
                m as int == max_freq_up_to(cards@, v as int - 1),
            decreases 14 - v,
        {
            let c = entries[v - 1];
            if c > m {
                m = c;
            }
            v = v + 1;
        }
        m
    }

    /// How many wildcards the hand holds.
    pub fn jokers(cards: &Vec<Card>) -> (n: usize)
        ensures
            n as int == count_jokers(cards@),
    {
        let mut n: usize = 0;
        let mut i: usize = 0;
        while i < cards.len()
            invariant
                i <= cards@.len(),
                n <= i,
                n as int == count_jokers(cards@.take(i as int)),
            decreases cards@.len() - i,
        {
            proof {
                lemma_counts_take_succ(cards@, i as int);
            }
            if cards[i].suit == Suit::Joker {
                n = n + 1;
            }
            i = i + 1;
        }
        proof {
            assert(cards@.take(cards@.len() as int) =~= cards@);
        }
        n
    }

    /// The per-rank frequency table of the natural cards: entry `v - 1` holds
    /// how many naturals have rank value `v`.
    pub fn count(cards: &Vec<Card>) -> (entries: Vec<usize>)
        ensures
            entries@.len() == 13,
            forall|v: int| 1 <= v <= 13 ==> entries@[v - 1] as int == count_rank(cards@, v),
    {
        let mut entries: Vec<usize> = Vec::new();
        let mut z: usize = 0;
        while z < 13
            invariant
                z <= 13,
                entries@.len() == z,
                forall|k: int| 0 <= k < z ==> entries@[k] == 0usize,
            decreases 13 - z,
        {
            entries.push(0);
            z = z + 1;
        }
        let mut i: usize = 0;
        while i < cards.len()
            invariant
                i <= cards@.len(),
                entries@.len() == 13,
                forall|v: int|
                    1 <= v <= 13 ==> entries@[v - 1] as int == count_rank(
                        cards@.take(i as int),
                        v,
                    ),
            decreases cards@.len() - i,
        {
            let ghost t1 = cards@.take(i as int + 1);
            proof {
                lemma_counts_take_succ(cards@, i as int);
                lemma_count_rank_le_len(cards@.take(i as int), rank_value(cards@[i as int].rank));
                assert(cards@.take(i as int).len() == i);
            }
            let c = cards[i];
            if c.suit != Suit::Joker {
                let v = c.rank.value();
                let idx = (v - 1) as usize;
                let ghost pre = entries@;
                let cur = entries[idx];
                entries[idx] = cur + 1;
                proof {
                    assert forall|w: int|
                        1 <= w <= 13 implies entries@[w - 1] as int == count_rank(t1, w) by {
                        assert(pre[w - 1] as int == count_rank(cards@.take(i as int), w));
                        if w != v as int {
                            assert(entries@[w - 1] == pre[w - 1]);
                        }
                    }
                }
            } else {
                proof {
                    assert forall|w: int|
                        1 <= w <= 13 implies entries@[w - 1] as int == count_rank(t1, w) by {
                        assert(entries@[w - 1] as int == count_rank(cards@.take(i as int), w));
                    }
                }
            }
            i = i + 1;
        }
        proof {
            assert(cards@.take(cards@.len() as int) =~= cards@);
        }
        entries
    }

    /// How many entries of a frequency table are exactly two.
    pub fn pairs(entries: &Vec<usize>) -> (n: usize)
        requires
            entries@.len() == 13,
        ensures
            n as int == table_pairs(entries@, 13),
    {
        let mut v: usize = 1;
        let mut n: usize = 0;
        while v <= 13
            invariant
                1 <= v <= 14,
                entries@.len() == 13,
                n <= v - 1,
                n as int == table_pairs(entries@, v as int - 1),
            decreases 14 - v,
        {
            if entries[v - 1] == 2 {
                n = n + 1;
            }
            v = v + 1;
        }
        n
    }
}

/// How many of the first `v` table entries are exactly two.
pub open spec fn table_pairs(t: Seq<usize>, v: int) -> int
    decreases v,
{
    if v <= 0 {
        0
    } else {
        table_pairs(t, v - 1) + if t[v - 1] == 2usize {
            1int
        } else {
            0int
        }
    }
}

/// A frequency table that matches a hand counts that hand's natural pairs.
proof fn lemma_pairs_table_matches(t: Seq<usize>, s: Seq<Card>, v: int)
    requires
        0 <= v <= 13,
        t.len() == 13,
        forall|w: int| 1 <= w <= 13 ==> t[w - 1] as int == count_rank(s, w),
    ensures
        table_pairs(t, v) == ranks_with_count(s, 2, v),
    decreases v,
{
    if v > 0 {
        lemma_pairs_table_matches(t, s, v - 1);
    }
}

/// The strength order of the categories, strongest highest.
pub open spec fn hand_strength(h: Hand) -> int {
    match h {
        Hand::RoyalFlush => 10,
        Hand::StraightFlush => 9,
        Hand::FiveOfAKind => 8,
        Hand::FourOfAKind => 7,
        Hand::FullHouse => 6,
        Hand::Flush => 5,
        Hand::Straight => 4,
        Hand::ThreeOfAKind => 3,
        Hand::TwoPair => 2,
        Hand::JacksOrBetter => 1,
        Hand::Nothing => 0,
    }
}

/// The raw defining condition of each category, before priority is applied.
/// `None` is the catch-all, so its condition always holds.
pub open spec fn category_condition(s: Seq<Card>, h: Hand) -> bool {
    match h {
        Hand::RoyalFlush => is_royals_spec(s) && is_flush_spec(s),
        Hand::StraightFlush => is_flush_spec(s) && is_straight_spec(s),
        Hand::FiveOfAKind => max_freq(s) + count_jokers(s) == 5,
        Hand::FourOfAKind => max_freq(s) + count_jokers(s) == 4,
        Hand::FullHouse => distinct_ranks(s) == 2,
        Hand::Flush => is_flush_spec(s),
        Hand::Straight => is_straight_spec(s),
        Hand::ThreeOfAKind => max_freq(s) + count_jokers(s) == 3,
        Hand::TwoPair => pairs_spec(s) == 2,
        Hand::JacksOrBetter => high_freq(s) + count_jokers(s) == 2,
        Hand::Nothing => true,
    }
}

/// Classification is exhaustive and exclusive: every hand receives exactly
/// one category, namely the strongest whose defining condition it meets. The
/// chosen category's condition holds, and no strictly stronger category's
/// condition does.
pub proof fn lemma_classify_exhaustive_exclusive(s: Seq<Card>)
    ensures
        category_condition(s, classify(s)),
        forall|h: Hand|
            hand_strength(h) > hand_strength(classify(s)) ==> !category_condition(s, h),
{
    assert forall|h: Hand|
        hand_strength(h) > hand_strength(classify(s)) implies !category_condition(s, h) by {
        assert(category_condition(s, classify(s)));
    }
}

} // verus!
