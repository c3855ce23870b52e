//! Playing-card value types: a card is a suit paired with a rank.
//!
//! A card whose suit is `Joker` is a wildcard: it has a nominal rank, but the
//! hand classifier excludes it from all suit and rank computations and lets it
//! stand for whatever completes the strongest category.

use vstd::prelude::*;

verus! {

#[derive(Clone, Copy, Debug, PartialEq, Eq, Structural, PartialOrd, Ord)]
pub enum Suit {
    Heart,
    Spade,
    Diamond,
    Club,
    Joker,
}

#[derive(Clone, Copy, Debug, PartialEq, Eq, Structural, PartialOrd, Ord)]
pub enum Rank {
    Ace,
    Two,
    Three,
    Four,
    Five,
    Six,
    Seven,
    Eight,
    Nine,
    Ten,
    Jack,
    Queen,
    King,
}

#[derive(Clone, Copy, Debug, PartialEq, Eq, Structural, PartialOrd, Ord)]
pub struct Card {
    pub suit: Suit,
    pub rank: Rank,
}

/// The numeric value of a rank, 1 (Ace) through 13 (King). Ace is always low;
/// the value is used only for straight adjacency and over/under comparisons.
pub open spec fn rank_value(r: Rank) -> int {
    match r {
        Rank::Ace => 1,
        Rank::Two => 2,
        Rank::Three => 3,
        Rank::Four => 4,
        Rank::Five => 5,
        Rank::Six => 6,
        Rank::Seven => 7,
        Rank::Eight => 8,
        Rank::Nine => 9,
        Rank::Ten => 10,
        Rank::Jack => 11,
        Rank::Queen => 12,
        Rank::King => 13,
    }
}

/// A card is a wildcard exactly when its suit is `Joker`.
pub open spec fn is_wild(c: Card) -> bool {
    c.suit == Suit::Joker
}

pub open spec fn suit_repr(s: Suit) -> Seq<char> {
    match s {
        Suit::Heart => "♥"@,
        Suit::Spade => "♠"@,
        Suit::Club => "♣"@,
        Suit::Diamond => "♦"@,
        Suit::Joker => "★"@,
    }
}

pub open spec fn rank_repr(r: Rank) -> Seq<char> {
    match r {
        Rank::Ace => "A"@,
        Rank::Two => "2"@,
        Rank::Three => "3"@,
        Rank::Four => "4"@,
        Rank::Five => "5"@,
        Rank::Six => "6"@,
        Rank::Seven => "7"@,
        Rank::Eight => "8"@,
        Rank::Nine => "9"@,
        Rank::Ten => "10"@,
        Rank::Jack => "J"@,
        Rank::Queen => "Q"@,
        Rank::King => "K"@,
    }
}

impl Suit {
    pub fn repr(&self) -> (s: &'static str)
        ensures
            s@ == suit_repr(*self),
    {
        match self {
            Self::Heart => "♥",
            Self::Spade => "♠",
            Self::Club => "♣",
            Self::Diamond => "♦",
            Self::Joker => "★",
        }
    }
}

impl Rank {
    pub fn value(&self) -> (v: u8)
        ensures
            v as int == rank_value(*self),
    {
        match self {
            Self::Ace => 1,
            Self::Two => 2,
            Self::Three => 3,
            Self::Four => 4,
            Self::Five => 5,
            Self::Six => 6,
            Self::Seven => 7,
            Self::Eight => 8,
            Self::Nine => 9,
            Self::Ten => 10,
            Self::Jack => 11,
            Self::Queen => 12,
            Self::King => 13,
        }
    }

    pub fn repr(&self) -> (s: &'static str)
        ensures
            s@ == rank_repr(*self),
    {
        match self {
            Self::Ace => "A",
            Self::Two => "2",
            Self::Three => "3",
            Self::Four => "4",
            Self::Five => "5",
            Self::Six => "6",
            Self::Seven => "7",
            Self::Eight => "8",
            Self::Nine => "9",
            Self::Ten => "10",
            Self::Jack => "J",
            Self::Queen => "Q",
            Self::King => "K",
        }
    }
}

} // verus!
