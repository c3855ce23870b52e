//! Core rules engine for a single-player video-poker game.
//!
//! The crate models a deck of cards, a wildcard-aware poker-hand classifier, a
//! five-card draw-and-exchange round, a double-or-nothing bonus mini-game, and
//! a token ledger with a configurable payout table. Terminal rendering and
//! player prompting are left to callers, which plug in through the two
//! `Player` traits.

pub mod bonus_game;
pub mod card;
pub mod deck;
pub mod error;
pub mod hand;
pub mod score_board;
pub mod video_poker;

pub use card::{Card, Rank, Suit};
pub use deck::Deck;
pub use error::GameError;
pub use hand::Hand;
pub use score_board::{Rate, ScoreBoard};
pub use video_poker::{Rule, VideoPoker};
