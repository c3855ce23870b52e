//! The double-or-nothing bonus mini-game: repeated over/under guesses against
//! a single drawn card, one more round per correct guess.

mod game;
mod player;

pub use game::{guess_correct, BonusGame};
pub use player::{Guess, Player};
