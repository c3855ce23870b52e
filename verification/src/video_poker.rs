//! The five-card draw-and-exchange game: deal five, let the player swap a
//! chosen subset once, classify the final hand.

mod game;
mod player;

pub use game::{deck_of_rule, Rule, VideoPoker};
pub use player::Player;
