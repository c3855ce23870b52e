//! The decision interface of the bonus mini-game.

use vstd::prelude::*;

use crate::card::Card;

verus! {

/// An over/under guess against the reference rank value of seven.
#[derive(Clone, Copy, Debug, PartialEq, Eq, Structural)]
pub enum Guess {
    Greater,
    Less,
}

/// The decisions the bonus game asks of an external collaborator, typically
/// a human at a terminal. Each call blocks until answered; the engine does
/// no other work while a decision is pending.
pub trait Player {
    /// Whether to play (another) round; `current_round` starts at 1.
    fn new_round(&self, current_round: usize) -> bool;

    /// The guess for the round about to be resolved.
    fn guess(&self) -> Guess;

    /// Reports the drawn card, the guess made and whether the round was won.
    /// Display only.
    fn round_result(&self, card: &Card, guess: &Guess, win: bool);
}

} // verus!
