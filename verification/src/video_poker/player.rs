//! The decision interface of the video-poker game.

use vstd::prelude::*;

use crate::card::Card;

verus! {

/// The decisions the video-poker round asks of an external collaborator,
/// typically a human at a terminal. Each call blocks until answered; the
/// engine does no other work while a decision is pending.
pub trait Player {
    /// Shown the current five-card hand. Display only.
    fn show_cards(&mut self, cards: &Vec<Card>);

    /// Asked which of the five positions to exchange for fresh cards. The
    /// contract is the implementer's obligation: the returned positions must
    /// be strictly increasing and each below five. The engine trusts it and
    /// does not re-validate; a malformed answer is a contract violation, not
    /// a recoverable engine error.
    fn exchange(&mut self, cards: &Vec<Card>) -> (idx: Vec<usize>)
        requires
            cards@.len() == 5,
        ensures
            forall|a: int, b: int| 0 <= a < b < idx@.len() ==> idx@[a] < idx@[b],
            forall|a: int| 0 <= a < idx@.len() ==> idx@[a] < 5,
    ;
}

} // verus!
