//! The failure taxonomy of the engine.

use vstd::prelude::*;

verus! {

/// Every failure the engine can surface to a caller.
#[derive(Clone, Copy, Debug, PartialEq, Eq, Structural)]
pub enum GameError {
    /// A draw was attempted on an exhausted deck. Under normal play this never
    /// occurs: every card removed for a round is returned afterwards.
    EmptyDeck,
    /// An entry cost exceeded the current token balance. The ledger is left
    /// untouched; the caller may retry with a smaller cost.
    InsufficientTokens,
}

} // verus!
