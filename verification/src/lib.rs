//! A card model for the game of Set: four three-valued attributes per card,
//! a compact numeric encoding, the set-matching predicate, and a deck that
//! deals cards onto a board.

pub mod card;
pub mod table;
pub mod text;
pub mod triple;

use vstd::prelude::*;

verus! {

/// Number of distinct cards: three choices for each of four attributes.
pub const DECK_SIZE: u8 = 81;

} // verus!
