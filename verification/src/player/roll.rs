//! The dodge roll.

use vstd::prelude::*;

verus! {

/// Held by a player for as long as a roll lasts.
#[derive(Clone, Copy, Debug, PartialEq, Eq, Structural, Hash)]
pub struct RollStats {
    /// Time since the roll began, in nanoseconds.
    pub since: u64,
}

} // verus!
