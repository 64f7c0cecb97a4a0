//! Names for the things in the world.

use vstd::prelude::*;

verus! {

/// Identifies one thing in the world: a player, a weapon, a pickup. The
/// caller hands out the numbers and keeps them apart.
#[derive(Clone, Copy, Debug, PartialEq, Eq, Structural, Hash)]
pub struct EntityId(pub u64);

} // verus!
