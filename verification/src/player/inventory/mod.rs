//! What a player carries and what lies about to be picked up.

pub mod inventory_manager;
pub mod item_manager;
pub mod pickup;
pub mod weapon_manager;

use crate::entity::EntityId;
use crate::player::inventory::item_manager::Items;
use vstd::prelude::*;

verus! {

/// A player has picked up an item: the kind of item, then the player.
#[derive(Clone, Copy, Debug, PartialEq, Eq, Structural, Hash)]
pub struct PickupEvent(pub Items, pub EntityId);

} // verus!
