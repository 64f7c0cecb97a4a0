//! What a player carries.

use crate::player::inventory::item_manager::Items;
use vstd::prelude::*;

verus! {

/// How many items of each kind a player carries.
#[derive(Clone, Copy, Debug, PartialEq, Eq, Structural, Hash)]
pub struct Inventory {
    speed_boosts: u32,
    damage_boosts: u32,
    health_boosts: u32,
}

impl View for Inventory {
    type V = Map<Items, nat>;

    closed spec fn view(&self) -> Map<Items, nat> {
        Map::total(
            |item: Items|
                match item {
                    Items::SpeedBoost => self.speed_boosts as nat,
                    Items::DamageBoost => self.damage_boosts as nat,
                    Items::HealthBoost => self.health_boosts as nat,
                },
        )
    }
}

impl Inventory {
    /// The inventory can take one more item of the kind.
    pub open spec fn has_room_for(self, item: Items) -> bool {
        self@[item] < u32::MAX
    }

    /// The inventory can take one more item of every kind.
    pub open spec fn has_room(self) -> bool {
        forall|item: Items| self.has_room_for(item)
    }

    /// The counts of the inventory with one more item of the kind.
    pub open spec fn added(self, item: Items) -> Map<Items, nat> {
        self@.insert(item, self@[item] + 1)
    }

    /// The inventory with one more item of the kind, where it has room.
    pub closed spec fn with_one_more(self, item: Items) -> Inventory {
        match item {
            Items::SpeedBoost => Inventory {
                speed_boosts: (self.speed_boosts + 1) as u32,
                ..self
            },
            Items::DamageBoost => Inventory {
                damage_boosts: (self.damage_boosts + 1) as u32,
                ..self
            },
            Items::HealthBoost => Inventory {
                health_boosts: (self.health_boosts + 1) as u32,
                ..self
            },
        }
    }

    /// `with_one_more` counts one more item of the kind and leaves the other
    /// counts as they are.
    pub proof fn lemma_with_one_more(self, item: Items)
        requires
            self.has_room_for(item),
        ensures
            self.with_one_more(item)@ == self.added(item),
            self.with_one_more(item)@[item] == self@[item] + 1,
            forall|other: Items| other != item ==> self.with_one_more(item)@[other] == self@[other],
    {
        assert(self.with_one_more(item)@ =~= self.added(item));
    }

    /// The empty inventory.
    pub fn new() -> (inventory: Inventory)
        ensures
            inventory@ == Map::<Items, nat>::total(|item: Items| 0nat),
    {
        let inventory = Inventory { speed_boosts: 0, damage_boosts: 0, health_boosts: 0 };
        assert(inventory@ =~= Map::<Items, nat>::total(|item: Items| 0nat));
        inventory
    }

    /// Number of items of the kind.
    pub fn count(&self, item: Items) -> (count: u32)
        ensures
            count == self@[item],
    {
        match item {
            Items::SpeedBoost => self.speed_boosts,
            Items::DamageBoost => self.damage_boosts,
            Items::HealthBoost => self.health_boosts,
        }
    }

    /// Puts one item of the kind into the inventory.
    pub fn add(&mut self, item: Items)
        requires
            old(self).has_room_for(item),
        ensures
            *final(self) == old(self).with_one_more(item),
            final(self)@ == old(self).added(item),
    {
        match item {
            Items::SpeedBoost => self.speed_boosts = self.speed_boosts + 1,
            Items::DamageBoost => self.damage_boosts = self.damage_boosts + 1,
            Items::HealthBoost => self.health_boosts = self.health_boosts + 1,
        }
        assert(self@ =~= old(self).added(item));
    }
}

} // verus!
