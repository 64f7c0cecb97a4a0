//! The kinds of item.

use vstd::prelude::*;

verus! {

/// A kind of item that a player can pick up and carry.
#[derive(Clone, Copy, Debug, PartialEq, Eq, Structural, Hash)]
pub enum Items {
    SpeedBoost,
    DamageBoost,
    HealthBoost,
}

/// Number of kinds of item.
pub const ITEM_KINDS: usize = 3;

impl Items {
    /// The kind at position `i` in the order of declaration.
    pub open spec fn spec_at(i: int) -> Items {
        if i == 0 {
            Items::SpeedBoost
        } else if i == 1 {
            Items::DamageBoost
        } else {
            Items::HealthBoost
        }
    }

    /// The kind at position `i` in the order of declaration.
    pub fn at(i: usize) -> (item: Items)
        requires
            i < ITEM_KINDS,
        ensures
            item == Items::spec_at(i as int),
    {
        if i == 0 {
            Items::SpeedBoost
        } else if i == 1 {
            Items::DamageBoost
        } else {
            Items::HealthBoost
        }
    }

    /// Every kind, in the order of declaration.
    pub fn iter() -> (all: Vec<Items>)
        ensures
            all@.len() == ITEM_KINDS,
            forall|i: int| 0 <= i < ITEM_KINDS ==> all@[i] == Items::spec_at(i),
            forall|item: Items| all@.contains(item),
    {
        let mut all: Vec<Items> = Vec::new();
        all.push(Items::SpeedBoost);
        all.push(Items::DamageBoost);
        all.push(Items::HealthBoost);
        proof {
            assert forall|item: Items| all@.contains(item) by {
                match item {
                    Items::SpeedBoost => assert(all@[0] == item),
                    Items::DamageBoost => assert(all@[1] == item),
                    Items::HealthBoost => assert(all@[2] == item),
                }
            }
        }
        all
    }

    /// The name that a pickup of this kind carries.
    pub open spec fn spec_name(self) -> Seq<char> {
        match self {
            Items::SpeedBoost => "SpeedBoost"@,
            Items::DamageBoost => "DamageBoost"@,
            Items::HealthBoost => "HealthBoost"@,
        }
    }

    /// The name that a pickup of this kind carries.
    pub fn name(self) -> (name: String)
        ensures
            name@ == self.spec_name(),
    {
        match self {
            Items::SpeedBoost => "SpeedBoost".to_owned(),
            Items::DamageBoost => "DamageBoost".to_owned(),
            Items::HealthBoost => "HealthBoost".to_owned(),
        }
    }
}

} // verus!
