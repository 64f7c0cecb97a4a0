//! The kinds of weapon.

use crate::geometry::{floor_unit, Position};
use crate::player::inventory::pickup::{Pickup, PickupBundle, PickupType};
use crate::player::weapon::{GunBundle, GunStats, GunStatsView};
use vstd::prelude::*;

verus! {

/// A kind of weapon. The kind decides what a shot costs and how a reload
/// runs.
#[derive(Clone, Copy, Debug, PartialEq, Eq, Structural, Hash)]
pub enum Guns {
    Revolver,
    Sniper,
}

impl Guns {
    /// Rounds that one shot takes from the magazine.
    pub open spec fn spec_shot_cost(self) -> u32 {
        match self {
            Guns::Revolver => 1,
            Guns::Sniper => 1,
        }
    }

    /// Rounds that one shot takes from the magazine.
    #[verifier::when_used_as_spec(spec_shot_cost)]
    pub fn shot_cost(self) -> (cost: u32)
        ensures
            cost == self.spec_shot_cost(),
    {
        match self {
            Guns::Revolver => 1,
            Guns::Sniper => 1,
        }
    }

    /// The name that a weapon of this kind carries.
    pub open spec fn spec_name(self) -> Seq<char> {
        match self {
            Guns::Revolver => "Revolver"@,
            Guns::Sniper => "Sniper"@,
        }
    }

    /// A pickup of a weapon of this kind at `pos`, moved onto whole units.
    pub fn to_pickup(self, pos: Position) -> (bundle: PickupBundle)
        ensures
            bundle.name@ == self.spec_name(),
            bundle.position.spec_x() == floor_unit(pos.spec_x() as int),
            bundle.position.spec_y() == floor_unit(pos.spec_y() as int),
            bundle.zindex == 0,
            bundle.pickup == (Pickup { pickup_type: PickupType::Weapon, highlighted: false }),
    {
        let name = match self {
            Guns::Revolver => "Revolver".to_owned(),
            Guns::Sniper => "Sniper".to_owned(),
        };
        PickupBundle {
            name,
            position: pos.floor(),
            zindex: 0,
            pickup: Pickup { pickup_type: PickupType::Weapon, highlighted: false },
        }
    }

    /// A weapon of this kind with a full magazine of `mag_size` rounds,
    /// `ammo` rounds in reserve and a reload that takes `reload_time`
    /// nanoseconds. The kind stays with the weapon and decides how it fires
    /// and reloads.
    pub fn to_gun_bundle(&self, mag_size: u32, ammo: u32, infinite: bool, reload_time: u64) -> (bundle:
        GunBundle)
        ensures
            bundle.stats@ == (GunStatsView {
                kind: *self,
                mag_ammo: mag_size,
                mag_size,
                ammo,
                infinite,
                reload_time,
            }),
            bundle.stats@.well_formed(),
    {
        let stats = GunStats::new(*self, mag_size, mag_size, ammo, infinite, reload_time).unwrap();
        GunBundle { stats }
    }
}

} // verus!
