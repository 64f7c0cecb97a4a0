//! A weapon's ammunition, and the shot.

use crate::entity::EntityId;
use crate::player::inventory::weapon_manager::Guns;
use crate::player::reload::ReloadStats;
use vstd::prelude::*;

verus! {

/// The weapon that a player holds.
#[derive(Clone, Copy, Debug, PartialEq, Eq, Structural, Hash)]
pub struct GunEntity(pub EntityId);

/// Ammunition of one weapon: the magazine never holds more than its size.
#[derive(Clone, Copy, Debug, PartialEq, Eq, Structural, Hash)]
pub struct GunStats {
    kind: Guns,
    mag_ammo: u32,
    mag_size: u32,
    ammo: u32,
    infinite: bool,
    reload_time: u64,
}

/// What a `GunStats` holds.
pub struct GunStatsView {
    pub kind: Guns,
    /// Rounds in the magazine.
    pub mag_ammo: u32,
    /// Rounds that the magazine takes.
    pub mag_size: u32,
    /// Rounds in reserve.
    pub ammo: u32,
    /// The reserve never runs out.
    pub infinite: bool,
    /// Time that a reload takes, in nanoseconds.
    pub reload_time: u64,
}

impl GunStatsView {
    /// The magazine holds no more than its size.
    pub open spec fn well_formed(self) -> bool {
        self.mag_ammo <= self.mag_size
    }

    /// A reload would put at least one round into the magazine.
    pub open spec fn can_reload(self) -> bool {
        self.mag_ammo < self.mag_size && (self.ammo > 0 || self.infinite)
    }

    /// Rounds that a reload moves into the magazine: what the magazine
    /// lacks, as far as the reserve goes.
    pub open spec fn refill(self) -> int {
        let missing = if self.mag_ammo <= self.mag_size {
            self.mag_size - self.mag_ammo
        } else {
            0
        };
        if self.infinite || missing <= self.ammo {
            missing
        } else {
            self.ammo as int
        }
    }

    /// The weapon after a reload: the magazine gains `refill` rounds, and a
    /// reserve that can run out loses as many.
    pub open spec fn refilled(self) -> GunStatsView {
        GunStatsView {
            mag_ammo: (self.mag_ammo + self.refill()) as u32,
            ammo: if self.infinite {
                self.ammo
            } else {
                (self.ammo - self.refill()) as u32
            },
            ..self
        }
    }

    /// The weapon after a shot: the magazine loses what a shot of this kind
    /// costs, or all it has where that is less.
    pub open spec fn fired(self) -> GunStatsView {
        GunStatsView {
            mag_ammo: if self.mag_ammo >= self.kind.spec_shot_cost() {
                (self.mag_ammo - self.kind.spec_shot_cost()) as u32
            } else {
                0
            },
            ..self
        }
    }
}

impl View for GunStats {
    type V = GunStatsView;

    closed spec fn view(&self) -> GunStatsView {
        GunStatsView {
            kind: self.kind,
            mag_ammo: self.mag_ammo,
            mag_size: self.mag_size,
            ammo: self.ammo,
            infinite: self.infinite,
            reload_time: self.reload_time,
        }
    }
}

impl GunStats {
    #[verifier::type_invariant]
    pub open spec fn inv(self) -> bool {
        self@.well_formed()
    }

    /// A weapon of the given kind and ammunition, unless the magazine would
    /// hold more than its size.
    pub fn new(
        kind: Guns,
        mag_ammo: u32,
        mag_size: u32,
        ammo: u32,
        infinite: bool,
        reload_time: u64,
    ) -> (gun: Option<GunStats>)
        ensures
            gun is Some <==> mag_ammo <= mag_size,
            gun matches Some(g) ==> g@ == (GunStatsView {
                kind,
                mag_ammo,
                mag_size,
                ammo,
                infinite,
                reload_time,
            }),
    {
        if mag_ammo <= mag_size {
            Some(GunStats { kind, mag_ammo, mag_size, ammo, infinite, reload_time })
        } else {
            None
        }
    }

    pub fn kind(&self) -> (kind: Guns)
        ensures
            kind == self@.kind,
    {
        self.kind
    }

    /// Rounds in the magazine.
    pub fn mag_ammo(&self) -> (rounds: u32)
        ensures
            rounds == self@.mag_ammo,
            rounds <= self@.mag_size,
    {
        proof {
            use_type_invariant(self);
        }
        self.mag_ammo
    }

    /// Rounds that the magazine takes.
    pub fn mag_size(&self) -> (rounds: u32)
        ensures
            rounds == self@.mag_size,
            self@.mag_ammo <= rounds,
    {
        proof {
            use_type_invariant(self);
        }
        self.mag_size
    }

    /// Rounds in reserve.
    pub fn ammo(&self) -> (rounds: u32)
        ensures
            rounds == self@.ammo,
    {
        self.ammo
    }

    /// The reserve never runs out.
    pub fn infinite(&self) -> (infinite: bool)
        ensures
            infinite == self@.infinite,
    {
        self.infinite
    }

    /// Time that a reload takes, in nanoseconds.
    pub fn reload_time(&self) -> (nanos: u64)
        ensures
            nanos == self@.reload_time,
    {
        self.reload_time
    }

    /// A reload would put at least one round into the magazine.
    pub fn can_reload(&self) -> (possible: bool)
        ensures
            possible == self@.can_reload(),
            self@.well_formed(),
    {
        proof {
            use_type_invariant(self);
        }
        self.mag_ammo < self.mag_size && (self.ammo > 0 || self.infinite)
    }

    /// Fills the magazine from the reserve, as far as the reserve goes.
    pub fn refill(&mut self)
        ensures
            final(self)@ == old(self)@.refilled(),
            old(self)@.well_formed(),
            final(self)@.well_formed(),
    {
        proof {
            use_type_invariant(&*self);
        }
        let missing = self.mag_size - self.mag_ammo;
        let moved = if self.infinite || missing <= self.ammo {
            missing
        } else {
            self.ammo
        };
        let ammo = if self.infinite {
            self.ammo
        } else {
            self.ammo - moved
        };
        *self = GunStats {
            kind: self.kind,
            mag_ammo: self.mag_ammo + moved,
            mag_size: self.mag_size,
            ammo,
            infinite: self.infinite,
            reload_time: self.reload_time,
        };
    }
}

/// What is spawned for a weapon.
#[derive(Clone, Copy, Debug, PartialEq, Eq, Structural, Hash)]
pub struct GunBundle {
    pub stats: GunStats,
}

/// Pulls the trigger of a player's weapon; `reloading` is the reload that
/// the player holds, if one runs. The weapon fires if no reload runs and the
/// magazine holds a round. A weapon that is being reloaded is left
/// untouched.
pub fn shoot(gunstats: &mut GunStats, reloading: &Option<ReloadStats>) -> (fired: bool)
    ensures
        fired == can_fire(old(gunstats)@, *reloading),
        final(gunstats)@ == after_shot(old(gunstats)@, *reloading),
        reloading is Some ==> final(gunstats)@ == old(gunstats)@,
        final(gunstats)@.well_formed(),
{
    proof {
        use_type_invariant(&*gunstats);
    }
    if reloading.is_some() || gunstats.mag_ammo == 0 {
        false
    } else {
        let cost = gunstats.kind.shot_cost();
        let rounds = if gunstats.mag_ammo >= cost {
            gunstats.mag_ammo - cost
        } else {
            0
        };
        gunstats.mag_ammo = rounds;
        true
    }
}

/// The weapon may fire: no reload runs and the magazine holds a round.
pub open spec fn can_fire(gun: GunStatsView, reloading: Option<ReloadStats>) -> bool {
    reloading is None && gun.mag_ammo > 0
}

/// The weapon after the trigger is pulled.
pub open spec fn after_shot(gun: GunStatsView, reloading: Option<ReloadStats>) -> GunStatsView {
    if can_fire(gun, reloading) {
        gun.fired()
    } else {
        gun
    }
}

/// For as long as a player holds a reload, pulling the trigger changes
/// nothing on the weapon: the rounds in the magazine are the reload's alone
/// to change.
pub proof fn lemma_no_shot_while_reloading(gun: GunStatsView, reload: ReloadStats)
    ensures
        !can_fire(gun, Some(reload)),
        after_shot(gun, Some(reload)) == gun,
{
}

/// Neither a shot nor a refill can put more rounds into the magazine than it
/// takes. A shot only takes rounds from the magazine and leaves the reserve
/// alone. A refill only adds rounds to the magazine, takes no more from the
/// reserve than it holds, and takes nothing from a reserve that never runs
/// out.
pub proof fn lemma_ammo_stays_in_bounds(gun: GunStatsView, reloading: Option<ReloadStats>)
    requires
        gun.well_formed(),
    ensures
        after_shot(gun, reloading).well_formed(),
        after_shot(gun, reloading).mag_ammo <= gun.mag_ammo,
        after_shot(gun, reloading).ammo == gun.ammo,
        gun.refilled().well_formed(),
        gun.refilled().mag_ammo >= gun.mag_ammo,
        0 <= gun.refill() <= gun.mag_size - gun.mag_ammo,
        gun.refilled().mag_ammo == gun.mag_ammo + gun.refill(),
        !gun.infinite ==> gun.refill() <= gun.ammo && gun.refilled().ammo == gun.ammo
            - gun.refill(),
        gun.infinite ==> gun.refilled().ammo == gun.ammo,
{
}

} // verus!
