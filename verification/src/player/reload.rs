//! The timed reload of a weapon.

use crate::player::input::{ActionState, PlayerActions};
use crate::player::inventory::weapon_manager::Guns;
use crate::player::roll::RollStats;
use crate::player::weapon::{GunEntity, GunStats, GunStatsView};
use crate::timing::{stopwatch_new, stopwatch_tick};
use vstd::prelude::*;

verus! {

/// Held by a player for as long as a reload runs, and by no player twice.
#[derive(Clone, Copy, Debug, PartialEq, Eq, Structural, Hash)]
pub struct ReloadStats {
    /// Time since the reload began, in nanoseconds.
    pub since: u64,
    /// The weapon that is being reloaded.
    pub gun: GunEntity,
}

impl ReloadStats {
    /// A reload of `entity` that begins now.
    pub fn new(entity: GunEntity) -> (reload: ReloadStats)
        ensures
            reload == (ReloadStats { since: 0, gun: entity }),
    {
        ReloadStats { since: stopwatch_new(), gun: entity }
    }
}

/// The player asks for a reload and the weapon can take one: the reload
/// button is down, or the trigger was pulled on this tick on an empty
/// magazine; and the magazine is not full; and the reserve holds a round or
/// never runs out.
pub open spec fn reload_wanted(actions: ActionState, gun: GunStatsView) -> bool {
    &&& actions.spec_pressed(PlayerActions::Reload) || (actions.spec_just_pressed(
        PlayerActions::Shoot,
    ) && gun.mag_ammo == 0)
    &&& gun.can_reload()
}

/// What a player holds after the reload rule has looked at the input: a
/// running reload goes on as it is; a player whose weapon is gone gets none;
/// else a reload begins exactly when it is wanted.
pub open spec fn reload_started(
    reloading: Option<ReloadStats>,
    gun_entity: GunEntity,
    gunstats: Option<GunStatsView>,
    actions: ActionState,
) -> Option<ReloadStats> {
    if reloading is Some {
        reloading
    } else if gunstats matches Some(gun) && reload_wanted(actions, gun) {
        Some(ReloadStats { since: 0, gun: gun_entity })
    } else {
        None
    }
}

/// Begins a reload for one player where the input and the weapon call for
/// it. `reloading` is what the player holds now, `gunstats` the weapon that
/// `gun_entity` names, or `None` where it is gone.
pub fn start_reload(
    reloading: Option<ReloadStats>,
    gun_entity: &GunEntity,
    gunstats: Option<&GunStats>,
    actions: &ActionState,
) -> (after: Option<ReloadStats>)
    ensures
        after == reload_started(
            reloading,
            *gun_entity,
            match gunstats {
                Some(gun) => Some(gun@),
                None => None,
            },
            *actions,
        ),
{
    if reloading.is_some() {
        return reloading;
    }
    match gunstats {
        None => None,
        Some(gun) => {
            let asked = actions.pressed(PlayerActions::Reload) || (actions.just_pressed(
                PlayerActions::Shoot,
            ) && gun.mag_ammo() == 0);
            if asked && gun.can_reload() {
                Some(ReloadStats::new(*gun_entity))
            } else {
                None
            }
        },
    }
}

/// Without a round in a reserve that can run out, no input begins a reload.
pub proof fn lemma_no_reload_without_reserve(
    gun_entity: GunEntity,
    gun: GunStatsView,
    actions: ActionState,
)
    requires
        gun.ammo == 0,
        !gun.infinite,
    ensures
        reload_started(None, gun_entity, Some(gun), actions) is None,
{
}

/// A player never holds two reloads: one that runs is kept as it is,
/// whatever the input.
pub proof fn lemma_one_reload_at_a_time(
    reload: ReloadStats,
    gun_entity: GunEntity,
    gunstats: Option<GunStatsView>,
    actions: ActionState,
)
    ensures
        reload_started(Some(reload), gun_entity, gunstats, actions) == Some(reload),
{
}

/// The time on a reload's stopwatch after `delta` more nanoseconds; the
/// count stops at the largest number it can hold.
pub open spec fn since_after(since: u64, delta: u64) -> u64 {
    if since + delta > u64::MAX {
        u64::MAX
    } else {
        (since + delta) as u64
    }
}

/// One step of a reload that fills the whole magazine at once: the time
/// runs; when it reaches the weapon's reload time the magazine is refilled
/// and the reload is over.
pub open spec fn magazine_reloaded(gun: GunStatsView, reload: ReloadStats, delta: u64) -> (
    GunStatsView,
    Option<ReloadStats>,
) {
    let since = since_after(reload.since, delta);
    if since >= gun.reload_time {
        (gun.refilled(), None)
    } else {
        (gun, Some(ReloadStats { since, ..reload }))
    }
}

/// One step of the reload of a weapon, by its kind. A revolver reloads
/// whether or not its holder rolls. A sniper rifle cannot be reloaded during
/// a roll: the reload waits, with its time standing still.
pub open spec fn reloaded(gun: GunStatsView, reload: ReloadStats, delta: u64, rolling: bool) -> (
    GunStatsView,
    Option<ReloadStats>,
) {
    match gun.kind {
        Guns::Revolver => magazine_reloaded(gun, reload, delta),
        Guns::Sniper => if rolling {
            (gun, Some(reload))
        } else {
            magazine_reloaded(gun, reload, delta)
        },
    }
}

fn reload_magazine(delta: u64, gunstats: &mut GunStats, reload: ReloadStats) -> (after: Option<
    ReloadStats,
>)
    ensures
        (final(gunstats)@, after) == magazine_reloaded(old(gunstats)@, reload, delta),
        final(gunstats)@.well_formed(),
{
    let ticked = stopwatch_tick(reload.since, delta);
    let since: u64 = if ticked > u64::MAX as u128 {
        u64::MAX
    } else {
        ticked as u64
    };
    if since >= gunstats.reload_time() {
        gunstats.refill();
        None
    } else {
        proof {
            use_type_invariant(&*gunstats);
        }
        Some(ReloadStats { since, gun: reload.gun })
    }
}

fn reload_revolver(
    delta: u64,
    gunstats: &mut GunStats,
    reload: ReloadStats,
    roll: Option<&RollStats>,
) -> (after: Option<ReloadStats>)
    requires
        old(gunstats)@.kind == Guns::Revolver,
    ensures
        (final(gunstats)@, after) == reloaded(old(gunstats)@, reload, delta, roll is Some),
        final(gunstats)@.well_formed(),
{
    reload_magazine(delta, gunstats, reload)
}

fn reload_sniper(
    delta: u64,
    gunstats: &mut GunStats,
    reload: ReloadStats,
    roll: Option<&RollStats>,
) -> (after: Option<ReloadStats>)
    requires
        old(gunstats)@.kind == Guns::Sniper,
    ensures
        (final(gunstats)@, after) == reloaded(old(gunstats)@, reload, delta, roll is Some),
        final(gunstats)@.well_formed(),
{
    if roll.is_some() {
        proof {
            use_type_invariant(&*gunstats);
        }
        Some(reload)
    } else {
        reload_magazine(delta, gunstats, reload)
    }
}

/// Runs the reload `running` of one player's weapon for `delta` nanoseconds,
/// the way the weapon's kind reloads. `gunstats` is the weapon that the
/// player holds, or `None` where it is gone: then there is nothing to
/// reload, and the reload is given up. `roll` is the player's roll, if one is
/// under way; it is handed to every kind. Returns what the player holds
/// afterwards: `None` once the reload is over or given up.
pub fn reload(
    delta: u64,
    gunstats: Option<&mut GunStats>,
    running: ReloadStats,
    roll: Option<&RollStats>,
) -> (after: Option<ReloadStats>)
    ensures
        match gunstats {
            Some(gun) => (final(gun)@, after) == reloaded(gun@, running, delta, roll is Some)
                && final(gun)@.well_formed(),
            None => after is None,
        },
{
    match gunstats {
        None => None,
        Some(gun) => match gun.kind() {
            Guns::Revolver => reload_revolver(delta, gun, running, roll),
            Guns::Sniper => reload_sniper(delta, gun, running, roll),
        },
    }
}

/// A step of a reload keeps the magazine within its size, never takes rounds
/// out of it, never adds rounds to the reserve, takes from the reserve what
/// it puts into the magazine, and takes nothing from a reserve that never
/// runs out.
pub proof fn lemma_reload_keeps_ammo_in_bounds(
    gun: GunStatsView,
    reload: ReloadStats,
    delta: u64,
    rolling: bool,
)
    requires
        gun.well_formed(),
    ensures
        reloaded(gun, reload, delta, rolling).0.well_formed(),
        reloaded(gun, reload, delta, rolling).0.mag_ammo >= gun.mag_ammo,
        reloaded(gun, reload, delta, rolling).0.ammo <= gun.ammo,
        !gun.infinite ==> reloaded(gun, reload, delta, rolling).0.mag_ammo + reloaded(
            gun,
            reload,
            delta,
            rolling,
        ).0.ammo == gun.mag_ammo + gun.ammo,
        gun.infinite ==> reloaded(gun, reload, delta, rolling).0.ammo == gun.ammo,
{
}

/// A reload of a weapon whose holder does not roll is over, with the
/// magazine refilled, as soon as the time on it reaches the weapon's reload
/// time; until then the weapon is as it was.
pub proof fn lemma_reload_completes(gun: GunStatsView, reload: ReloadStats, delta: u64)
    ensures
        reload.since + delta >= gun.reload_time ==> reloaded(gun, reload, delta, false) == (
            gun.refilled(),
            None::<ReloadStats>,
        ),
        reload.since + delta < gun.reload_time ==> reloaded(gun, reload, delta, false) == (
            gun,
            Some(ReloadStats { since: (reload.since + delta) as u64, gun: reload.gun }),
        ),
{
}

} // verus!
