//! A player's health and modifiers, and death.

use crate::entity::EntityId;
use crate::player::weapon::GunEntity;
use vstd::prelude::*;

verus! {

/// Health, speed and damage modifiers of one player. Amounts are in
/// thousandths: a health of 100 is written 100_000.
#[derive(Clone, Copy, Debug, PartialEq, Eq, Structural, Hash)]
pub struct PlayerStats {
    pub speed: u32,
    pub current_health: u32,
    pub max_health: u32,
    pub damages_multiplier: u32,
    pub damages_added: i32,
    /// Time that a roll lasts, in nanoseconds.
    pub roll_duration: u64,
    pub roll_speed: u32,
}

impl PlayerStats {
    /// The stats that every player starts with.
    pub open spec fn spec_default() -> PlayerStats {
        PlayerStats {
            speed: 50_000,
            current_health: 100_000,
            max_health: 100_000,
            damages_multiplier: 1_000,
            damages_added: 0,
            roll_duration: 500_000_000,
            roll_speed: 75_000,
        }
    }

    /// Health is no more than its maximum.
    pub open spec fn well_formed(self) -> bool {
        self.current_health <= self.max_health
    }

    /// Health that the player lacks to be at its maximum.
    pub open spec fn missing_health(self) -> int {
        if self.current_health <= self.max_health {
            self.max_health - self.current_health
        } else {
            0
        }
    }

    /// The starting stats, less the health that the player lacks now; health
    /// does not go below zero.
    pub open spec fn spec_reset_without_health(self) -> PlayerStats {
        let fresh = PlayerStats::spec_default();
        PlayerStats {
            current_health: if self.missing_health() <= fresh.current_health {
                (fresh.current_health - self.missing_health()) as u32
            } else {
                0
            },
            ..fresh
        }
    }

    /// The player has no health left.
    pub open spec fn spec_is_dead(self) -> bool {
        self.current_health == 0
    }

    /// The stats that every player starts with.
    pub fn default() -> (stats: PlayerStats)
        ensures
            stats == PlayerStats::spec_default(),
            stats.well_formed(),
    {
        PlayerStats {
            speed: 50_000,
            current_health: 100_000,
            max_health: 100_000,
            damages_multiplier: 1_000,
            damages_added: 0,
            roll_duration: 500_000_000,
            roll_speed: 75_000,
        }
    }

    /// Puts every stat back to its starting value but keeps the wounds: the
    /// player lacks as much health afterwards as before.
    pub fn reset_without_health(&mut self)
        ensures
            *final(self) == old(self).spec_reset_without_health(),
            final(self).well_formed(),
    {
        let remove = if self.current_health <= self.max_health {
            self.max_health - self.current_health
        } else {
            0
        };
        *self = PlayerStats::default();
        self.current_health = if remove <= self.current_health {
            self.current_health - remove
        } else {
            0
        };
    }

    /// The player has no health left.
    #[verifier::when_used_as_spec(spec_is_dead)]
    pub fn is_dead(self) -> (dead: bool)
        ensures
            dead == self.spec_is_dead(),
    {
        self.current_health == 0
    }
}

/// What leaves the world when the dead are taken out of `players`: each dead
/// player followed by the weapon it held, in the order of the players.
pub open spec fn casualties(players: Seq<(EntityId, GunEntity, PlayerStats)>) -> Seq<EntityId>
    decreases players.len(),
{
    if players.len() == 0 {
        Seq::empty()
    } else {
        let (entity, gun, stats) = players.last();
        let rest = casualties(players.drop_last());
        if stats.spec_is_dead() {
            rest.push(entity).push(gun.0)
        } else {
            rest
        }
    }
}

/// Finds the players that have died. Returns what is to be taken out of the
/// world: each dead player and, with it, the weapon it held.
pub fn player_death(players: &Vec<(EntityId, GunEntity, PlayerStats)>) -> (gone: Vec<EntityId>)
    ensures
        gone@ == casualties(players@),
{
    let mut gone: Vec<EntityId> = Vec::new();
    let mut i: usize = 0;
    while i < players.len()
        invariant
            i <= players.len(),
            gone@ == casualties(players@.take(i as int)),
        decreases players.len() - i,
    {
        let (entity, gun, stats) = players[i];
        proof {
            assert(players@.take(i + 1).drop_last() == players@.take(i as int));
        }
        if stats.is_dead() {
            gone.push(entity);
            gone.push(gun.0);
        }
        i += 1;
    }
    proof {
        assert(players@.take(players.len() as int) == players@);
    }
    gone
}

/// A weapon leaves the world with the player that held it, and only then:
/// `entity` is among the casualties exactly when a dead player has that name
/// or holds a weapon of that name.
pub proof fn lemma_casualties(players: Seq<(EntityId, GunEntity, PlayerStats)>, entity: EntityId)
    ensures
        casualties(players).contains(entity) <==> exists|i: int|
            0 <= i < players.len() && (#[trigger] players[i]).2.spec_is_dead() && (players[i].0
                == entity || players[i].1.0 == entity),
    decreases players.len(),
{
    if players.len() > 0 {
        let rest = players.drop_last();
        let (e, g, stats) = players.last();
        lemma_casualties(rest, entity);
        let found = casualties(players);
        if casualties(players).contains(entity) {
            let k = choose|k: int| 0 <= k < found.len() && found[k] == entity;
            if stats.spec_is_dead() && k >= casualties(rest).len() {
                assert(players[players.len() - 1] == players.last());
            } else {
                assert(casualties(rest)[k] == entity);
                assert(casualties(rest).contains(entity));
                let i = choose|i: int|
                    0 <= i < rest.len() && (#[trigger] rest[i]).2.spec_is_dead() && (rest[i].0
                        == entity || rest[i].1.0 == entity);
                assert(players[i] == rest[i]);
            }
        }
        if exists|i: int|
            0 <= i < players.len() && (#[trigger] players[i]).2.spec_is_dead() && (players[i].0
                == entity || players[i].1.0 == entity) {
            let i = choose|i: int|
                0 <= i < players.len() && (#[trigger] players[i]).2.spec_is_dead() && (players[i].0
                    == entity || players[i].1.0 == entity);
            if i < rest.len() {
                assert(rest[i] == players[i]);
                assert(casualties(rest).contains(entity));
                let k = choose|k: int|
                    0 <= k < casualties(rest).len() && casualties(rest)[k] == entity;
                assert(found[k] == entity);
            } else {
                let n = casualties(rest).len() as int;
                assert(found[n] == e);
                assert(found[n + 1] == g.0);
            }
        }
    }
}

} // verus!
