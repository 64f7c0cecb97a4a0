//! Pickups: which one a player stands next to, and how it changes hands.

use crate::entity::EntityId;
use crate::geometry::{distance_squared, floor_unit, Position, UNIT};
use crate::player::input::{ActionState, PlayerActions};
use crate::player::inventory::inventory_manager::Inventory;
use crate::player::inventory::item_manager::{Items, ITEM_KINDS};
use crate::player::inventory::PickupEvent;
use vstd::prelude::*;

verus! {

/// A player reaches the pickups that are less than this far away, in
/// thousandths of a unit.
pub const PICKUP_RANGE: u32 = 37_500;

/// What a pickup gives.
#[derive(Clone, Copy, Debug, PartialEq, Eq, Structural, Hash)]
pub enum PickupType {
    /// A weapon. No rule says yet what picking one up does.
    Weapon,
    Item(Items),
}

/// Something that lies in the world to be picked up.
#[derive(Clone, Copy, Debug, PartialEq, Eq, Structural, Hash)]
pub struct Pickup {
    pub pickup_type: PickupType,
    /// A player stands next to it on this tick.
    pub highlighted: bool,
}

/// A pickup in the world.
#[derive(Clone, Copy, Debug, PartialEq, Eq, Structural, Hash)]
pub struct WorldPickup {
    pub entity: EntityId,
    pub position: Position,
    pub pickup: Pickup,
}

/// A player, as the pickup rules see it.
#[derive(Clone, Copy, Debug, PartialEq, Eq, Structural, Hash)]
pub struct Collector {
    pub entity: EntityId,
    pub position: Position,
    pub inventory: Inventory,
    pub actions: ActionState,
}

/// Why a tick of the pickup rules was refused.
#[derive(Clone, Copy, Debug, PartialEq, Eq, Structural, Hash)]
pub enum PickupError {
    /// A player tried to pick up a weapon, which no rule handles yet.
    WeaponPickup,
}

impl WorldPickup {
    /// The pickup with its highlight set to `highlighted`.
    pub open spec fn lit(self, highlighted: bool) -> WorldPickup {
        WorldPickup {
            pickup: Pickup { pickup_type: self.pickup.pickup_type, highlighted },
            ..self
        }
    }
}

/// The square of the distance from `position` to the pickup at `i`.
pub open spec fn gap(position: Position, pickups: Seq<WorldPickup>, i: int) -> int {
    distance_squared(position, pickups[i].position)
}

/// The pickup at `i` is the one that a player at `position` reaches: it is
/// less than `range` away, no pickup is nearer, and every pickup before it
/// in the sequence is farther.
pub open spec fn is_nearest(
    position: Position,
    pickups: Seq<WorldPickup>,
    range: u32,
    i: int,
) -> bool {
    &&& 0 <= i < pickups.len()
    &&& gap(position, pickups, i) < range * range
    &&& forall|j: int|
        0 <= j < pickups.len() ==> gap(position, pickups, i) <= #[trigger] gap(
            position,
            pickups,
            j,
        )
    &&& forall|j: int|
        0 <= j < i ==> gap(position, pickups, i) < #[trigger] gap(position, pickups, j)
}

/// No pickup is less than `range` away from `position`.
pub open spec fn none_in_range(position: Position, pickups: Seq<WorldPickup>, range: u32) -> bool {
    forall|j: int|
        0 <= j < pickups.len() ==> #[trigger] gap(position, pickups, j) >= range * range
}

/// The pickup that a player at `position` reaches, if there is one.
pub open spec fn nearest(position: Position, pickups: Seq<WorldPickup>, range: u32) -> Option<
    int,
> {
    if exists|i: int| is_nearest(position, pickups, range, i) {
        Some(choose|i: int| is_nearest(position, pickups, range, i))
    } else {
        None
    }
}

/// At most one pickup is the one that a player reaches.
pub proof fn lemma_nearest_is_unique(
    position: Position,
    pickups: Seq<WorldPickup>,
    range: u32,
    i: int,
    j: int,
)
    requires
        is_nearest(position, pickups, range, i),
        is_nearest(position, pickups, range, j),
    ensures
        i == j,
{
    if i < j {
        assert(gap(position, pickups, j) < gap(position, pickups, i));
        assert(gap(position, pickups, i) <= gap(position, pickups, j));
    } else if j < i {
        assert(gap(position, pickups, i) < gap(position, pickups, j));
        assert(gap(position, pickups, j) <= gap(position, pickups, i));
    }
}

/// `nearest` is the pickup that `is_nearest` describes, and there is none
/// exactly when no pickup is in range.
pub proof fn lemma_nearest(position: Position, pickups: Seq<WorldPickup>, range: u32)
    ensures
        match nearest(position, pickups, range) {
            Some(i) => is_nearest(position, pickups, range, i),
            None => none_in_range(position, pickups, range),
        },
        forall|i: int| #[trigger]
            is_nearest(position, pickups, range, i) ==> nearest(position, pickups, range) == Some(
                i,
            ),
{
    assert forall|i: int| #[trigger] is_nearest(position, pickups, range, i) implies nearest(
        position,
        pickups,
        range,
    ) == Some(i) by {
        let chosen = choose|k: int| is_nearest(position, pickups, range, k);
        lemma_nearest_is_unique(position, pickups, range, i, chosen);
    }
    if nearest(position, pickups, range) is None {
        lemma_some_in_range_has_nearest(position, pickups, range, pickups.len() as int);
        assert(pickups.take(pickups.len() as int) == pickups);
    }
}

/// Among the first `n` pickups, either none is in range or one of them is
/// the nearest of them, and the first such.
proof fn lemma_some_in_range_has_nearest(
    position: Position,
    pickups: Seq<WorldPickup>,
    range: u32,
    n: int,
)
    requires
        0 <= n <= pickups.len(),
    ensures
        none_in_range(position, pickups.take(n), range) || exists|i: int|
            is_nearest(position, pickups.take(n), range, i),
    decreases n,
{
    let head = pickups.take(n);
    if n > 0 {
        let before = pickups.take(n - 1);
        lemma_some_in_range_has_nearest(position, pickups, range, n - 1);
        assert forall|j: int| 0 <= j < n - 1 implies gap(position, before, j) == gap(
            position,
            head,
            j,
        ) by {}
        let last = gap(position, head, n - 1);
        if none_in_range(position, before, range) {
            if last < range * range {
                assert forall|j: int| 0 <= j < n implies last <= #[trigger] gap(
                    position,
                    head,
                    j,
                ) by {
                    if j < n - 1 {
                        assert(gap(position, before, j) >= range * range);
                    }
                }
                assert forall|j: int| 0 <= j < n - 1 implies last < #[trigger] gap(
                    position,
                    head,
                    j,
                ) by {
                    assert(gap(position, before, j) >= range * range);
                }
                assert(is_nearest(position, head, range, n - 1));
            } else {
                assert forall|j: int| 0 <= j < n implies #[trigger] gap(position, head, j)
                    >= range * range by {
                    if j < n - 1 {
                        assert(gap(position, before, j) >= range * range);
                    }
                }
            }
        } else {
            let b = choose|i: int| is_nearest(position, before, range, i);
            if last < gap(position, before, b) {
                assert forall|j: int| 0 <= j < n implies last <= #[trigger] gap(
                    position,
                    head,
                    j,
                ) by {
                    if j < n - 1 {
                        assert(gap(position, before, b) <= gap(position, before, j));
                    }
                }
                assert forall|j: int| 0 <= j < n - 1 implies last < #[trigger] gap(
                    position,
                    head,
                    j,
                ) by {
                    assert(gap(position, before, b) <= gap(position, before, j));
                }
                assert(is_nearest(position, head, range, n - 1));
            } else {
                assert forall|j: int| 0 <= j < n implies gap(position, head, b) <= #[trigger] gap(
                    position,
                    head,
                    j,
                ) by {
                    if j < n - 1 {
                        assert(gap(position, before, b) <= gap(position, before, j));
                    }
                }
                assert forall|j: int| 0 <= j < b implies gap(position, head, b) < #[trigger] gap(
                    position,
                    head,
                    j,
                ) by {
                    assert(gap(position, before, b) < gap(position, before, j));
                }
                assert(is_nearest(position, head, range, b));
            }
        }
    } else {
        assert(none_in_range(position, head, range));
    }
}

/// Finds the pickup that a player at `position` reaches: the nearest one
/// that is less than `range` away, and of several equally near the first.
pub fn nearest_pickup(position: Position, pickups: &Vec<WorldPickup>, range: u32) -> (found:
    Option<usize>)
    ensures
        match found {
            Some(i) => nearest(position, pickups@, range) == Some(i as int) && is_nearest(
                position,
                pickups@,
                range,
                i as int,
            ),
            None => nearest(position, pickups@, range) is None && none_in_range(
                position,
                pickups@,
                range,
            ),
        },
{
    let reach: u64 = range as u64;
    assert(reach * reach <= 0xffff_ffff * 0xffff_ffff) by (nonlinear_arith)
        requires
            0 <= reach <= 0xffff_ffff,
    ;
    let limit: u64 = reach * reach;
    let mut best: Option<usize> = None;
    let mut best_gap: u64 = 0;
    let mut i: usize = 0;
    while i < pickups.len()
        invariant
            i <= pickups.len(),
            limit == range * range,
            match best {
                None => forall|j: int| 0 <= j < i ==> #[trigger] gap(position, pickups@, j) >= limit,
                Some(b) => {
                    &&& b < i
                    &&& best_gap == gap(position, pickups@, b as int)
                    &&& best_gap < limit
                    &&& forall|j: int|
                        0 <= j < i ==> best_gap <= #[trigger] gap(position, pickups@, j)
                    &&& forall|j: int|
                        0 <= j < b ==> best_gap < #[trigger] gap(position, pickups@, j)
                },
            },
        decreases pickups.len() - i,
    {
        let here = position.distance_squared(pickups[i].position);
        assert(here == gap(position, pickups@, i as int));
        if here < limit && (best.is_none() || here < best_gap) {
            best = Some(i);
            best_gap = here;
        }
        i += 1;
    }
    proof {
        lemma_nearest(position, pickups@, range);
        if let Some(b) = best {
            assert(is_nearest(position, pickups@, range, b as int));
        } else {
            assert(none_in_range(position, pickups@, range));
            if let Some(k) = nearest(position, pickups@, range) {
                assert(gap(position, pickups@, k) >= limit);
            }
        }
    }
    best
}

/// What one player's turn at the pickups leads to.
pub struct Collected {
    /// The pickups in the world afterwards.
    pub pickups: Seq<WorldPickup>,
    /// The player afterwards.
    pub player: Collector,
    /// What the rest of the game is told.
    pub event: Option<PickupEvent>,
    /// Why the turn was refused, if it was.
    pub error: Option<PickupError>,
}

/// One player's turn at the pickups. With no pickup in reach nothing
/// happens. Else the pickup in reach is highlighted; and if the player
/// pressed the pickup button on this tick, an item changes hands in one
/// step: it leaves the world, the player's inventory counts one more of its
/// kind, and the rest of the game is told. A weapon cannot change hands: the
/// turn is refused and nothing changes.
pub open spec fn collected(pickups: Seq<WorldPickup>, player: Collector) -> Collected {
    match nearest(player.position, pickups, PICKUP_RANGE) {
        None => Collected { pickups, player, event: None, error: None },
        Some(i) => if !player.actions.spec_just_pressed(PlayerActions::Pickup) {
            Collected {
                pickups: pickups.update(i, pickups[i].lit(true)),
                player,
                event: None,
                error: None,
            }
        } else {
            match pickups[i].pickup.pickup_type {
                PickupType::Weapon => Collected {
                    pickups,
                    player,
                    event: None,
                    error: Some(PickupError::WeaponPickup),
                },
                PickupType::Item(item) => Collected {
                    pickups: pickups.remove(i),
                    player: Collector { inventory: player.inventory.with_one_more(item), ..player },
                    event: Some(PickupEvent(item, player.entity)),
                    error: None,
                },
            }
        },
    }
}

/// Gives one player its turn at the pickups: highlights the pickup in reach
/// and, if the player pressed the pickup button on this tick, moves it into
/// the player's inventory and returns the event to send. Returns an error,
/// and changes nothing, where the pickup is a weapon.
pub fn collect_nearest(pickups: &mut Vec<WorldPickup>, player: &mut Collector) -> (result: Result<
    Option<PickupEvent>,
    PickupError,
>)
    requires
        old(player).inventory.has_room(),
    ensures
        final(pickups)@ == collected(old(pickups)@, *old(player)).pickups,
        *final(player) == collected(old(pickups)@, *old(player)).player,
        match result {
            Ok(event) => event == collected(old(pickups)@, *old(player)).event && collected(
                old(pickups)@,
                *old(player),
            ).error is None,
            Err(error) => collected(old(pickups)@, *old(player)).error == Some(error),
        },
{
    match nearest_pickup(player.position, pickups, PICKUP_RANGE) {
        None => Ok(None),
        Some(i) => {
            let found = pickups[i];
            if !player.actions.just_pressed(PlayerActions::Pickup) {
                pickups.set(
                    i,
                    WorldPickup {
                        entity: found.entity,
                        position: found.position,
                        pickup: Pickup { pickup_type: found.pickup.pickup_type, highlighted: true },
                    },
                );
                Ok(None)
            } else {
                match found.pickup.pickup_type {
                    PickupType::Weapon => Err(PickupError::WeaponPickup),
                    PickupType::Item(item) => {
                        assert(player.inventory.has_room_for(item));
                        let mut inventory = player.inventory;
                        inventory.add(item);
                        player.inventory = inventory;
                        pickups.remove(i);
                        Ok(Some(PickupEvent(item, player.entity)))
                    },
                }
            }
        },
    }
}

/// The pickups with every highlight off.
pub open spec fn unlit(pickups: Seq<WorldPickup>) -> Seq<WorldPickup> {
    pickups.map_values(|pickup: WorldPickup| pickup.lit(false))
}

/// Where a tick of the pickup rules stands.
pub struct PickupTick {
    pub pickups: Seq<WorldPickup>,
    pub players: Seq<Collector>,
    /// What the rest of the game is told, in the order of the players.
    pub events: Seq<PickupEvent>,
    /// Why the tick was refused, if it was.
    pub error: Option<PickupError>,
}

/// A tick of the pickup rules after the first `turns` players have had their
/// turn: every highlight goes off, then the players take their turns one
/// after the other, in the order of the sequence, each on the pickups that
/// the players before it have left. A turn that is refused ends the tick.
pub open spec fn pickup_tick(pickups: Seq<WorldPickup>, players: Seq<Collector>, turns: nat) -> PickupTick
    decreases turns,
{
    if turns == 0 {
        PickupTick { pickups: unlit(pickups), players, events: Seq::empty(), error: None }
    } else {
        let before = pickup_tick(pickups, players, (turns - 1) as nat);
        if before.error is Some {
            before
        } else {
            let turn = collected(before.pickups, before.players[turns - 1]);
            PickupTick {
                pickups: turn.pickups,
                players: before.players.update(turns - 1, turn.player),
                events: match turn.event {
                    Some(event) => before.events.push(event),
                    None => before.events,
                },
                error: turn.error,
            }
        }
    }
}

/// The players that have not had their turn yet are as they were.
proof fn lemma_later_players_wait(pickups: Seq<WorldPickup>, players: Seq<Collector>, turns: nat)
    requires
        turns <= players.len(),
    ensures
        pickup_tick(pickups, players, turns).players.len() == players.len(),
        forall|j: int|
            turns <= j < players.len() ==> pickup_tick(pickups, players, turns).players[j]
                == players[j],
    decreases turns,
{
    if turns > 0 {
        lemma_later_players_wait(pickups, players, (turns - 1) as nat);
    }
}

fn duplicate<T: Copy>(items: &Vec<T>) -> (copy: Vec<T>)
    ensures
        copy@ == items@,
{
    let mut copy: Vec<T> = Vec::new();
    let mut i: usize = 0;
    while i < items.len()
        invariant
            i <= items.len(),
            copy@ == items@.take(i as int),
        decreases items.len() - i,
    {
        copy.push(items[i]);
        assert(items@.take(i + 1) == items@.take(i as int).push(items@[i as int]));
        i += 1;
    }
    assert(items@.take(items.len() as int) == items@);
    copy
}

fn without_highlights(pickups: &Vec<WorldPickup>) -> (dark: Vec<WorldPickup>)
    ensures
        dark@ == unlit(pickups@),
{
    let mut dark: Vec<WorldPickup> = Vec::new();
    let mut i: usize = 0;
    while i < pickups.len()
        invariant
            i <= pickups.len(),
            dark@.len() == i,
            forall|j: int| 0 <= j < i ==> dark@[j] == pickups@[j].lit(false),
        decreases pickups.len() - i,
    {
        let pickup = pickups[i];
        dark.push(
            WorldPickup {
                entity: pickup.entity,
                position: pickup.position,
                pickup: Pickup { pickup_type: pickup.pickup.pickup_type, highlighted: false },
            },
        );
        i += 1;
    }
    assert(dark@ =~= unlit(pickups@));
    dark
}

/// Runs one tick of the pickup rules over the pickups in the world and the
/// players, in the order in which they stand in `players`. Every highlight
/// goes off; then each player in turn has the pickup in its reach
/// highlighted and, if it pressed the pickup button on this tick, takes it.
/// Returns the events to send, in the order of the players. Where a player
/// tries to take a weapon the tick is refused: the error is returned, and
/// pickups and players stay as they were before the tick.
pub fn update_pickup(pickups: &mut Vec<WorldPickup>, players: &mut Vec<Collector>) -> (result:
    Result<Vec<PickupEvent>, PickupError>)
    requires
        forall|i: int|
            0 <= i < old(players)@.len() ==> (#[trigger] old(players)@[i]).inventory.has_room(),
    ensures
        match result {
            Ok(events) => {
                let tick = pickup_tick(old(pickups)@, old(players)@, old(players)@.len());
                &&& tick.error is None
                &&& final(pickups)@ == tick.pickups
                &&& final(players)@ == tick.players
                &&& events@ == tick.events
            },
            Err(error) => {
                &&& pickup_tick(old(pickups)@, old(players)@, old(players)@.len()).error == Some(
                    error,
                )
                &&& final(pickups)@ == old(pickups)@
                &&& final(players)@ == old(players)@
            },
        },
{
    let mut world = without_highlights(pickups);
    let mut actors = duplicate(players);
    let mut events: Vec<PickupEvent> = Vec::new();
    let mut i: usize = 0;
    while i < actors.len()
        invariant
            i <= actors.len(),
            actors@.len() == players@.len(),
            forall|j: int|
                0 <= j < players@.len() ==> (#[trigger] players@[j]).inventory.has_room(),
            pickup_tick(pickups@, players@, i as nat) == (PickupTick {
                pickups: world@,
                players: actors@,
                events: events@,
                error: None,
            }),
        decreases actors.len() - i,
    {
        proof {
            lemma_later_players_wait(pickups@, players@, i as nat);
            assert(actors@[i as int] == players@[i as int]);
        }
        let mut actor = actors[i];
        match collect_nearest(&mut world, &mut actor) {
            Err(error) => {
                proof {
                    lemma_refused_tick_stays_refused(
                        pickups@,
                        players@,
                        (i + 1) as nat,
                        players@.len(),
                    );
                }
                return Err(error);
            },
            Ok(event) => {
                actors.set(i, actor);
                match event {
                    Some(event) => events.push(event),
                    None => {},
                }
            },
        }
        i += 1;
    }
    *pickups = world;
    *players = actors;
    Ok(events)
}

/// A tick that has been refused stays as it is for the rest of the turns.
proof fn lemma_refused_tick_stays_refused(
    pickups: Seq<WorldPickup>,
    players: Seq<Collector>,
    turns: nat,
    later: nat,
)
    requires
        turns <= later,
        pickup_tick(pickups, players, turns).error is Some,
    ensures
        pickup_tick(pickups, players, later) == pickup_tick(pickups, players, turns),
    decreases later,
{
    if turns < later {
        lemma_refused_tick_stays_refused(pickups, players, turns, (later - 1) as nat);
    }
}

/// An item changes hands in one step: when a player in reach of an item
/// presses the pickup button, the item leaves the world, the player's
/// inventory counts exactly one more of its kind and as many as before of
/// every other, the player is otherwise as it was, and one event names the
/// kind and the player.
pub proof fn lemma_transfer_is_atomic(
    pickups: Seq<WorldPickup>,
    player: Collector,
    i: int,
    item: Items,
)
    requires
        is_nearest(player.position, pickups, PICKUP_RANGE, i),
        player.actions.spec_just_pressed(PlayerActions::Pickup),
        pickups[i].pickup.pickup_type == PickupType::Item(item),
        player.inventory.has_room_for(item),
    ensures
        collected(pickups, player).error is None,
        collected(pickups, player).event == Some(PickupEvent(item, player.entity)),
        collected(pickups, player).pickups == pickups.remove(i),
        collected(pickups, player).pickups.len() == pickups.len() - 1,
        collected(pickups, player).player.inventory@[item] == player.inventory@[item] + 1,
        forall|other: Items|
            other != item ==> collected(pickups, player).player.inventory@[other]
                == player.inventory@[other],
        collected(pickups, player).player.entity == player.entity,
        collected(pickups, player).player.position == player.position,
        collected(pickups, player).player.actions == player.actions,
{
    lemma_nearest(player.position, pickups, PICKUP_RANGE);
    player.inventory.lemma_with_one_more(item);
}

/// No pickup is named twice.
pub open spec fn distinct_pickups(pickups: Seq<WorldPickup>) -> bool {
    forall|a: int, b: int|
        0 <= a < b < pickups.len() ==> (#[trigger] pickups[a]).entity != (
        #[trigger] pickups[b]).entity
}

/// A pickup that has changed hands is gone for good: what is left in the
/// world are the other pickups, in their order, and none of them bears its
/// name, so that no later turn can reach it.
pub proof fn lemma_taken_pickup_is_gone(
    pickups: Seq<WorldPickup>,
    player: Collector,
    i: int,
    item: Items,
)
    requires
        distinct_pickups(pickups),
        is_nearest(player.position, pickups, PICKUP_RANGE, i),
        player.actions.spec_just_pressed(PlayerActions::Pickup),
        pickups[i].pickup.pickup_type == PickupType::Item(item),
    ensures
        distinct_pickups(collected(pickups, player).pickups),
        forall|j: int|
            0 <= j < collected(pickups, player).pickups.len() ==> (#[trigger] collected(
                pickups,
                player,
            ).pickups[j]).entity != pickups[i].entity,
        forall|j: int|
            0 <= j < collected(pickups, player).pickups.len() ==> #[trigger] collected(
                pickups,
                player,
            ).pickups[j] == pickups[if j < i {
                j
            } else {
                j + 1
            }],
{
    lemma_nearest(player.position, pickups, PICKUP_RANGE);
    let left = pickups.remove(i);
    assert forall|j: int| 0 <= j < left.len() implies #[trigger] left[j] == pickups[if j < i {
        j
    } else {
        j + 1
    }] by {}
    assert forall|j: int| 0 <= j < left.len() implies (#[trigger] left[j]).entity
        != pickups[i].entity by {
        let k = if j < i {
            j
        } else {
            j + 1
        };
        assert(left[j] == pickups[k]);
        if k < i {
            assert(pickups[k].entity != pickups[i].entity);
        } else {
            assert(pickups[i].entity != pickups[k].entity);
        }
    }
    assert forall|a: int, b: int| 0 <= a < b < left.len() implies (#[trigger] left[a]).entity != (
    #[trigger] left[b]).entity by {
        let ka = if a < i {
            a
        } else {
            a + 1
        };
        let kb = if b < i {
            b
        } else {
            b + 1
        };
        assert(left[a] == pickups[ka]);
        assert(left[b] == pickups[kb]);
        assert(pickups[ka].entity != pickups[kb].entity);
    }
}

/// Reaching for a pickup that is not there is no error: with no pickup in
/// reach a turn changes nothing, tells nothing and is not refused, whatever
/// the player pressed.
pub proof fn lemma_nothing_in_reach_is_no_error(pickups: Seq<WorldPickup>, player: Collector)
    requires
        none_in_range(player.position, pickups, PICKUP_RANGE),
    ensures
        collected(pickups, player) == (Collected {
            pickups,
            player,
            event: None,
            error: None,
        }),
{
    lemma_nearest(player.position, pickups, PICKUP_RANGE);
    if let Some(i) = nearest(player.position, pickups, PICKUP_RANGE) {
        assert(gap(player.position, pickups, i) >= PICKUP_RANGE * PICKUP_RANGE);
    }
}

/// A tick neither makes nor loses pickups or players: as long as it is not
/// refused, each pickup is either still in the world or told of in exactly
/// one event.
pub proof fn lemma_tick_accounts_for_every_pickup(
    pickups: Seq<WorldPickup>,
    players: Seq<Collector>,
    turns: nat,
)
    requires
        turns <= players.len(),
    ensures
        pickup_tick(pickups, players, turns).players.len() == players.len(),
        pickup_tick(pickups, players, turns).error is None ==> pickup_tick(
            pickups,
            players,
            turns,
        ).pickups.len() + pickup_tick(pickups, players, turns).events.len() == pickups.len(),
        pickup_tick(pickups, players, turns).events.len() <= turns,
    decreases turns,
{
    if turns > 0 {
        lemma_tick_accounts_for_every_pickup(pickups, players, (turns - 1) as nat);
        let before = pickup_tick(pickups, players, (turns - 1) as nat);
        if before.error is None {
            lemma_nearest(before.players[turns - 1].position, before.pickups, PICKUP_RANGE);
        }
    }
}

/// What is spawned for a pickup: its name, where it lies, how it is layered
/// and what it gives.
pub struct PickupBundle {
    pub name: String,
    pub position: Position,
    pub zindex: i32,
    pub pickup: Pickup,
}

impl PickupBundle {
    /// A pickup of an item of the kind `item_type`, called `name`, at `pos`
    /// moved onto whole units.
    pub fn create(name: String, pos: Position, item_type: Items) -> (bundle: PickupBundle)
        ensures
            bundle.name@ == name@,
            bundle.position.spec_x() == floor_unit(pos.spec_x() as int),
            bundle.position.spec_y() == floor_unit(pos.spec_y() as int),
            bundle.zindex == 0,
            bundle.pickup == (Pickup {
                pickup_type: PickupType::Item(item_type),
                highlighted: false,
            }),
    {
        PickupBundle {
            name,
            position: pos.floor(),
            zindex: 0,
            pickup: Pickup { pickup_type: PickupType::Item(item_type), highlighted: false },
        }
    }

    /// The pickup as it lies in the world under the name `entity`.
    pub fn in_world(&self, entity: EntityId) -> (pickup: WorldPickup)
        ensures
            pickup == (WorldPickup { entity, position: self.position, pickup: self.pickup }),
    {
        WorldPickup { entity, position: self.position, pickup: self.pickup }
    }
}

impl Items {
    /// A pickup of this kind at `pos`, moved onto whole units.
    pub fn to_pickup(self, pos: Position) -> (bundle: PickupBundle)
        ensures
            bundle.name@ == self.spec_name(),
            bundle.position.spec_x() == floor_unit(pos.spec_x() as int),
            bundle.position.spec_y() == floor_unit(pos.spec_y() as int),
            bundle.zindex == 0,
            bundle.pickup == (Pickup { pickup_type: PickupType::Item(self), highlighted: false }),
    {
        PickupBundle::create(self.name(), pos, self)
    }
}

/// Pickups of each kind of item that lie in the world at the start.
pub const PICKUPS_PER_ITEM: usize = 10;

/// Distance between the columns in which the kinds of item are laid out, in
/// whole units.
pub const SPAWN_SPACING: i32 = 30;

/// Where the pickups of the kind in column `column` are spawned, along the
/// first axis: the columns are `SPAWN_SPACING` apart and centred on the
/// origin.
pub open spec fn spawn_x(column: int) -> int {
    (column * SPAWN_SPACING + SPAWN_SPACING / 2) * UNIT - (ITEM_KINDS * SPAWN_SPACING * UNIT) / 2
}

/// Where every pickup is spawned along the second axis.
pub open spec fn spawn_y() -> int {
    80 * UNIT
}

/// `bundle` is what is spawned for an item of the kind in column `column`:
/// a pickup of that kind and name, not highlighted, at the place of the
/// column.
pub open spec fn spawned_in_column(bundle: PickupBundle, column: int) -> bool {
    &&& bundle.pickup == (Pickup {
        pickup_type: PickupType::Item(Items::spec_at(column)),
        highlighted: false,
    })
    &&& bundle.name@ == Items::spec_at(column).spec_name()
    &&& bundle.position.spec_x() == spawn_x(column)
    &&& bundle.position.spec_y() == spawn_y()
    &&& bundle.zindex == 0
}

/// The bundles are laid out by columns: the first `PICKUPS_PER_ITEM` of
/// them are spawned in the first column, the next as many in the second,
/// and so on.
pub open spec fn spawned_by_columns(bundles: Seq<PickupBundle>) -> bool {
    forall|k: int|
        0 <= k < bundles.len() ==> spawned_in_column(
            #[trigger] bundles[k],
            k / (PICKUPS_PER_ITEM as int),
        )
}

/// The pickups that lie in the world at the start: for each kind of item, in
/// the order of the kinds, `PICKUPS_PER_ITEM` pickups in the column of the
/// kind.
pub fn spawn_items() -> (bundles: Vec<PickupBundle>)
    ensures
        bundles@.len() == ITEM_KINDS * PICKUPS_PER_ITEM,
        spawned_by_columns(bundles@),
{
    let mut bundles: Vec<PickupBundle> = Vec::new();
    let kinds = Items::iter();
    let mut x: usize = 0;
    while x < ITEM_KINDS
        invariant
            x <= ITEM_KINDS,
            kinds@.len() == ITEM_KINDS,
            forall|i: int| 0 <= i < ITEM_KINDS ==> kinds@[i] == Items::spec_at(i),
            bundles@.len() == x * PICKUPS_PER_ITEM,
            spawned_by_columns(bundles@),
        decreases ITEM_KINDS - x,
    {
        let item = kinds[x];
        let column: i32 = x as i32;
        let at_x: i32 = (column * SPAWN_SPACING + SPAWN_SPACING / 2) * UNIT - (ITEM_KINDS as i32
            * SPAWN_SPACING * UNIT) / 2;
        let at_y: i32 = 80 * UNIT;
        assert(at_x == spawn_x(x as int));
        assert(at_x % 1_000 == 0);
        let mut n: usize = 0;
        while n < PICKUPS_PER_ITEM
            invariant
                n <= PICKUPS_PER_ITEM,
                x < ITEM_KINDS,
                item == Items::spec_at(x as int),
                at_x == spawn_x(x as int),
                at_y == spawn_y(),
                at_x % 1_000 == 0,
                -100_000 <= at_x <= 100_000,
                bundles@.len() == x * PICKUPS_PER_ITEM + n,
                spawned_by_columns(bundles@),
            decreases PICKUPS_PER_ITEM - n,
        {
            let pos = Position::new(at_x, at_y).unwrap();
            let bundle = item.to_pickup(pos);
            assert(spawned_in_column(bundle, x as int));
            bundles.push(bundle);
            n += 1;
        }
        x += 1;
    }
    bundles
}

} // verus!
