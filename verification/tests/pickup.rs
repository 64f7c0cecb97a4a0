use topdown_core::entity::EntityId;
use topdown_core::geometry::Position;
use topdown_core::player::input::{ActionState, ButtonState};
use topdown_core::player::inventory::inventory_manager::Inventory;
use topdown_core::player::inventory::item_manager::{Items, ITEM_KINDS};
use topdown_core::player::inventory::pickup::{
    collect_nearest, nearest_pickup, spawn_items, update_pickup, Collector, Pickup, PickupBundle,
    PickupError, PickupType, WorldPickup, PICKUPS_PER_ITEM, PICKUP_RANGE,
};
use topdown_core::player::inventory::weapon_manager::Guns;
use topdown_core::player::inventory::PickupEvent;

/// Thousandths of a unit from a length in units.
fn milli(units: f64) -> i32 {
    (units * 1000.0).round() as i32
}

fn at(x: f64, y: f64) -> Position {
    Position::new(milli(x), milli(y)).unwrap()
}

fn pickup(entity: u64, x: f64, y: f64, pickup_type: PickupType) -> WorldPickup {
    WorldPickup {
        entity: EntityId(entity),
        position: at(x, y),
        pickup: Pickup { pickup_type, highlighted: false },
    }
}

fn item(entity: u64, x: f64, y: f64, kind: Items) -> WorldPickup {
    pickup(entity, x, y, PickupType::Item(kind))
}

fn player(entity: u64, x: f64, y: f64, pressed: bool) -> Collector {
    let mut actions = ActionState::released();
    if pressed {
        actions.pickup = ButtonState::JustPressed;
    }
    Collector { entity: EntityId(entity), position: at(x, y), inventory: Inventory::new(), actions }
}

fn lit(pickups: &[WorldPickup]) -> Vec<u64> {
    pickups.iter().filter(|p| p.pickup.highlighted).map(|p| p.entity.0).collect()
}

fn names(pickups: &[WorldPickup]) -> Vec<u64> {
    pickups.iter().map(|p| p.entity.0).collect()
}

fn counts(inventory: &Inventory) -> [u32; 3] {
    [
        inventory.count(Items::SpeedBoost),
        inventory.count(Items::DamageBoost),
        inventory.count(Items::HealthBoost),
    ]
}

#[test]
fn range_is_thirty_seven_and_a_half_units() {
    assert_eq!(PICKUP_RANGE, milli(37.5) as u32);
}

#[test]
fn positions_stay_in_the_world() {
    assert!(Position::new(1_000_000_000, -1_000_000_000).is_some());
    assert!(Position::new(1_000_000_001, 0).is_none());
    assert!(Position::new(0, -1_000_000_001).is_none());
    assert!(Position::new(i32::MIN, i32::MAX).is_none());
    let p = Position::new(-7, 9).unwrap();
    assert_eq!((p.x(), p.y()), (-7, 9));
    assert_eq!((Position::zero().x(), Position::zero().y()), (0, 0));
}

#[test]
fn distance_is_squared_exactly() {
    let a = Position::new(3_000, -4_000).unwrap();
    let b = Position::new(0, 0).unwrap();
    assert_eq!(a.distance_squared(b), 25_000_000);
    assert_eq!(b.distance_squared(a), 25_000_000);
    assert_eq!(a.distance_squared(a), 0);
    let far = Position::new(1_000_000_000, 1_000_000_000).unwrap();
    let near = Position::new(-1_000_000_000, -1_000_000_000).unwrap();
    assert_eq!(far.distance_squared(near), 8_000_000_000_000_000_000);
    assert!(a.within_range(b, 5_001));
    assert!(!a.within_range(b, 5_000));
    assert!(!a.within_range(a, 0));
    assert!(far.within_range(near, u32::MAX));
}

#[test]
fn floor_moves_down_onto_whole_units() {
    let p = Position::new(1_999, -1).unwrap().floor();
    assert_eq!((p.x(), p.y()), (1_000, -1_000));
    let q = Position::new(-1_500, 2_000).unwrap().floor();
    assert_eq!((q.x(), q.y()), (-2_000, 2_000));
    let r = Position::new(-1_000_000_000, 999_999_999).unwrap().floor();
    assert_eq!((r.x(), r.y()), (-1_000_000_000, 999_999_000));
    let s = Position::new(0, -999_999_999).unwrap().floor();
    assert_eq!((s.x(), s.y()), (0, -1_000_000_000));
}

#[test]
fn only_the_pickup_in_range_is_highlighted() {
    let mut pickups = vec![
        item(1, 50.0, 0.0, Items::SpeedBoost),
        item(2, 0.0, 30.0, Items::DamageBoost),
        item(3, -60.0, 0.0, Items::HealthBoost),
    ];
    let mut players = vec![player(100, 0.0, 0.0, false)];
    assert_eq!(nearest_pickup(players[0].position, &pickups, PICKUP_RANGE), Some(1));
    assert_eq!(update_pickup(&mut pickups, &mut players), Ok(vec![]));
    assert_eq!(lit(&pickups), vec![2]);
    assert_eq!(names(&pickups), vec![1, 2, 3]);
    assert_eq!(counts(&players[0].inventory), [0, 0, 0]);
}

#[test]
fn nothing_is_highlighted_beyond_range() {
    let mut pickups = vec![
        item(1, 50.0, 0.0, Items::SpeedBoost),
        item(2, 0.0, 38.0, Items::DamageBoost),
        item(3, -60.0, 0.0, Items::HealthBoost),
    ];
    pickups[1].pickup.highlighted = true;
    let mut players = vec![player(100, 0.0, 0.0, true)];
    assert_eq!(nearest_pickup(players[0].position, &pickups, PICKUP_RANGE), None);
    assert_eq!(update_pickup(&mut pickups, &mut players), Ok(vec![]));
    assert_eq!(lit(&pickups), Vec::<u64>::new());
    assert_eq!(names(&pickups), vec![1, 2, 3]);
    assert_eq!(counts(&players[0].inventory), [0, 0, 0]);
}

#[test]
fn range_is_strict() {
    let on_the_edge = vec![item(1, 37.5, 0.0, Items::SpeedBoost)];
    assert_eq!(nearest_pickup(at(0.0, 0.0), &on_the_edge, PICKUP_RANGE), None);
    let just_inside = vec![item(1, 37.499, 0.0, Items::SpeedBoost)];
    assert_eq!(nearest_pickup(at(0.0, 0.0), &just_inside, PICKUP_RANGE), Some(0));
    // 22.5 and 30 make 37.5 along the diagonal.
    let diagonal = vec![item(1, 22.5, 30.0, Items::SpeedBoost)];
    assert_eq!(nearest_pickup(at(0.0, 0.0), &diagonal, PICKUP_RANGE), None);
    assert_eq!(nearest_pickup(at(0.0, 0.0), &diagonal, PICKUP_RANGE + 1), Some(0));
    assert_eq!(nearest_pickup(at(0.0, 0.0), &Vec::new(), PICKUP_RANGE), None);
    assert_eq!(nearest_pickup(at(0.0, 0.0), &just_inside, 0), None);
}

#[test]
fn first_of_equally_near_pickups_wins() {
    let pickups = vec![
        item(1, 20.0, 0.0, Items::SpeedBoost),
        item(2, 0.0, 10.0, Items::DamageBoost),
        item(3, -10.0, 0.0, Items::HealthBoost),
        item(4, 0.0, -10.0, Items::HealthBoost),
        item(5, 0.0, 5.0, Items::HealthBoost),
        item(6, 5.0, 0.0, Items::HealthBoost),
    ];
    assert_eq!(nearest_pickup(at(0.0, 0.0), &pickups[..4].to_vec(), PICKUP_RANGE), Some(1));
    assert_eq!(nearest_pickup(at(0.0, 0.0), &pickups, PICKUP_RANGE), Some(4));
    assert_eq!(nearest_pickup(at(20.0, 1.0), &pickups, PICKUP_RANGE), Some(0));
}

#[test]
fn pickup_changes_hands_in_one_step() {
    let mut pickups = vec![
        item(1, 50.0, 0.0, Items::SpeedBoost),
        item(2, 0.0, 30.0, Items::DamageBoost),
        item(3, -60.0, 0.0, Items::HealthBoost),
    ];
    let mut players = vec![player(100, 0.0, 0.0, true)];
    let events = update_pickup(&mut pickups, &mut players);
    assert_eq!(events, Ok(vec![PickupEvent(Items::DamageBoost, EntityId(100))]));
    assert_eq!(names(&pickups), vec![1, 3]);
    assert_eq!(lit(&pickups), Vec::<u64>::new());
    assert_eq!(counts(&players[0].inventory), [0, 1, 0]);
    assert_eq!(players[0].entity, EntityId(100));

    // The same press on the next tick finds the pickup gone: nothing happens.
    let events = update_pickup(&mut pickups, &mut players);
    assert_eq!(events, Ok(vec![]));
    assert_eq!(names(&pickups), vec![1, 3]);
    assert_eq!(counts(&players[0].inventory), [0, 1, 0]);
}

#[test]
fn held_button_does_not_collect() {
    let mut pickups = vec![item(2, 0.0, 30.0, Items::DamageBoost)];
    let mut players = vec![player(100, 0.0, 0.0, false)];
    players[0].actions.pickup = ButtonState::Pressed;
    assert_eq!(update_pickup(&mut pickups, &mut players), Ok(vec![]));
    assert_eq!(lit(&pickups), vec![2]);
    assert_eq!(counts(&players[0].inventory), [0, 0, 0]);
}

#[test]
fn one_pickup_goes_to_one_player() {
    let mut pickups = vec![
        item(1, 0.0, 10.0, Items::SpeedBoost),
        item(2, 0.0, 30.0, Items::HealthBoost),
    ];
    let mut players = vec![player(100, 0.0, 0.0, true), player(200, 0.0, 5.0, true)];
    let events = update_pickup(&mut pickups, &mut players);
    assert_eq!(
        events,
        Ok(vec![
            PickupEvent(Items::SpeedBoost, EntityId(100)),
            PickupEvent(Items::HealthBoost, EntityId(200)),
        ])
    );
    assert_eq!(pickups, Vec::new());
    assert_eq!(counts(&players[0].inventory), [1, 0, 0]);
    assert_eq!(counts(&players[1].inventory), [0, 0, 1]);
}

#[test]
fn second_player_finds_the_pickup_gone() {
    let mut pickups = vec![item(1, 0.0, 10.0, Items::SpeedBoost)];
    let mut players = vec![player(100, 0.0, 0.0, true), player(200, 0.0, 5.0, true)];
    let events = update_pickup(&mut pickups, &mut players);
    assert_eq!(events, Ok(vec![PickupEvent(Items::SpeedBoost, EntityId(100))]));
    assert_eq!(pickups, Vec::new());
    assert_eq!(counts(&players[0].inventory), [1, 0, 0]);
    assert_eq!(counts(&players[1].inventory), [0, 0, 0]);
}

#[test]
fn highlights_are_set_anew_on_every_tick() {
    let mut pickups = vec![
        item(1, 0.0, 10.0, Items::SpeedBoost),
        item(2, 100.0, 0.0, Items::HealthBoost),
        item(3, 200.0, 0.0, Items::HealthBoost),
    ];
    pickups[2].pickup.highlighted = true;
    let mut players = vec![player(100, 0.0, 0.0, false), player(200, 100.0, 5.0, false)];
    assert_eq!(update_pickup(&mut pickups, &mut players), Ok(vec![]));
    assert_eq!(lit(&pickups), vec![1, 2]);
    players[0].position = at(500.0, 0.0);
    assert_eq!(update_pickup(&mut pickups, &mut players), Ok(vec![]));
    assert_eq!(lit(&pickups), vec![2]);
}

#[test]
fn weapon_pickup_is_refused() {
    let mut pickups = vec![
        item(1, 0.0, 10.0, Items::SpeedBoost),
        pickup(2, 100.0, 0.0, PickupType::Weapon),
    ];
    pickups[0].pickup.highlighted = true;
    let mut players = vec![player(100, 0.0, 0.0, true), player(200, 100.0, 5.0, true)];
    let before = (pickups.clone(), players.clone());
    assert_eq!(update_pickup(&mut pickups, &mut players), Err(PickupError::WeaponPickup));
    assert_eq!((pickups, players), before);
}

#[test]
fn weapon_pickup_is_highlighted_until_someone_takes_it() {
    let mut pickups = vec![pickup(2, 0.0, 10.0, PickupType::Weapon)];
    let mut players = vec![player(100, 0.0, 0.0, false)];
    assert_eq!(update_pickup(&mut pickups, &mut players), Ok(vec![]));
    assert_eq!(lit(&pickups), vec![2]);
}

#[test]
fn one_turn_at_the_pickups() {
    let mut pickups = vec![
        item(1, 0.0, 10.0, Items::HealthBoost),
        pickup(2, 100.0, 0.0, PickupType::Weapon),
    ];
    let mut watcher = player(100, 0.0, 0.0, false);
    assert_eq!(collect_nearest(&mut pickups, &mut watcher), Ok(None));
    assert_eq!(lit(&pickups), vec![1]);

    let mut taker = player(200, 0.0, 0.0, true);
    assert_eq!(
        collect_nearest(&mut pickups, &mut taker),
        Ok(Some(PickupEvent(Items::HealthBoost, EntityId(200))))
    );
    assert_eq!(names(&pickups), vec![2]);
    assert_eq!(counts(&taker.inventory), [0, 0, 1]);
    assert_eq!(collect_nearest(&mut pickups, &mut taker), Ok(None));
    assert_eq!(counts(&taker.inventory), [0, 0, 1]);

    let mut armed = player(300, 100.0, 0.0, true);
    let before = (pickups.clone(), armed);
    assert_eq!(collect_nearest(&mut pickups, &mut armed), Err(PickupError::WeaponPickup));
    assert_eq!((pickups, armed), before);
}

#[test]
fn inventory_counts_each_kind() {
    let mut inventory = Inventory::new();
    assert_eq!(counts(&inventory), [0, 0, 0]);
    inventory.add(Items::HealthBoost);
    inventory.add(Items::SpeedBoost);
    inventory.add(Items::HealthBoost);
    assert_eq!(counts(&inventory), [1, 0, 2]);
}

#[test]
fn items_come_in_order() {
    let all = Items::iter();
    assert_eq!(all, vec![Items::SpeedBoost, Items::DamageBoost, Items::HealthBoost]);
    assert_eq!(all.len(), ITEM_KINDS);
    for (i, kind) in all.iter().enumerate() {
        assert_eq!(Items::at(i), *kind);
    }
    assert_eq!(Items::SpeedBoost.name(), "SpeedBoost");
    assert_eq!(Items::DamageBoost.name(), "DamageBoost");
    assert_eq!(Items::HealthBoost.name(), "HealthBoost");
}

#[test]
fn bundle_is_created_on_whole_units() {
    let bundle = PickupBundle::create(
        String::from("Boots"),
        Position::new(12_700, -300).unwrap(),
        Items::SpeedBoost,
    );
    assert_eq!(bundle.name, "Boots");
    assert_eq!((bundle.position.x(), bundle.position.y()), (12_000, -1_000));
    assert_eq!(bundle.zindex, 0);
    assert_eq!(
        bundle.pickup,
        Pickup { pickup_type: PickupType::Item(Items::SpeedBoost), highlighted: false }
    );
    let placed = bundle.in_world(EntityId(9));
    assert_eq!(placed.entity, EntityId(9));
    assert_eq!(placed.position, bundle.position);
    assert_eq!(placed.pickup, bundle.pickup);
}

#[test]
fn kinds_make_their_own_pickups() {
    let bundle = Items::HealthBoost.to_pickup(Position::new(1_500, 2_500).unwrap());
    assert_eq!(bundle.name, "HealthBoost");
    assert_eq!((bundle.position.x(), bundle.position.y()), (1_000, 2_000));
    assert_eq!(bundle.pickup.pickup_type, PickupType::Item(Items::HealthBoost));
    assert!(!bundle.pickup.highlighted);

    let revolver = Guns::Revolver.to_pickup(Position::new(-500, 0).unwrap());
    assert_eq!(revolver.name, "Revolver");
    assert_eq!((revolver.position.x(), revolver.position.y()), (-1_000, 0));
    assert_eq!(revolver.zindex, 0);
    assert_eq!(revolver.pickup, Pickup { pickup_type: PickupType::Weapon, highlighted: false });
    let sniper = Guns::Sniper.to_pickup(Position::zero());
    assert_eq!(sniper.name, "Sniper");
    assert_eq!(sniper.pickup.pickup_type, PickupType::Weapon);
}

#[test]
fn items_are_spawned_in_columns() {
    let bundles = spawn_items();
    assert_eq!(PICKUPS_PER_ITEM, 10);
    assert_eq!(bundles.len(), 30);
    let columns = [
        (Items::SpeedBoost, -30_000, "SpeedBoost"),
        (Items::DamageBoost, 0, "DamageBoost"),
        (Items::HealthBoost, 30_000, "HealthBoost"),
    ];
    for (k, bundle) in bundles.iter().enumerate() {
        let (kind, x, name) = columns[k / 10];
        assert_eq!(bundle.pickup, Pickup { pickup_type: PickupType::Item(kind), highlighted: false });
        assert_eq!((bundle.position.x(), bundle.position.y()), (x, 80_000));
        assert_eq!(bundle.name, name);
        assert_eq!(bundle.zindex, 0);
    }
}
