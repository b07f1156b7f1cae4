use snake::spawn::SecondaryEntity;
use snake::spawn::SpawnDriver;

#[test]
fn a_new_driver_has_spawned_nothing() {
    let d = SpawnDriver::new();
    assert_eq!(d.count(), 0);
    assert_eq!(d.entities.len(), 0);
}

#[test]
fn each_tick_spawns_exactly_one_entity() {
    let mut d = SpawnDriver::new();
    for n in 1..=5usize {
        d.on_tick();
        assert_eq!(d.count(), n);
    }
    for e in &d.entities {
        assert_eq!(e.pos_x % 20, 0);
        assert_eq!(e.pos_y % 20, 0);
        assert!(-250 <= e.pos_x && e.pos_x <= 250);
        assert!(-250 <= e.pos_y && e.pos_y <= 250);
    }
}

#[test]
fn given_draws_place_the_entity_where_they_snap() {
    let mut d = SpawnDriver::new();
    d.on_tick_with(0, u32::MAX);
    assert_eq!(d.entities.len(), 1);
    assert_eq!(d.entities[0], SecondaryEntity { pos_x: -240, pos_y: 240 });
}

#[test]
fn earlier_entities_are_kept_unchanged() {
    let mut d = SpawnDriver::new();
    d.on_tick_with(0, 0);
    d.on_tick_with(0x8000_0000, u32::MAX);
    d.on_tick();
    assert_eq!(d.entities.len(), 3);
    assert_eq!(d.entities[0], SecondaryEntity { pos_x: -240, pos_y: -240 });
    assert_eq!(d.entities[1], SecondaryEntity { pos_x: 0, pos_y: 240 });
}

#[test]
fn duplicate_positions_are_permitted() {
    let mut d = SpawnDriver::new();
    d.on_tick_with(42, 42);
    d.on_tick_with(42, 42);
    assert_eq!(d.entities.len(), 2);
    assert_eq!(d.entities[0], d.entities[1]);
}
