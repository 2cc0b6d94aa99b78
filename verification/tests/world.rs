use gem_td::creeps::count_creeps;
use gem_td::entity::Entity;
use gem_td::level_1::{LevelState, State};
use gem_td::towers::{Building, JustBuilt, Rock};
use gem_td::world::{Unit, World};

const SITES: [(i32, i32); 5] = [(70, 70), (74, 70), (78, 70), (82, 70), (86, 70)];

fn buildings(world: &World) -> Vec<&Building> {
    world
        .units
        .iter()
        .filter_map(|unit| match unit {
            Unit::Building(building) => Some(building),
            _ => None,
        })
        .collect()
}

fn spawners(world: &World) -> usize {
    world.units.iter().filter(|unit| matches!(unit, Unit::Spawner(_))).count()
}

fn world_with_five_built() -> World {
    let mut world = World::new();
    for site in SITES {
        world.send_build(site);
    }
    world.tick(16);
    world
}

fn world_in_spawning() -> World {
    let mut world = world_with_five_built();
    world.tick(16);
    world.send_choose((74, 70));
    world.tick(16);
    world.tick(0);
    world
}

#[test]
fn new_world_begins_with_building() {
    let world = World::new();
    assert_eq!(world.level_state, State { current: LevelState::Building, queued: None });
    assert_eq!(world.level, 1);
    assert!(world.units.is_empty());
    assert_eq!(world.gem_count, 0);
    assert!(!world.grid.is_free((0, 2)));
    assert!(world.grid.is_free((70, 70)));
}

#[test]
fn four_buildings_do_not_end_the_building() {
    let mut world = World::new();
    for site in &SITES[..4] {
        world.send_build(*site);
    }
    world.tick(16);
    assert_eq!(world.units.len(), 4);
    assert_eq!(world.gem_count, 4);
    assert_eq!(world.level_state, State { current: LevelState::Building, queued: None });
    assert!(world.build_events.is_empty());
    world.tick(16);
    assert_eq!(world.units.len(), 4);
    assert_eq!(world.gem_count, 4);
}

#[test]
fn building_on_a_blocked_cell_is_ignored() {
    let mut world = World::new();
    world.send_build((1, 3));
    world.send_build((-1, 1));
    world.tick(16);
    assert!(world.units.is_empty());
    assert_eq!(world.gem_count, 0);
}

#[test]
fn five_buildings_lead_to_the_choosing() {
    let mut world = world_with_five_built();
    assert_eq!(world.units.len(), 5);
    assert_eq!(world.gem_count, 0);
    assert_eq!(
        world.level_state,
        State { current: LevelState::Building, queued: Some(LevelState::Choosing) }
    );
    for building in buildings(&world) {
        assert_eq!(building.just_built, Some(JustBuilt));
        assert!(building.gem.is_none());
    }
    assert_eq!(world.grid.get((75, 71)), Some(Entity(1)));
    world.send_choose((70, 70));
    world.send_build((90, 90));
    world.tick(16);
    assert_eq!(world.level_state, State { current: LevelState::Choosing, queued: None });
    assert_eq!(world.units.len(), 5);
    for building in buildings(&world) {
        assert_eq!(building.just_built, Some(JustBuilt));
        assert!(building.gem.is_some());
        assert!(building.tower.is_some());
    }
}

#[test]
fn choosing_one_leads_to_the_spawning() {
    let mut world = world_with_five_built();
    world.tick(16);
    world.tick(16);
    assert_eq!(world.level_state, State { current: LevelState::Choosing, queued: None });
    world.send_choose((60, 60));
    world.tick(16);
    assert_eq!(world.level_state, State { current: LevelState::Choosing, queued: None });
    world.send_choose((75, 71));
    world.tick(16);
    assert_eq!(
        world.level_state,
        State { current: LevelState::Choosing, queued: Some(LevelState::Spawning) }
    );
    let decided = buildings(&world);
    assert_eq!(decided.len(), 5);
    for (i, building) in decided.iter().enumerate() {
        assert_eq!(building.just_built, None);
        if i == 1 {
            assert!(building.gem.is_some());
            assert!(building.tower.is_some());
            assert_eq!(building.rock, None);
        } else {
            assert!(building.gem.is_none());
            assert!(building.tower.is_none());
            assert_eq!(building.rock, Some(Rock));
        }
    }
    world.tick(0);
    assert_eq!(world.level_state, State { current: LevelState::Spawning, queued: None });
    assert_eq!(spawners(&world), 1);
}

#[test]
fn ten_seconds_of_spawning_bring_ten_creeps() {
    let mut world = world_in_spawning();
    assert_eq!(count_creeps(&world.units), 0);
    for second in 1..=10 {
        world.tick(1000);
        assert_eq!(count_creeps(&world.units), second);
        assert_eq!(world.level_state, State { current: LevelState::Spawning, queued: None });
    }
    assert_eq!(spawners(&world), 0);
    world.tick(1000);
    assert_eq!(count_creeps(&world.units), 10);
}

#[test]
fn requests_to_build_wait_for_nothing_outside_the_building() {
    let mut world = world_in_spawning();
    let before = world.units.len();
    world.send_build((90, 90));
    world.send_choose((70, 70));
    world.tick(16);
    assert_eq!(world.units.len(), before);
    assert!(world.build_events.is_empty());
    assert!(world.choose_events.is_empty());
    assert!(world.grid.is_free((90, 90)));
}

#[test]
fn the_round_ends_when_the_last_creeps_have_left() {
    let mut world = world_in_spawning();
    world.tick(1000);
    assert_eq!(count_creeps(&world.units), 1);
    for unit in world.units.iter_mut() {
        match unit {
            Unit::Spawner(_) => *unit = Unit::Vacant,
            Unit::Creep(creep) => creep.movement.destination = creep.movement.route.len(),
            _ => {}
        }
    }
    world.tick(16);
    assert_eq!(count_creeps(&world.units), 0);
    assert_eq!(
        world.level_state,
        State { current: LevelState::Spawning, queued: Some(LevelState::Building) }
    );
    world.tick(16);
    assert_eq!(world.level_state, State { current: LevelState::Building, queued: None });
    world.send_build((90, 90));
    world.tick(16);
    assert_eq!(world.gem_count, 1);
    assert_eq!(world.grid.get((91, 91)), Some(Entity(world.units.len() - 1)));
}

#[test]
fn creeps_walk_along_their_route_while_spawning() {
    let mut world = world_in_spawning();
    world.tick(1000);
    let creep = world
        .units
        .iter()
        .find_map(|unit| match unit {
            Unit::Creep(creep) => Some(creep),
            _ => None,
        })
        .unwrap();
    assert_eq!(creep.movement.route[0], (-10, 1));
    assert_eq!(creep.position.y, 0);
    assert_eq!(creep.position.x, -15025);
    assert_eq!(creep.position.z, 1503);
    assert_eq!(creep.movement.destination, 0);
}

#[test]
fn world_is_well_formed_until_a_unit_leaves_the_world() {
    let mut world = world_in_spawning();
    world.tick(1000);
    assert!(world.is_wf());
    assert!(gem_td::world::all_in_world(&world.units));
    for unit in world.units.iter_mut() {
        if let Unit::Creep(creep) = unit {
            creep.position.x = i64::MAX;
        }
    }
    assert!(!world.is_wf());
    assert!(!gem_td::world::all_in_world(&world.units));
}

#[test]
fn world_with_a_skipping_state_is_not_well_formed() {
    let mut world = World::new();
    assert!(world.is_wf());
    world.level_state.queued = Some(LevelState::Spawning);
    assert!(!world.is_wf());
    world.level_state.queued = Some(LevelState::Choosing);
    assert!(world.is_wf());
}
