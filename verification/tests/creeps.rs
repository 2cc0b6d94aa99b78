use gem_td::creeps::{damage_creep, Death, Life, Speed};
use gem_td::entity::Entity;

#[test]
fn lethal_damage_clamps_life_and_records_one_death() {
    let mut life = Life(10);
    let mut deaths: Vec<Death> = Vec::new();
    damage_creep(Entity(7), 25, &mut life, &mut deaths);
    assert_eq!(life.0, 0);
    assert_eq!(deaths.len(), 1);
    assert_eq!(deaths[0], Death { remaining_life: None, entity: Entity(7) });
}

#[test]
fn exact_damage_is_lethal() {
    let mut life = Life(10);
    let mut deaths: Vec<Death> = Vec::new();
    damage_creep(Entity(0), 10, &mut life, &mut deaths);
    assert_eq!(life.0, 0);
    assert_eq!(deaths.len(), 1);
}

#[test]
fn lesser_damage_is_subtracted_without_a_death() {
    let mut life = Life(10);
    let mut deaths: Vec<Death> = Vec::new();
    damage_creep(Entity(7), 4, &mut life, &mut deaths);
    assert_eq!(life.0, 6);
    assert!(deaths.is_empty());
}

#[test]
fn speed_total_takes_the_modifier_in_percent() {
    let speed = Speed { base: 5000, min: 200, modifier: 25 };
    assert_eq!(speed.total(), 3750);
}

#[test]
fn speed_total_never_falls_below_the_minimum() {
    assert_eq!(Speed { base: 5000, min: 200, modifier: 99 }.total(), 200);
    assert_eq!(Speed { base: 5000, min: 200, modifier: 100 }.total(), 200);
    assert_eq!(Speed { base: 5000, min: 200, modifier: 250 }.total(), 200);
}

#[test]
fn reduce_then_increase_restores_the_total() {
    let mut speed = Speed { base: 5000, min: 200, modifier: 10 };
    let before = speed.total();
    speed.reduce(25);
    assert_eq!(speed.modifier, 35);
    assert_eq!(speed.total(), 3250);
    speed.increase(25);
    assert_eq!(speed.modifier, 10);
    assert_eq!(speed.total(), before);
}

#[test]
fn increase_without_reduce_stops_at_zero() {
    let mut speed = Speed { base: 5000, min: 200, modifier: 10 };
    speed.increase(25);
    assert_eq!(speed.modifier, 0);
    assert_eq!(speed.total(), 5000);
}

use gem_td::abilities::on_hit::{OnHit, SplashEffect};
use gem_td::abilities::{OnHitAbilities, Splash};
use gem_td::abilities::aura::Auras;
use gem_td::creeps::{count_creeps, death, moving, Creep, Movement, Type};
use gem_td::creeps::hits::{projectile_hit, projectile_hit_with, strike, HitRolls};
use gem_td::creeps::spawning::{spawn, spawn_creep, start_spawn, Spawner};
use gem_td::grid::Grid;
use gem_td::level_1::{LevelState, State};
use gem_td::math_utils::Position;
use gem_td::timer::Timer;
use gem_td::towers::emerald::Poison;
use gem_td::towers::sapphire::Slowed;
use gem_td::towers::{
    AttackSpeed, Building, Cooldown, Damage, Projectile, ProjectileHit, Range, Target, TowerBundle,
};
use gem_td::world::Unit;

fn creep_at(x: i64, z: i64, life: u64, route: Vec<(i32, i32)>) -> Creep {
    Creep {
        position: Position { x, y: 0, z },
        life: Life(life),
        movement: Movement { route, destination: 0 },
        speed: Speed { base: 5000, min: 200, modifier: 0 },
        kind: Type::Ground,
        slowed: None,
        slowed_added: false,
        poison: None,
        poison_added: false,
    }
}

fn tower_at(x: i64, z: i64, damage: Damage, abilities: Vec<OnHit>) -> Building {
    Building {
        position: Position { x, y: 500, z },
        just_built: None,
        gem: None,
        tower: Some(TowerBundle {
            damage,
            speed: AttackSpeed(1000),
            range: Range(5000),
            cooldown: Cooldown(Timer::new(1000, true)),
            abilities: OnHitAbilities(abilities),
            auras: Auras(vec![]),
            target: Target(None),
        }),
        rock: None,
        buff: None,
        buff_added: false,
        tower_added: false,
    }
}

fn the_creep(unit: &Unit) -> &Creep {
    match unit {
        Unit::Creep(creep) => creep,
        _ => panic!("no creep at this place"),
    }
}

fn hit(origin: usize, target: usize) -> ProjectileHit {
    ProjectileHit(Projectile { origin: Entity(origin), target: Entity(target) })
}

#[test]
fn creep_walks_a_stride_towards_its_goal() {
    let mut creep = creep_at(0, 0, 10, vec![(1, 0), (1, 1)]);
    assert_eq!(creep.advance(100, Entity(0)), None);
    assert_eq!(creep.position, Position { x: 500, y: 0, z: 0 });
    assert_eq!(creep.movement.destination, 0);
}

#[test]
fn creep_turns_to_the_next_cell_on_arrival() {
    let mut creep = creep_at(0, 0, 10, vec![(1, 0), (1, 1)]);
    assert_eq!(creep.advance(190, Entity(0)), None);
    assert_eq!(creep.position, Position { x: 950, y: 0, z: 0 });
    assert_eq!(creep.movement.destination, 1);
    let mut near = creep_at(0, 0, 10, vec![(1, 0), (1, 1)]);
    near.advance(189, Entity(0));
    assert_eq!(near.position, Position { x: 945, y: 0, z: 0 });
    assert_eq!(near.movement.destination, 0);
}

#[test]
fn creep_does_not_walk_past_its_goal() {
    let mut creep = creep_at(0, 0, 10, vec![(1, 0), (1, 1)]);
    creep.advance(10_000, Entity(0));
    assert_eq!(creep.position, Position { x: 1000, y: 0, z: 0 });
    assert_eq!(creep.movement.destination, 1);
}

#[test]
fn slowed_creep_walks_a_shorter_stride() {
    let mut creep = creep_at(0, 0, 10, vec![(10, 0)]);
    creep.speed.modifier = 50;
    creep.advance(1000, Entity(0));
    assert_eq!(creep.position, Position { x: 2500, y: 0, z: 0 });
}

#[test]
fn creep_keeps_its_height_while_walking() {
    let mut creep = creep_at(0, 0, 10, vec![(0, 3)]);
    creep.position.y = 250;
    creep.advance(200, Entity(0));
    assert_eq!(creep.position, Position { x: 0, y: 250, z: 1000 });
}

#[test]
fn creep_past_its_route_leaks_with_its_life() {
    let mut creep = creep_at(1000, 0, 7, vec![(1, 0)]);
    creep.movement.destination = 1;
    assert_eq!(
        creep.advance(100, Entity(4)),
        Some(Death { remaining_life: Some(7), entity: Entity(4) })
    );
    assert_eq!(creep.position, Position { x: 1000, y: 0, z: 0 });
    assert_eq!(creep.movement.destination, 1);
}

#[test]
fn moving_moves_creeps_and_records_leaks_in_order() {
    let mut done = creep_at(0, 0, 3, vec![]);
    done.life = Life(3);
    let mut units = vec![
        Unit::Creep(creep_at(0, 0, 10, vec![(4, 0)])),
        Unit::Vacant,
        Unit::Creep(done),
        Unit::Creep(creep_at(0, 0, 9, vec![])),
    ];
    let mut deaths = vec![Death { remaining_life: None, entity: Entity(50) }];
    moving(200, &mut units, &mut deaths);
    assert_eq!(the_creep(&units[0]).position, Position { x: 1000, y: 0, z: 0 });
    assert_eq!(
        deaths,
        vec![
            Death { remaining_life: None, entity: Entity(50) },
            Death { remaining_life: Some(3), entity: Entity(2) },
            Death { remaining_life: Some(9), entity: Entity(3) },
        ]
    );
    assert_eq!(count_creeps(&units), 3);
}

#[test]
fn slow_weighs_on_the_speed_until_it_runs_out() {
    let mut creep = creep_at(0, 0, 10, vec![]);
    creep.attach_slow(20);
    assert_eq!(creep.speed.modifier, 0);
    assert!(creep.slowed_added);
    assert_eq!(creep.slowed, Some(Slowed(20, Timer::new(4000, false))));
    creep.apply_slow();
    assert_eq!(creep.speed.modifier, 20);
    assert!(!creep.slowed_added);
    assert_eq!(creep.speed.total(), 4000);
    creep.apply_slow();
    assert_eq!(creep.speed.modifier, 20);
    creep.tick_slow(3999);
    assert_eq!(creep.speed.modifier, 20);
    assert!(creep.slowed.is_some());
    creep.tick_slow(1);
    assert_eq!(creep.speed.modifier, 0);
    assert_eq!(creep.slowed, None);
    creep.tick_slow(5000);
    assert_eq!(creep.speed.modifier, 0);
}

#[test]
fn refreshed_slow_replaces_the_old_one() {
    let mut creep = creep_at(0, 0, 10, vec![]);
    creep.attach_slow(20);
    creep.apply_slow();
    creep.tick_slow(3000);
    creep.attach_slow(35);
    assert_eq!(creep.speed.modifier, 0);
    creep.apply_slow();
    assert_eq!(creep.speed.modifier, 35);
    creep.tick_slow(3999);
    assert_eq!(creep.speed.modifier, 35);
    creep.tick_slow(1);
    assert_eq!(creep.speed.modifier, 0);
    assert_eq!(creep.slowed, None);
}

#[test]
fn slow_that_runs_out_before_it_was_applied_takes_nothing() {
    let mut creep = creep_at(0, 0, 10, vec![]);
    creep.speed.modifier = 5;
    creep.attach_slow(20);
    creep.tick_slow(4000);
    assert_eq!(creep.speed.modifier, 5);
    assert_eq!(creep.slowed, None);
    assert!(!creep.slowed_added);
}

#[test]
fn slow_and_poison_weigh_side_by_side() {
    let mut creep = creep_at(0, 0, 10, vec![]);
    creep.attach_slow(20);
    creep.attach_poison(2, 15, 3000);
    creep.apply_slow();
    creep.apply_poison();
    assert_eq!(creep.speed.modifier, 35);
    let mut deaths = Vec::new();
    creep.tick_slow(3000);
    creep.tick_poison(3000, Entity(0), &mut deaths);
    assert_eq!(creep.speed.modifier, 20);
    creep.tick_slow(1000);
    assert_eq!(creep.speed.modifier, 0);
}

#[test]
fn poison_round_trip() {
    let mut creep = creep_at(0, 0, 10, vec![]);
    creep.attach_poison(2, 15, 3000);
    assert_eq!(
        creep.poison,
        Some(Poison {
            slow: 15,
            duration_timer: Timer::new(3000, false),
            damage_timer: Timer::new(500, true),
        })
    );
    creep.apply_poison();
    assert_eq!(creep.speed.modifier, 15);
    let mut deaths = Vec::new();
    let mut bites = 0;
    for _ in 0..5 {
        let before = creep.life.0;
        creep.tick_poison(500, Entity(0), &mut deaths);
        assert!(creep.poison.is_some());
        assert_eq!(creep.speed.modifier, 15);
        bites += before - creep.life.0;
    }
    assert_eq!(bites, 5);
    assert_eq!(creep.life.0, 5);
    creep.tick_poison(500, Entity(0), &mut deaths);
    assert_eq!(creep.poison, None);
    assert_eq!(creep.speed.modifier, 0);
    assert_eq!(creep.life.0, 5);
    assert!(deaths.is_empty());
}

#[test]
fn poison_bites_at_most_once_a_tick() {
    let mut creep = creep_at(0, 0, 10, vec![]);
    creep.attach_poison(16, 50, 8000);
    creep.apply_poison();
    let mut deaths = Vec::new();
    creep.tick_poison(1000, Entity(0), &mut deaths);
    assert_eq!(creep.life.0, 9);
    creep.tick_poison(53, Entity(0), &mut deaths);
    assert_eq!(creep.life.0, 9);
    creep.tick_poison(1, Entity(0), &mut deaths);
    assert_eq!(creep.life.0, 8);
}

#[test]
fn poison_kills_and_records_the_death() {
    let mut creep = creep_at(0, 0, 1, vec![]);
    creep.attach_poison(2, 15, 3000);
    creep.apply_poison();
    let mut deaths = Vec::new();
    creep.tick_poison(500, Entity(6), &mut deaths);
    assert_eq!(creep.life.0, 0);
    assert_eq!(deaths, vec![Death { remaining_life: None, entity: Entity(6) }]);
}

#[test]
fn poison_that_never_bites() {
    let poison = Poison::new(0, 10, 1000);
    assert_eq!(poison.damage_timer.duration, u32::MAX);
    assert_eq!(Poison::new(3, 10, 1000).damage_timer.duration, 333);
    assert_eq!(Poison::new(2000, 10, 1000).damage_timer.duration, 0);
}

#[test]
fn status_systems_touch_creeps_only() {
    let mut creep = creep_at(0, 0, 10, vec![]);
    creep.attach_slow(20);
    creep.attach_poison(2, 15, 3000);
    let mut units = vec![Unit::Vacant, Unit::Creep(creep)];
    Slowed::added(&mut units);
    Poison::added(&mut units);
    assert_eq!(the_creep(&units[1]).speed.modifier, 35);
    let mut deaths = Vec::new();
    Slowed::system(500, &mut units);
    Poison::system(500, &mut units, &mut deaths);
    assert_eq!(the_creep(&units[1]).life.0, 9);
    Slowed::system(3500, &mut units);
    Poison::system(3500, &mut units, &mut deaths);
    assert_eq!(the_creep(&units[1]).speed.modifier, 0);
    assert_eq!(the_creep(&units[1]).slowed, None);
    assert_eq!(the_creep(&units[1]).poison, None);
    assert!(matches!(units[0], Unit::Vacant));
}

#[test]
fn start_spawn_adds_the_spawner_of_a_round() {
    let mut units = Vec::new();
    start_spawn(&mut units);
    assert_eq!(units.len(), 1);
    match &units[0] {
        Unit::Spawner(spawner) => assert_eq!(
            *spawner,
            Spawner {
                position: Position { x: -20000, y: 0, z: 2000 },
                amount: 10,
                timer: Timer::new(1000, true),
            }
        ),
        _ => panic!("no spawner"),
    }
}

#[test]
fn spawner_emits_ten_creeps_in_ten_seconds_and_is_gone() {
    let grid = Grid::new();
    let mut units = Vec::new();
    start_spawn(&mut units);
    for second in 1..=10 {
        spawn(1000, 1, &grid, &mut units);
        assert_eq!(count_creeps(&units), second);
    }
    assert!(matches!(units[0], Unit::Vacant));
    assert_eq!(units.len(), 11);
    spawn(1000, 1, &grid, &mut units);
    assert_eq!(count_creeps(&units), 10);
    assert_eq!(units.len(), 11);
}

#[test]
fn spawner_waits_for_its_timer() {
    let grid = Grid::new();
    let mut units = Vec::new();
    start_spawn(&mut units);
    spawn(999, 1, &grid, &mut units);
    assert_eq!(units.len(), 1);
    spawn(1, 1, &grid, &mut units);
    assert_eq!(units.len(), 2);
    spawn(5000, 1, &grid, &mut units);
    assert_eq!(units.len(), 3);
    match &units[0] {
        Unit::Spawner(spawner) => assert_eq!(spawner.amount, 8),
        _ => panic!("no spawner"),
    }
}

#[test]
fn spawned_ground_creep_gets_a_resolved_route() {
    let grid = Grid::new();
    let creep = spawn_creep(1, &grid, Position { x: -20000, y: 0, z: 2000 });
    assert_eq!(creep.position, Position { x: -20000, y: 0, z: 2000 });
    assert_eq!(creep.life, Life(10));
    assert_eq!(creep.kind, Type::Ground);
    assert_eq!(creep.speed, Speed { base: 5000, min: 200, modifier: 0 });
    assert_eq!(creep.movement.destination, 0);
    assert_eq!(creep.movement.route.len(), 235);
    assert_eq!(creep.movement.route[0], (-10, 1));
    assert_eq!(creep.movement.route[13], (2, 2));
    assert_eq!(creep.movement.route[14], (2, 2));
    assert_eq!(creep.movement.route[234], (58, 80));
    assert_eq!(creep.slowed, None);
    assert_eq!(creep.poison, None);
}

#[test]
fn spawned_flying_creep_keeps_the_goals_of_the_map() {
    let grid = Grid::new();
    let creep = spawn_creep(4, &grid, Position { x: -20000, y: 0, z: 2000 });
    assert_eq!(creep.kind, Type::Flying);
    assert_eq!(creep.life, Life(70));
    assert_eq!(
        creep.movement.route,
        vec![(2, 2), (2, 26), (34, 26), (34, 2), (18, 2), (18, 42), (58, 42), (58, 80)]
    );
}

#[test]
fn spawned_creep_falls_back_to_the_goals_when_one_is_walled_in() {
    let mut grid = Grid::new();
    grid.add_building(&[(1, 2), (3, 2), (2, 1), (2, 3)], Entity(0)).unwrap();
    let creep = spawn_creep(1, &grid, Position { x: -20000, y: 0, z: 2000 });
    assert_eq!(
        creep.movement.route,
        vec![(2, 2), (2, 26), (34, 26), (34, 2), (18, 2), (18, 42), (58, 42), (58, 80)]
    );
}

#[test]
fn strike_applies_the_abilities_in_order() {
    let mut creep = creep_at(3000, 4000, 100, vec![]);
    let mut damage = 10;
    let mut splashes = Vec::new();
    let abilities = vec![
        OnHit::Splash(SplashEffect::Multiplier { multiplier: 500 }, Range(3000)),
        OnHit::MultiplyDamage { chance: 25, multiplier: 2 },
        OnHit::Splash(SplashEffect::Multiplier { multiplier: 500 }, Range(3500)),
        OnHit::SapphireSlow(30),
        OnHit::MultiplyDamage { chance: 25, multiplier: 3 },
        OnHit::EmeraldPoison { dps: 5, slow: 25, duration: 5000 },
    ];
    strike(&mut creep, &mut damage, &abilities, &vec![99, 25, 0, 0, 26, 0], &mut splashes);
    assert_eq!(damage, 20);
    assert_eq!(creep.life.0, 100);
    assert_eq!(creep.slowed, Some(Slowed::new(30)));
    assert_eq!(creep.poison, Some(Poison::new(5, 25, 5000)));
    assert_eq!(splashes.len(), 2);
    match (&splashes[0], &splashes[1]) {
        (Unit::Splash(first), Unit::Splash(second)) => {
            assert_eq!(
                *first,
                Splash {
                    position: Position { x: 3000, y: 0, z: 4000 },
                    effect: SplashEffect::Multiplier { multiplier: 500 },
                    range: Range(3000),
                    damage: 10,
                }
            );
            assert_eq!(second.damage, 20);
            assert_eq!(second.range, Range(3500));
        }
        _ => panic!("no splashes"),
    }
}

#[test]
fn hit_takes_the_fixed_damage_of_the_tower() {
    let mut units = vec![
        Unit::Building(tower_at(0, 0, Damage::Fixed(4), vec![])),
        Unit::Creep(creep_at(1000, 0, 10, vec![])),
    ];
    let mut deaths = Vec::new();
    let rolls = vec![HitRolls { damage: 77, chances: vec![] }];
    projectile_hit_with(&vec![hit(0, 1)], &rolls, &mut units, &mut deaths);
    assert_eq!(the_creep(&units[1]).life.0, 6);
    assert!(deaths.is_empty());
    assert_eq!(units.len(), 2);
}

#[test]
fn hit_takes_the_rolled_damage_of_the_range() {
    let mut units = vec![
        Unit::Building(tower_at(0, 0, Damage::Range(8, 12), vec![])),
        Unit::Creep(creep_at(1000, 0, 100, vec![])),
    ];
    let mut deaths = Vec::new();
    let rolls = vec![
        HitRolls { damage: 11, chances: vec![] },
        HitRolls { damage: 13, chances: vec![] },
        HitRolls { damage: 7, chances: vec![] },
    ];
    projectile_hit_with(&vec![hit(0, 1), hit(0, 1), hit(0, 1)], &rolls, &mut units, &mut deaths);
    assert_eq!(the_creep(&units[1]).life.0, 100 - 11 - 8 - 8);
}

#[test]
fn hit_multiplies_the_damage_when_the_roll_is_within_the_chance() {
    let abilities = vec![OnHit::MultiplyDamage { chance: 25, multiplier: 2 }];
    let mut units = vec![
        Unit::Building(tower_at(0, 0, Damage::Fixed(5), abilities)),
        Unit::Creep(creep_at(1000, 0, 100, vec![])),
    ];
    let mut deaths = Vec::new();
    let rolls = vec![
        HitRolls { damage: 0, chances: vec![25] },
        HitRolls { damage: 0, chances: vec![26] },
        HitRolls { damage: 0, chances: vec![] },
    ];
    projectile_hit_with(&vec![hit(0, 1), hit(0, 1), hit(0, 1)], &rolls, &mut units, &mut deaths);
    assert_eq!(the_creep(&units[1]).life.0, 100 - 10 - 5 - 10);
}

#[test]
fn hit_that_kills_records_the_death_each_time() {
    let mut units = vec![
        Unit::Creep(creep_at(1000, 0, 10, vec![])),
        Unit::Building(tower_at(0, 0, Damage::Fixed(10), vec![])),
    ];
    let mut deaths = Vec::new();
    let rolls = vec![
        HitRolls { damage: 0, chances: vec![] },
        HitRolls { damage: 0, chances: vec![] },
    ];
    projectile_hit_with(&vec![hit(1, 0), hit(1, 0)], &rolls, &mut units, &mut deaths);
    assert_eq!(the_creep(&units[0]).life.0, 0);
    assert_eq!(
        deaths,
        vec![
            Death { remaining_life: None, entity: Entity(0) },
            Death { remaining_life: None, entity: Entity(0) },
        ]
    );
}

#[test]
fn hit_leaves_its_splash_behind_the_units() {
    let abilities = vec![OnHit::Splash(SplashEffect::Multiplier { multiplier: 500 }, Range(3000))];
    let mut units = vec![
        Unit::Building(tower_at(0, 0, Damage::Fixed(9), abilities)),
        Unit::Creep(creep_at(1000, 2000, 100, vec![])),
    ];
    let mut deaths = Vec::new();
    let rolls = vec![HitRolls { damage: 0, chances: vec![0] }];
    projectile_hit_with(&vec![hit(0, 1)], &rolls, &mut units, &mut deaths);
    assert_eq!(units.len(), 3);
    assert_eq!(the_creep(&units[1]).life.0, 91);
    match &units[2] {
        Unit::Splash(splash) => assert_eq!(
            *splash,
            Splash {
                position: Position { x: 1000, y: 0, z: 2000 },
                effect: SplashEffect::Multiplier { multiplier: 500 },
                range: Range(3000),
                damage: 9,
            }
        ),
        _ => panic!("no splash"),
    }
}

#[test]
fn hit_without_creep_or_tower_changes_nothing() {
    let mut units = vec![
        Unit::Building(tower_at(0, 0, Damage::Fixed(4), vec![])),
        Unit::Creep(creep_at(1000, 0, 10, vec![])),
        Unit::Vacant,
    ];
    let mut deaths = Vec::new();
    let hits = vec![hit(0, 2), hit(2, 1), hit(1, 1), hit(0, 0), hit(9, 1), hit(0, 9)];
    let rolls = hits.iter().map(|_| HitRolls { damage: 0, chances: vec![] }).collect();
    projectile_hit_with(&hits, &rolls, &mut units, &mut deaths);
    assert_eq!(the_creep(&units[1]).life.0, 10);
    assert!(deaths.is_empty());
    assert_eq!(units.len(), 3);
}

#[test]
fn hit_with_rolls_of_its_own_stays_within_the_range() {
    for _ in 0..50 {
        let abilities = vec![OnHit::MultiplyDamage { chance: 100, multiplier: 2 }];
        let mut units = vec![
            Unit::Building(tower_at(0, 0, Damage::Range(8, 12), abilities)),
            Unit::Creep(creep_at(1000, 0, 100, vec![])),
        ];
        let mut deaths = Vec::new();
        projectile_hit(&vec![hit(0, 1)], &mut units, &mut deaths);
        let dealt = 100 - the_creep(&units[1]).life.0;
        assert!(dealt % 2 == 0);
        assert!((16..=24).contains(&dealt));
    }
}

#[test]
fn death_removes_the_dead_and_keeps_the_round_going() {
    let mut units = vec![
        Unit::Creep(creep_at(0, 0, 10, vec![])),
        Unit::Creep(creep_at(0, 0, 10, vec![])),
        Unit::Building(tower_at(0, 0, Damage::Fixed(4), vec![])),
    ];
    let mut state = State::new(LevelState::Spawning);
    let deaths = vec![Death { remaining_life: None, entity: Entity(0) }];
    death(&deaths, &mut units, &mut state);
    assert!(matches!(units[0], Unit::Vacant));
    assert!(matches!(units[1], Unit::Creep(_)));
    assert!(matches!(units[2], Unit::Building(_)));
    assert_eq!(state, State { current: LevelState::Spawning, queued: None });
}

#[test]
fn death_of_the_last_creeps_asks_for_the_building() {
    let mut units = vec![
        Unit::Creep(creep_at(0, 0, 10, vec![])),
        Unit::Creep(creep_at(0, 0, 10, vec![])),
    ];
    let mut state = State::new(LevelState::Spawning);
    let deaths = vec![
        Death { remaining_life: None, entity: Entity(1) },
        Death { remaining_life: Some(3), entity: Entity(0) },
        Death { remaining_life: None, entity: Entity(7) },
    ];
    death(&deaths, &mut units, &mut state);
    assert_eq!(count_creeps(&units), 0);
    assert_eq!(state, State { current: LevelState::Spawning, queued: Some(LevelState::Building) });
}

#[test]
fn death_without_deaths_changes_nothing() {
    let mut units: Vec<Unit> = vec![];
    let mut state = State::new(LevelState::Spawning);
    death(&vec![], &mut units, &mut state);
    assert_eq!(state, State { current: LevelState::Spawning, queued: None });
}
