use gem_td::abilities::aura::{Aura, Auras, Kind};
use gem_td::abilities::on_hit::{OnHit, SplashEffect};
use gem_td::abilities::{splash, OnHitAbilities, Splash};
use gem_td::buffs;
use gem_td::creeps::{Creep, Death, Life, Movement, Speed, Type};
use gem_td::entity::Entity;
use gem_td::math_utils::Position;
use gem_td::timer::Timer;
use gem_td::towers::emerald::Poison;
use gem_td::towers::sapphire::Slowed;
use gem_td::towers::{
    AttackSpeed, Building, Cooldown, Damage, Gem, GemQuality, GemType, Range, Target, TowerBundle,
};
use gem_td::world::Unit;

fn at(x: i64, z: i64) -> Position {
    Position { x, y: 0, z }
}

fn a_creep(x: i64, z: i64, life: u64) -> Creep {
    Creep {
        position: at(x, z),
        life: Life(life),
        movement: Movement { route: vec![], destination: 0 },
        speed: Speed { base: 5000, min: 200, modifier: 0 },
        kind: Type::Ground,
        slowed: None,
        slowed_added: false,
        poison: None,
        poison_added: false,
    }
}

fn life_of(unit: &Unit) -> u64 {
    match unit {
        Unit::Creep(creep) => creep.life.0,
        _ => panic!("no creep at this place"),
    }
}

fn tower_with_auras(x: i64, z: i64, auras: Vec<Aura>, new: bool) -> Unit {
    Unit::Building(Building {
        position: at(x, z),
        just_built: None,
        gem: Some(Gem { quality: GemQuality::Normal, kind: GemType::Opal }),
        tower: Some(TowerBundle {
            damage: Damage::Fixed(1),
            speed: AttackSpeed(1000),
            range: Range(5000),
            cooldown: Cooldown(Timer::new(1000, true)),
            abilities: OnHitAbilities(vec![]),
            auras: Auras(auras),
            target: Target(None),
        }),
        rock: None,
        buff: None,
        buff_added: false,
        tower_added: new,
    })
}

fn aura(range: u32, value: u32) -> Aura {
    Aura { range: Range(range), kind: Kind::AttackSpeed(value) }
}

fn building(unit: &Unit) -> &Building {
    match unit {
        Unit::Building(building) => building,
        _ => panic!("no building at this place"),
    }
}

fn speed_of(unit: &Unit) -> u32 {
    building(unit).tower.as_ref().unwrap().speed.0
}

#[test]
fn multiply_damage_fires_up_to_its_chance() {
    let ability = OnHit::MultiplyDamage { chance: 25, multiplier: 2 };
    let mut creep = a_creep(0, 0, 10);
    for (roll, expected) in [(0, 14), (25, 14), (26, 7), (99, 7)] {
        let mut damage = 7;
        assert_eq!(ability.apply_rolled(roll, &mut creep, &mut damage, at(0, 0)), None);
        assert_eq!(damage, expected);
    }
    assert_eq!(creep.life.0, 10);
    assert_eq!(creep.slowed, None);
}

#[test]
fn multiply_damage_stops_at_the_largest_damage() {
    let ability = OnHit::MultiplyDamage { chance: 100, multiplier: u64::MAX };
    let mut creep = a_creep(0, 0, 10);
    let mut damage = 3;
    ability.apply_rolled(0, &mut creep, &mut damage, at(0, 0));
    assert_eq!(damage, u64::MAX);
}

#[test]
fn multiply_damage_with_a_roll_of_its_own() {
    let mut creep = a_creep(0, 0, 10);
    let mut always = 7;
    OnHit::MultiplyDamage { chance: 100, multiplier: 3 }.apply(&mut creep, &mut always, at(0, 0));
    assert_eq!(always, 21);
    let mut doubled = 0;
    for _ in 0..2000 {
        let mut damage = 7;
        OnHit::MultiplyDamage { chance: 49, multiplier: 2 }.apply(&mut creep, &mut damage, at(0, 0));
        assert!(damage == 7 || damage == 14);
        if damage == 14 {
            doubled += 1;
        }
    }
    assert!(doubled > 0 && doubled < 2000);
}

#[test]
fn splash_ability_leaves_a_splash_with_the_damage_so_far() {
    let ability = OnHit::Splash(SplashEffect::Multiplier { multiplier: 500 }, Range(3000));
    let mut creep = a_creep(0, 0, 10);
    let mut damage = 9;
    let left = ability.apply_rolled(0, &mut creep, &mut damage, at(1000, 2000));
    assert_eq!(
        left,
        Some(Splash {
            position: at(1000, 2000),
            effect: SplashEffect::Multiplier { multiplier: 500 },
            range: Range(3000),
            damage: 9,
        })
    );
    assert_eq!(damage, 9);
}

#[test]
fn sapphire_slow_attaches_a_slow_of_four_seconds() {
    let mut creep = a_creep(0, 0, 10);
    let mut damage = 9;
    assert_eq!(OnHit::SapphireSlow(25).apply_rolled(0, &mut creep, &mut damage, at(0, 0)), None);
    assert_eq!(creep.slowed, Some(Slowed(25, Timer::new(4000, false))));
    assert!(creep.slowed_added);
    assert_eq!(creep.speed.modifier, 0);
    assert_eq!(damage, 9);
}

#[test]
fn emerald_poison_attaches_a_poison() {
    let mut creep = a_creep(0, 0, 10);
    let mut damage = 9;
    let ability = OnHit::EmeraldPoison { dps: 8, slow: 30, duration: 6000 };
    assert_eq!(ability.apply_rolled(0, &mut creep, &mut damage, at(0, 0)), None);
    assert_eq!(
        creep.poison,
        Some(Poison {
            slow: 30,
            duration_timer: Timer::new(6000, false),
            damage_timer: Timer::new(125, true),
        })
    );
    assert!(creep.poison_added);
    assert_eq!(damage, 9);
}

#[test]
fn splash_effect_deals_its_part_of_the_damage() {
    let half = SplashEffect::Multiplier { multiplier: 500 };
    assert_eq!(half.damage(9), 4);
    assert_eq!(half.damage(100), 50);
    assert_eq!(half.damage(1), 0);
    assert_eq!(SplashEffect::Multiplier { multiplier: 1500 }.damage(9), 13);
    assert_eq!(SplashEffect::Multiplier { multiplier: 2000 }.damage(u64::MAX), u64::MAX);
}

#[test]
fn splash_damages_the_creeps_within_its_reach_and_is_gone() {
    let mut units = vec![
        Unit::Creep(a_creep(1500, 0, 10)),
        Unit::Splash(Splash {
            position: at(0, 0),
            effect: SplashEffect::Multiplier { multiplier: 500 },
            range: Range(3000),
            damage: 9,
        }),
        Unit::Creep(a_creep(1501, 0, 10)),
        Unit::Creep(a_creep(-1500, 1500, 4)),
        Unit::Creep(a_creep(0, 0, 3)),
    ];
    let mut deaths = Vec::new();
    splash(&mut units, &mut deaths);
    assert_eq!(life_of(&units[0]), 6);
    assert!(matches!(units[1], Unit::Vacant));
    assert_eq!(life_of(&units[2]), 10);
    assert_eq!(life_of(&units[3]), 0);
    assert_eq!(life_of(&units[4]), 0);
    assert_eq!(
        deaths,
        vec![
            Death { remaining_life: None, entity: Entity(3) },
            Death { remaining_life: None, entity: Entity(4) },
        ]
    );
}

#[test]
fn splash_that_reaches_no_creep_is_gone_all_the_same() {
    let mut units = vec![
        Unit::Splash(Splash {
            position: at(0, 0),
            effect: SplashEffect::Multiplier { multiplier: 500 },
            range: Range(3000),
            damage: 9,
        }),
        Unit::Creep(a_creep(9000, 0, 10)),
    ];
    let mut deaths = Vec::new();
    splash(&mut units, &mut deaths);
    assert!(matches!(units[0], Unit::Vacant));
    assert_eq!(life_of(&units[1]), 10);
    assert!(deaths.is_empty());
}

#[test]
fn splashes_go_off_one_after_the_other() {
    let one = Splash {
        position: at(0, 0),
        effect: SplashEffect::Multiplier { multiplier: 1000 },
        range: Range(3000),
        damage: 4,
    };
    let mut units = vec![Unit::Splash(one), Unit::Creep(a_creep(0, 0, 10)), Unit::Splash(one)];
    let mut deaths = Vec::new();
    splash(&mut units, &mut deaths);
    assert_eq!(life_of(&units[1]), 2);
    assert!(matches!(units[0], Unit::Vacant));
    assert!(matches!(units[2], Unit::Vacant));
}

#[test]
fn buff_goes_on_and_off_the_attack_speed() {
    let buff = buffs::AttackSpeed(150);
    let mut stat = AttackSpeed(1000);
    buff.add_to(&mut stat);
    assert_eq!(stat, AttackSpeed(1150));
    buff.take_from(&mut stat);
    assert_eq!(stat, AttackSpeed(1000));
    let mut full = AttackSpeed(u32::MAX - 10);
    buff.add_to(&mut full);
    assert_eq!(full, AttackSpeed(u32::MAX));
    let mut low = AttackSpeed(100);
    buff.take_from(&mut low);
    assert_eq!(low, AttackSpeed(0));
}

#[test]
fn building_keeps_the_larger_buff() {
    let mut units = vec![tower_with_auras(0, 0, vec![], false)];
    let tower = match &mut units[0] {
        Unit::Building(building) => building,
        _ => panic!("no building"),
    };
    tower.give(150);
    assert_eq!(tower.buff, Some(buffs::AttackSpeed(150)));
    assert!(tower.buff_added);
    tower.apply_buff();
    assert!(!tower.buff_added);
    assert_eq!(tower.tower.as_ref().unwrap().speed, AttackSpeed(1150));
    tower.give(100);
    tower.give(150);
    assert_eq!(tower.buff, Some(buffs::AttackSpeed(150)));
    assert!(!tower.buff_added);
    assert_eq!(tower.tower.as_ref().unwrap().speed, AttackSpeed(1150));
    tower.give(350);
    assert_eq!(tower.buff, Some(buffs::AttackSpeed(350)));
    assert!(tower.buff_added);
    assert_eq!(tower.tower.as_ref().unwrap().speed, AttackSpeed(1000));
    tower.apply_buff();
    assert_eq!(tower.tower.as_ref().unwrap().speed, AttackSpeed(1350));
    tower.apply_buff();
    assert_eq!(tower.tower.as_ref().unwrap().speed, AttackSpeed(1350));
}

#[test]
fn new_aura_reaches_the_towers_within_its_range() {
    let mut units = vec![
        tower_with_auras(0, 0, vec![aura(6000, 100)], true),
        tower_with_auras(3000, 0, vec![], false),
        tower_with_auras(3001, 0, vec![], false),
        tower_with_auras(-3000, 3000, vec![aura(20_000, 350)], false),
        Unit::Building(Building::new((1, 1))),
        Unit::Creep(a_creep(0, 0, 10)),
    ];
    Auras::apply_new_aura(&mut units);
    assert_eq!(building(&units[0]).buff, Some(buffs::AttackSpeed(100)));
    assert_eq!(building(&units[1]).buff, Some(buffs::AttackSpeed(100)));
    assert_eq!(building(&units[2]).buff, None);
    assert_eq!(building(&units[3]).buff, Some(buffs::AttackSpeed(100)));
    assert_eq!(building(&units[4]).buff, None);
    assert!(building(&units[1]).buff_added);
}

#[test]
fn auras_reach_a_new_tower() {
    let mut units = vec![
        tower_with_auras(0, 0, vec![aura(6000, 100), aura(8000, 250)], false),
        tower_with_auras(3000, 0, vec![], true),
        tower_with_auras(3500, 0, vec![], true),
        tower_with_auras(1000, 0, vec![], false),
        tower_with_auras(3000, 0, vec![aura(2000, 400)], false),
    ];
    Auras::apply_aura_to_new_tower(&mut units);
    assert_eq!(building(&units[1]).buff, Some(buffs::AttackSpeed(400)));
    assert_eq!(building(&units[2]).buff, Some(buffs::AttackSpeed(400)));
    assert_eq!(building(&units[3]).buff, None);
    assert_eq!(building(&units[0]).buff, None);
    assert_eq!(building(&units[4]).buff, None);
}

#[test]
fn aura_never_lowers_a_buff() {
    let mut units = vec![
        tower_with_auras(0, 0, vec![aura(6000, 100)], true),
        tower_with_auras(1000, 0, vec![], false),
    ];
    match &mut units[1] {
        Unit::Building(building) => {
            building.give(250);
            building.apply_buff();
        }
        _ => panic!("no building"),
    }
    Auras::apply_new_aura(&mut units);
    assert_eq!(building(&units[1]).buff, Some(buffs::AttackSpeed(250)));
    assert!(!building(&units[1]).buff_added);
    assert_eq!(speed_of(&units[1]), 1250);
}

#[test]
fn buffs_are_applied_once() {
    let mut units = vec![
        tower_with_auras(0, 0, vec![aura(6000, 100)], true),
        tower_with_auras(1000, 0, vec![], true),
    ];
    Auras::apply_new_aura(&mut units);
    Auras::apply_aura_to_new_tower(&mut units);
    Auras::settle(&mut units);
    buffs::AttackSpeed::apply(&mut units);
    assert_eq!(speed_of(&units[0]), 1100);
    assert_eq!(speed_of(&units[1]), 1100);
    assert!(!building(&units[0]).tower_added);
    assert!(!building(&units[1]).tower_added);
    Auras::apply_new_aura(&mut units);
    Auras::apply_aura_to_new_tower(&mut units);
    buffs::AttackSpeed::apply(&mut units);
    assert_eq!(speed_of(&units[0]), 1100);
    assert_eq!(speed_of(&units[1]), 1100);
}
