//! Opals: weak shots, and an aura that changes the attack speed of the towers around.

use vstd::prelude::*;
use crate::abilities::aura::{Aura, Kind};
use crate::towers::{
    AttackSpeed, Damage, GemQuality, Range, TowerBundle, TowerStats, BASE_TOWER_SPEED,
};

verus! {

/// The stats of a opal of each quality.
pub open spec fn stats(quality: GemQuality) -> TowerStats {
    match quality {
        GemQuality::Chipped => TowerStats {
            damage: Damage::Fixed(5),
            speed: AttackSpeed((BASE_TOWER_SPEED - 200) as u32),
            range: Range(6000),
            abilities: Seq::empty(),
            auras: seq![Aura { range: Range(6000), kind: Kind::AttackSpeed(100) }],
        },
        GemQuality::Flawed => TowerStats {
            damage: Damage::Fixed(10),
            speed: AttackSpeed(BASE_TOWER_SPEED),
            range: Range(7000),
            abilities: Seq::empty(),
            auras: seq![Aura { range: Range(7000), kind: Kind::AttackSpeed(150) }],
        },
        GemQuality::Normal => TowerStats {
            damage: Damage::Fixed(20),
            speed: AttackSpeed(BASE_TOWER_SPEED),
            range: Range(8000),
            abilities: Seq::empty(),
            auras: seq![Aura { range: Range(8000), kind: Kind::AttackSpeed(200) }],
        },
        GemQuality::Flawless => TowerStats {
            damage: Damage::Fixed(40),
            speed: AttackSpeed(BASE_TOWER_SPEED),
            range: Range(9000),
            abilities: Seq::empty(),
            auras: seq![Aura { range: Range(9000), kind: Kind::AttackSpeed(250) }],
        },
        GemQuality::Perfect => TowerStats {
            damage: Damage::Fixed(85),
            speed: AttackSpeed(BASE_TOWER_SPEED),
            range: Range(10000),
            abilities: Seq::empty(),
            auras: seq![Aura { range: Range(10000), kind: Kind::AttackSpeed(350) }],
        },
    }
}

/// A new opal tower of the given quality.
pub fn tower(quality: GemQuality) -> (bundle: TowerBundle)
    ensures
        bundle.stats() == stats(quality),
        bundle.is_new(),
{
    let bundle = match quality {
        GemQuality::Chipped => TowerBundle::new(
            Damage::Fixed(5),
            AttackSpeed(BASE_TOWER_SPEED - 200),
            Range(6000),
            Vec::new(),
            vec![Aura { range: Range(6000), kind: Kind::AttackSpeed(100) }],
        ),
        GemQuality::Flawed => TowerBundle::new(
            Damage::Fixed(10),
            AttackSpeed(BASE_TOWER_SPEED),
            Range(7000),
            Vec::new(),
            vec![Aura { range: Range(7000), kind: Kind::AttackSpeed(150) }],
        ),
        GemQuality::Normal => TowerBundle::new(
            Damage::Fixed(20),
            AttackSpeed(BASE_TOWER_SPEED),
            Range(8000),
            Vec::new(),
            vec![Aura { range: Range(8000), kind: Kind::AttackSpeed(200) }],
        ),
        GemQuality::Flawless => TowerBundle::new(
            Damage::Fixed(40),
            AttackSpeed(BASE_TOWER_SPEED),
            Range(9000),
            Vec::new(),
            vec![Aura { range: Range(9000), kind: Kind::AttackSpeed(250) }],
        ),
        GemQuality::Perfect => TowerBundle::new(
            Damage::Fixed(85),
            AttackSpeed(BASE_TOWER_SPEED),
            Range(10000),
            Vec::new(),
            vec![Aura { range: Range(10000), kind: Kind::AttackSpeed(350) }],
        ),
    };
    proof {
        assert(bundle.stats().abilities =~= stats(quality).abilities);
        assert(bundle.stats().auras =~= stats(quality).auras);
    }
    bundle
}

} // verus!
