//! Topazes: they attack every creep in reach at once.

use vstd::prelude::*;
use crate::towers::{
    AttackSpeed, Damage, GemQuality, Range, TowerBundle, TowerStats, BASE_TOWER_SPEED,
};

verus! {

/// The stats of a topaz of each quality.
pub open spec fn stats(quality: GemQuality) -> TowerStats {
    match quality {
        GemQuality::Chipped => TowerStats {
            damage: Damage::Fixed(4),
            speed: AttackSpeed((BASE_TOWER_SPEED - 200) as u32),
            range: Range(5000),
            abilities: Seq::empty(),
            auras: Seq::empty(),
        },
        GemQuality::Flawed => TowerStats {
            damage: Damage::Fixed(8),
            speed: AttackSpeed(BASE_TOWER_SPEED),
            range: Range(5000),
            abilities: Seq::empty(),
            auras: Seq::empty(),
        },
        GemQuality::Normal => TowerStats {
            damage: Damage::Fixed(14),
            speed: AttackSpeed(BASE_TOWER_SPEED),
            range: Range(5000),
            abilities: Seq::empty(),
            auras: Seq::empty(),
        },
        GemQuality::Flawless => TowerStats {
            damage: Damage::Fixed(25),
            speed: AttackSpeed(BASE_TOWER_SPEED),
            range: Range(5000),
            abilities: Seq::empty(),
            auras: Seq::empty(),
        },
        GemQuality::Perfect => TowerStats {
            damage: Damage::Fixed(75),
            speed: AttackSpeed(BASE_TOWER_SPEED),
            range: Range(5000),
            abilities: Seq::empty(),
            auras: Seq::empty(),
        },
    }
}

/// A new topaz tower of the given quality.
pub fn tower(quality: GemQuality) -> (bundle: TowerBundle)
    ensures
        bundle.stats() == stats(quality),
        bundle.is_new(),
{
    let bundle = match quality {
        GemQuality::Chipped => TowerBundle::new(
            Damage::Fixed(4),
            AttackSpeed(BASE_TOWER_SPEED - 200),
            Range(5000),
            Vec::new(),
            Vec::new(),
        ),
        GemQuality::Flawed => TowerBundle::new(
            Damage::Fixed(8),
            AttackSpeed(BASE_TOWER_SPEED),
            Range(5000),
            Vec::new(),
            Vec::new(),
        ),
        GemQuality::Normal => TowerBundle::new(
            Damage::Fixed(14),
            AttackSpeed(BASE_TOWER_SPEED),
            Range(5000),
            Vec::new(),
            Vec::new(),
        ),
        GemQuality::Flawless => TowerBundle::new(
            Damage::Fixed(25),
            AttackSpeed(BASE_TOWER_SPEED),
            Range(5000),
            Vec::new(),
            Vec::new(),
        ),
        GemQuality::Perfect => TowerBundle::new(
            Damage::Fixed(75),
            AttackSpeed(BASE_TOWER_SPEED),
            Range(5000),
            Vec::new(),
            Vec::new(),
        ),
    };
    proof {
        assert(bundle.stats().abilities =~= stats(quality).abilities);
        assert(bundle.stats().auras =~= stats(quality).auras);
    }
    bundle
}

} // verus!
