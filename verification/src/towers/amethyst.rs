//! Amethysts: far-reaching shots at flying creeps only.

use vstd::prelude::*;
use crate::towers::{
    AttackSpeed, Damage, GemQuality, Range, TowerBundle, TowerStats, BASE_TOWER_SPEED,
};

verus! {

/// The stats of a amethyst of each quality.
pub open spec fn stats(quality: GemQuality) -> TowerStats {
    match quality {
        GemQuality::Chipped => TowerStats {
            damage: Damage::Range(10, 15),
            speed: AttackSpeed((BASE_TOWER_SPEED - 200) as u32),
            range: Range(10000),
            abilities: Seq::empty(),
            auras: Seq::empty(),
        },
        GemQuality::Flawed => TowerStats {
            damage: Damage::Range(20, 27),
            speed: AttackSpeed(BASE_TOWER_SPEED),
            range: Range(12000),
            abilities: Seq::empty(),
            auras: Seq::empty(),
        },
        GemQuality::Normal => TowerStats {
            damage: Damage::Range(30, 45),
            speed: AttackSpeed(BASE_TOWER_SPEED),
            range: Range(13000),
            abilities: Seq::empty(),
            auras: Seq::empty(),
        },
        GemQuality::Flawless => TowerStats {
            damage: Damage::Range(60, 80),
            speed: AttackSpeed(BASE_TOWER_SPEED),
            range: Range(13500),
            abilities: Seq::empty(),
            auras: Seq::empty(),
        },
        GemQuality::Perfect => TowerStats {
            damage: Damage::Range(140, 170),
            speed: AttackSpeed(BASE_TOWER_SPEED),
            range: Range(16000),
            abilities: Seq::empty(),
            auras: Seq::empty(),
        },
    }
}

/// A new amethyst tower of the given quality.
pub fn tower(quality: GemQuality) -> (bundle: TowerBundle)
    ensures
        bundle.stats() == stats(quality),
        bundle.is_new(),
{
    let bundle = match quality {
        GemQuality::Chipped => TowerBundle::new(
            Damage::Range(10, 15),
            AttackSpeed(BASE_TOWER_SPEED - 200),
            Range(10000),
            Vec::new(),
            Vec::new(),
        ),
        GemQuality::Flawed => TowerBundle::new(
            Damage::Range(20, 27),
            AttackSpeed(BASE_TOWER_SPEED),
            Range(12000),
            Vec::new(),
            Vec::new(),
        ),
        GemQuality::Normal => TowerBundle::new(
            Damage::Range(30, 45),
            AttackSpeed(BASE_TOWER_SPEED),
            Range(13000),
            Vec::new(),
            Vec::new(),
        ),
        GemQuality::Flawless => TowerBundle::new(
            Damage::Range(60, 80),
            AttackSpeed(BASE_TOWER_SPEED),
            Range(13500),
            Vec::new(),
            Vec::new(),
        ),
        GemQuality::Perfect => TowerBundle::new(
            Damage::Range(140, 170),
            AttackSpeed(BASE_TOWER_SPEED),
            Range(16000),
            Vec::new(),
            Vec::new(),
        ),
    };
    proof {
        assert(bundle.stats().abilities =~= stats(quality).abilities);
        assert(bundle.stats().auras =~= stats(quality).auras);
    }
    bundle
}

} // verus!
