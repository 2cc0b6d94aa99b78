//! Aquamarines: short reach, two attacks a second.

use vstd::prelude::*;
use crate::towers::{
    AttackSpeed, Damage, GemQuality, Range, TowerBundle, TowerStats, BASE_TOWER_SPEED,
};

verus! {

/// The stats of a aquamarine of each quality.
pub open spec fn stats(quality: GemQuality) -> TowerStats {
    match quality {
        GemQuality::Chipped => TowerStats {
            damage: Damage::Range(6, 8),
            speed: AttackSpeed((BASE_TOWER_SPEED / 2) as u32),
            range: Range(3500),
            abilities: Seq::empty(),
            auras: Seq::empty(),
        },
        GemQuality::Flawed => TowerStats {
            damage: Damage::Range(12, 15),
            speed: AttackSpeed((BASE_TOWER_SPEED / 2) as u32),
            range: Range(3650),
            abilities: Seq::empty(),
            auras: Seq::empty(),
        },
        GemQuality::Normal => TowerStats {
            damage: Damage::Range(24, 30),
            speed: AttackSpeed((BASE_TOWER_SPEED / 2) as u32),
            range: Range(3800),
            abilities: Seq::empty(),
            auras: Seq::empty(),
        },
        GemQuality::Flawless => TowerStats {
            damage: Damage::Range(48, 55),
            speed: AttackSpeed((BASE_TOWER_SPEED / 2) as u32),
            range: Range(4000),
            abilities: Seq::empty(),
            auras: Seq::empty(),
        },
        GemQuality::Perfect => TowerStats {
            damage: Damage::Range(100, 120),
            speed: AttackSpeed((BASE_TOWER_SPEED / 2) as u32),
            range: Range(5500),
            abilities: Seq::empty(),
            auras: Seq::empty(),
        },
    }
}

/// A new aquamarine tower of the given quality.
pub fn tower(quality: GemQuality) -> (bundle: TowerBundle)
    ensures
        bundle.stats() == stats(quality),
        bundle.is_new(),
{
    let bundle = match quality {
        GemQuality::Chipped => TowerBundle::new(
            Damage::Range(6, 8),
            AttackSpeed(BASE_TOWER_SPEED / 2),
            Range(3500),
            Vec::new(),
            Vec::new(),
        ),
        GemQuality::Flawed => TowerBundle::new(
            Damage::Range(12, 15),
            AttackSpeed(BASE_TOWER_SPEED / 2),
            Range(3650),
            Vec::new(),
            Vec::new(),
        ),
        GemQuality::Normal => TowerBundle::new(
            Damage::Range(24, 30),
            AttackSpeed(BASE_TOWER_SPEED / 2),
            Range(3800),
            Vec::new(),
            Vec::new(),
        ),
        GemQuality::Flawless => TowerBundle::new(
            Damage::Range(48, 55),
            AttackSpeed(BASE_TOWER_SPEED / 2),
            Range(4000),
            Vec::new(),
            Vec::new(),
        ),
        GemQuality::Perfect => TowerBundle::new(
            Damage::Range(100, 120),
            AttackSpeed(BASE_TOWER_SPEED / 2),
            Range(5500),
            Vec::new(),
            Vec::new(),
        ),
    };
    proof {
        assert(bundle.stats().abilities =~= stats(quality).abilities);
        assert(bundle.stats().auras =~= stats(quality).auras);
    }
    bundle
}

} // verus!
