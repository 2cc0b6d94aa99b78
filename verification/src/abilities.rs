//! What a tower does beyond its plain damage: effects on the creep it hits and
//! auras on the towers around it.

use vstd::prelude::*;
use crate::abilities::on_hit::{OnHit, SplashEffect};
use crate::creeps::{damage_creep, deaths_after, life_after, Creep, Death, Life};
use crate::entity::Entity;
use crate::math_utils::Position;
use crate::towers::Range;
use crate::world::{units_in_world, Unit};

pub mod aura;
pub mod on_hit;

verus! {

/// The effects of a tower's hits, in the order in which they apply.
pub struct OnHitAbilities(pub Vec<OnHit>);

/// Damage that waits at the point of a hit for the creeps around it.
#[derive(Clone, Copy, PartialEq, Eq, Structural, Debug)]
pub struct Splash {
    pub position: Position,
    pub effect: SplashEffect,
    pub range: Range,
    /// The damage of the hit that caused the splash.
    pub damage: u64,
}

impl Splash {
    /// The damage that the splash deals to each creep within its reach.
    pub open spec fn dealt(self) -> u64 {
        self.effect.damage_spec(self.damage)
    }

    /// The splash reaches the unit: it is a creep within the splash's reach.
    pub open spec fn reaches(self, unit: Unit) -> bool {
        match unit {
            Unit::Creep(creep) => self.range.within_spec(creep.position, self.position),
            _ => false,
        }
    }

    /// The unit after the splash.
    pub open spec fn burst_unit(self, unit: Unit) -> Unit {
        match unit {
            Unit::Creep(creep) if self.reaches(unit) => Unit::Creep(
                Creep { life: Life(life_after(creep.life.0, self.dealt())), ..creep },
            ),
            other => other,
        }
    }

    /// The deaths on record after the splash has reached the first `n` units.
    pub open spec fn burst_deaths(self, units: Seq<Unit>, deaths: Seq<Death>, n: nat) -> Seq<Death>
        decreases n,
    {
        if n == 0 {
            deaths
        } else {
            let before = self.burst_deaths(units, deaths, (n - 1) as nat);
            match units[n - 1] {
                Unit::Creep(creep) if self.reaches(units[n - 1]) => deaths_after(
                    before,
                    Entity((n - 1) as usize),
                    creep.life.0,
                    self.dealt(),
                ),
                _ => before,
            }
        }
    }
}

/// The units and the deaths on record after the splashes among the first `n`
/// units have gone off, in the order of the units: each damages every creep
/// within its reach and is gone.
pub open spec fn splashed(units: Seq<Unit>, deaths: Seq<Death>, n: nat) -> (Seq<Unit>, Seq<Death>)
    decreases n,
{
    if n == 0 {
        (units, deaths)
    } else {
        let (units_before, deaths_before) = splashed(units, deaths, (n - 1) as nat);
        match units_before[n - 1] {
            Unit::Splash(splash) => (
                Seq::new(units_before.len(), |j: int| splash.burst_unit(units_before[j])).update(
                    n - 1,
                    Unit::Vacant,
                ),
                splash.burst_deaths(units_before, deaths_before, units_before.len()),
            ),
            _ => (units_before, deaths_before),
        }
    }
}

/// Lets every splash go off: it damages each creep within its reach, the
/// creeps that die of it are recorded, and the splash is gone.
pub fn splash(units: &mut Vec<Unit>, ew: &mut Vec<Death>)
    requires
        units_in_world(old(units)@),
    ensures
        (final(units)@, final(ew)@) == splashed(old(units)@, old(ew)@, old(units)@.len()),
        units_in_world(final(units)@),
{
    let n = units.len();
    let mut i: usize = 0;
    while i < n
        invariant
            i <= n,
            n == units@.len(),
            n == old(units)@.len(),
            (units@, ew@) == splashed(old(units)@, old(ew)@, i as nat),
            units_in_world(units@),
        decreases n - i,
    {
        let ghost before = units@;
        let ghost deaths_before = ew@;
        let job = match &units[i] {
            Unit::Splash(splash) => Some(*splash),
            _ => None,
        };
        match job {
            Some(splash) => {
                assert(before[i as int].in_world());
                let dealt = splash.effect.damage(splash.damage);
                let mut j: usize = 0;
                while j < n
                    invariant
                        j <= n,
                        n == units@.len(),
                        n == before.len(),
                        splash.position.in_world(),
                        dealt == splash.dealt(),
                        units_in_world(before),
                        forall|k: int| 0 <= k < j ==> units@[k] == splash.burst_unit(before[k]),
                        forall|k: int| j <= k < n ==> units@[k] == before[k],
                        ew@ == splash.burst_deaths(before, deaths_before, j as nat),
                    decreases n - j,
                {
                    assert(before[j as int].in_world());
                    match &mut units[j] {
                        Unit::Creep(creep) => {
                            if splash.range.within(creep.position, splash.position) {
                                damage_creep(Entity(j), dealt, &mut creep.life, ew);
                            }
                        },
                        _ => {},
                    }
                    j += 1;
                }
                units[i] = Unit::Vacant;
                proof {
                    assert(units@ =~= Seq::new(
                        before.len(),
                        |j: int| splash.burst_unit(before[j]),
                    ).update(i as int, Unit::Vacant));
                }
            },
            None => {},
        }
        proof {
            assert forall|j: int| 0 <= j < n implies (#[trigger] units@[j]).in_world() by {
                assert(before[j].in_world());
            }
        }
        i += 1;
    }
}

} // verus!
