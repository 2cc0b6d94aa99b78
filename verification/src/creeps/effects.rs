//! The slows and poisons on a creep, and how they weigh on its speed.

use vstd::prelude::*;
use crate::creeps::{damage_creep, deaths_after, life_after, Creep, Death, Life};
use crate::entity::Entity;
use crate::towers::emerald::Poison;
use crate::towers::sapphire::{Slowed, SLOW_DURATION};

verus! {

/// The largest percent of slow that an effect may hold for the sum of a
/// slow and a poison to fit the speed's modifier.
pub const SLOW_LIMIT: u32 = 0x7fff_ffff;

/// Milliseconds between two bites of a poison that bites `dps` times a
/// second. A poison that never bites has the longest period there is.
pub open spec fn poison_period(dps: u32) -> u32 {
    if dps == 0 {
        u32::MAX
    } else {
        (1000int / (dps as int)) as u32
    }
}

impl Creep {
    /// The percent of slow that the creep's effects have put on its speed.
    pub open spec fn applied_slow(self) -> int {
        (match self.slowed {
            Some(slowed) if !self.slowed_added => slowed.0 as int,
            _ => 0,
        }) + (match self.poison {
            Some(poison) if !self.poison_added => poison.slow as int,
            _ => 0,
        })
    }

    /// The percent of slow of the effects that do not weigh on the speed yet.
    pub open spec fn pending_slow(self) -> int {
        (match self.slowed {
            Some(slowed) if self.slowed_added => slowed.0 as int,
            _ => 0,
        }) + (match self.poison {
            Some(poison) if self.poison_added => poison.slow as int,
            _ => 0,
        })
    }

    /// Every effect that weighs on the creep's speed does so with exactly its
    /// own percent, and nothing else does.
    pub open spec fn slows_paired(self) -> bool {
        self.speed.modifier == self.applied_slow()
    }

    /// The effects on the creep are paired with its speed, and none is
    /// larger than [`SLOW_LIMIT`].
    pub open spec fn effects_sound(self) -> bool {
        &&& self.slows_paired()
        &&& match self.slowed {
            Some(slowed) => slowed.0 <= SLOW_LIMIT,
            None => true,
        }
        &&& match self.poison {
            Some(poison) => poison.slow <= SLOW_LIMIT,
            None => true,
        }
    }

    /// The creep after a hit has slowed it by `amount` percent: a slow that
    /// weighed on its speed is lifted, and the new one waits to be applied.
    pub open spec fn slow_attached(self, amount: u32) -> Creep {
        Creep {
            speed: match self.slowed {
                Some(slowed) if !self.slowed_added => self.speed.increased(slowed.0),
                _ => self.speed,
            },
            slowed: Some(Slowed::fresh(amount)),
            slowed_added: true,
            ..self
        }
    }

    /// The creep once a slow that was waiting weighs on its speed.
    pub open spec fn slow_applied(self) -> Creep {
        match self.slowed {
            Some(slowed) if self.slowed_added => Creep {
                speed: self.speed.reduced(slowed.0),
                slowed_added: false,
                ..self
            },
            _ => self,
        }
    }

    /// The creep after `dt` more milliseconds of its slow: the slow is gone,
    /// and its weight with it, once its time has run out.
    pub open spec fn slow_ticked(self, dt: u32) -> Creep {
        match self.slowed {
            None => self,
            Some(slowed) => {
                let timer = slowed.1.ticked(dt);
                if timer.just_finished_spec() {
                    Creep {
                        speed: if self.slowed_added {
                            self.speed
                        } else {
                            self.speed.increased(slowed.0)
                        },
                        slowed: None,
                        slowed_added: false,
                        ..self
                    }
                } else {
                    Creep { slowed: Some(Slowed(slowed.0, timer)), ..self }
                }
            },
        }
    }

    /// Slows the creep by `amount` percent from its next update on, in place
    /// of any slow that it has.
    pub fn attach_slow(&mut self, amount: u32)
        ensures
            *final(self) == old(self).slow_attached(amount),
    {
        match self.slowed {
            Some(slowed) => {
                if !self.slowed_added {
                    self.speed.increase(slowed.0);
                }
            },
            None => {},
        }
        self.slowed = Some(Slowed::new(amount));
        self.slowed_added = true;
    }

    /// Puts a slow that was attached on the creep's speed.
    pub fn apply_slow(&mut self)
        ensures
            *final(self) == old(self).slow_applied(),
    {
        match self.slowed {
            Some(slowed) => {
                if self.slowed_added {
                    self.speed.reduce(slowed.0);
                    self.slowed_added = false;
                }
            },
            None => {},
        }
    }

    /// Lets `dt` milliseconds of the creep's slow pass.
    pub fn tick_slow(&mut self, dt: u32)
        ensures
            *final(self) == old(self).slow_ticked(dt),
    {
        match self.slowed {
            Some(slowed) => {
                let mut timer = slowed.1;
                timer.tick(dt);
                if timer.just_finished() {
                    if !self.slowed_added {
                        self.speed.increase(slowed.0);
                    }
                    self.slowed = None;
                    self.slowed_added = false;
                } else {
                    self.slowed = Some(Slowed(slowed.0, timer));
                }
            },
            None => {},
        }
    }

    /// The creep after a hit has poisoned it: a poison that weighed on its
    /// speed is lifted, and the new one waits to be applied.
    pub open spec fn poison_attached(self, dps: u32, slow: u32, duration: u32) -> Creep {
        Creep {
            speed: match self.poison {
                Some(poison) if !self.poison_added => self.speed.increased(poison.slow),
                _ => self.speed,
            },
            poison: Some(Poison::fresh(dps, slow, duration)),
            poison_added: true,
            ..self
        }
    }

    /// The creep once a poison that was waiting weighs on its speed.
    pub open spec fn poison_applied(self) -> Creep {
        match self.poison {
            Some(poison) if self.poison_added => Creep {
                speed: self.speed.reduced(poison.slow),
                poison_added: false,
                ..self
            },
            _ => self,
        }
    }

    /// Whether the poison bites in the next `dt` milliseconds: its time must
    /// not have run out by then.
    pub open spec fn poison_bites(self, dt: u32) -> bool {
        match self.poison {
            None => false,
            Some(poison) => !poison.duration_timer.ticked(dt).just_finished_spec()
                && poison.damage_timer.ticked(dt).just_finished_spec(),
        }
    }

    /// The creep after `dt` more milliseconds of its poison: the poison is
    /// gone, and its weight with it, once its time has run out; until then it
    /// takes one life at each bite.
    pub open spec fn poison_ticked(self, dt: u32) -> Creep {
        match self.poison {
            None => self,
            Some(poison) => {
                let duration_timer = poison.duration_timer.ticked(dt);
                if duration_timer.just_finished_spec() {
                    Creep {
                        speed: if self.poison_added {
                            self.speed
                        } else {
                            self.speed.increased(poison.slow)
                        },
                        poison: None,
                        poison_added: false,
                        ..self
                    }
                } else {
                    Creep {
                        life: if self.poison_bites(dt) {
                            Life(life_after(self.life.0, 1))
                        } else {
                            self.life
                        },
                        poison: Some(
                            Poison {
                                duration_timer,
                                damage_timer: poison.damage_timer.ticked(dt),
                                ..poison
                            },
                        ),
                        ..self
                    }
                }
            },
        }
    }

    /// The deaths on record after `dt` more milliseconds of the poison of the
    /// creep `entity`.
    pub open spec fn poison_deaths(self, dt: u32, entity: Entity, deaths: Seq<Death>) -> Seq<
        Death,
    > {
        if self.poison_bites(dt) {
            deaths_after(deaths, entity, self.life.0, 1)
        } else {
            deaths
        }
    }

    /// Poisons the creep from its next update on, in place of any poison
    /// that it has.
    pub fn attach_poison(&mut self, dps: u32, slow: u32, duration: u32)
        ensures
            *final(self) == old(self).poison_attached(dps, slow, duration),
    {
        match self.poison {
            Some(poison) => {
                if !self.poison_added {
                    self.speed.increase(poison.slow);
                }
            },
            None => {},
        }
        self.poison = Some(Poison::new(dps, slow, duration));
        self.poison_added = true;
    }

    /// Puts a poison that was attached on the creep's speed.
    pub fn apply_poison(&mut self)
        ensures
            *final(self) == old(self).poison_applied(),
    {
        match self.poison {
            Some(poison) => {
                if self.poison_added {
                    self.speed.reduce(poison.slow);
                    self.poison_added = false;
                }
            },
            None => {},
        }
    }

    /// Lets `dt` milliseconds of the poison of the creep `entity` pass.
    pub fn tick_poison(&mut self, dt: u32, entity: Entity, ew: &mut Vec<Death>)
        ensures
            *final(self) == old(self).poison_ticked(dt),
            final(ew)@ == old(self).poison_deaths(dt, entity, old(ew)@),
    {
        match self.poison {
            Some(poison) => {
                let mut duration_timer = poison.duration_timer;
                duration_timer.tick(dt);
                if duration_timer.just_finished() {
                    if !self.poison_added {
                        self.speed.increase(poison.slow);
                    }
                    self.poison = None;
                    self.poison_added = false;
                } else {
                    let mut damage_timer = poison.damage_timer;
                    damage_timer.tick(dt);
                    self.poison = Some(
                        Poison { slow: poison.slow, duration_timer, damage_timer },
                    );
                    if damage_timer.just_finished() {
                        damage_creep(entity, 1, &mut self.life, ew);
                    }
                }
            },
            None => {},
        }
    }
}

/// A slow that is attached, applied, run or lifted leaves the effects on the
/// creep's speed paired: the speed carries the percent of each effect that
/// has been applied, once, and of no other. Only a sum of slows too large
/// for the field could break this.
pub proof fn lemma_slow_keeps_pairing(creep: Creep, amount: u32, dt: u32)
    requires
        creep.slows_paired(),
    ensures
        creep.slow_attached(amount).slows_paired(),
        creep.applied_slow() + creep.pending_slow() <= u32::MAX
            ==> creep.slow_applied().slows_paired(),
        creep.slow_ticked(dt).slows_paired(),
{
}

/// A poison that is attached, applied, run or lifted leaves the effects on
/// the creep's speed paired, as a slow does.
pub proof fn lemma_poison_keeps_pairing(creep: Creep, dps: u32, slow: u32, duration: u32, dt: u32)
    requires
        creep.slows_paired(),
    ensures
        creep.poison_attached(dps, slow, duration).slows_paired(),
        creep.applied_slow() + creep.pending_slow() <= u32::MAX
            ==> creep.poison_applied().slows_paired(),
        creep.poison_ticked(dt).slows_paired(),
{
}

/// A slow takes its percent from the speed when it is applied and gives
/// exactly that back when it runs out, whatever else weighs on the creep.
pub proof fn lemma_slow_round_trip(creep: Creep, amount: u32, dt: u32)
    requires
        creep.slows_paired(),
        creep.slowed is None,
        creep.speed.modifier + amount <= u32::MAX,
        dt >= crate::towers::sapphire::SLOW_DURATION,
    ensures
        ({
            let slowed = creep.slow_attached(amount).slow_applied();
            let lifted = slowed.slow_ticked(dt);
            &&& slowed.speed.modifier == creep.speed.modifier + amount
            &&& lifted.slowed is None
            &&& lifted.speed == creep.speed
        }),
{
}

/// A poison takes its percent from the speed when it is applied, keeps it
/// there while it runs, and gives exactly that back when it runs out.
pub proof fn lemma_poison_round_trip(
    creep: Creep,
    dps: u32,
    slow: u32,
    duration: u32,
    early: u32,
    late: u32,
)
    requires
        creep.slows_paired(),
        creep.poison is None,
        creep.speed.modifier + slow <= u32::MAX,
        early < duration,
        early + late >= duration,
    ensures
        ({
            let poisoned = creep.poison_attached(dps, slow, duration).poison_applied();
            let running = poisoned.poison_ticked(early);
            let lifted = running.poison_ticked(late);
            &&& poisoned.speed.modifier == creep.speed.modifier + slow
            &&& running.poison is Some
            &&& running.speed.modifier == creep.speed.modifier + slow
            &&& lifted.poison is None
            &&& lifted.speed == creep.speed
        }),
{
}

/// A poison takes one life at a bite and never more in one tick, and none
/// in the tick in which it runs out.
pub proof fn lemma_poison_bites_once(creep: Creep, dt: u32)
    ensures
        creep.poison_ticked(dt).life.0 == (if creep.poison_bites(dt) {
            life_after(creep.life.0, 1)
        } else {
            creep.life.0
        }),
        creep.life.0 - creep.poison_ticked(dt).life.0 <= 1,
        creep.poison_ticked(dt).poison is None ==> creep.poison_ticked(dt).life == creep.life,
{
}

/// Effects that are sound stay so while they are applied and while they
/// run.
pub proof fn lemma_effects_stay_sound(creep: Creep, dt: u32)
    requires
        creep.effects_sound(),
    ensures
        creep.slow_applied().effects_sound(),
        creep.slow_ticked(dt).effects_sound(),
        creep.poison_applied().effects_sound(),
        creep.poison_ticked(dt).effects_sound(),
{
}

/// Effects that are sound stay so when a slow or a poison of at most
/// [`SLOW_LIMIT`] percent is attached.
pub proof fn lemma_attached_effects_are_sound(
    creep: Creep,
    amount: u32,
    dps: u32,
    slow: u32,
    duration: u32,
)
    requires
        creep.effects_sound(),
    ensures
        amount <= SLOW_LIMIT ==> creep.slow_attached(amount).effects_sound(),
        slow <= SLOW_LIMIT ==> creep.poison_attached(dps, slow, duration).effects_sound(),
{
}

} // verus!
