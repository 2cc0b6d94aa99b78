//! Creeps: their life, their speed and their walk along a route.

use vstd::prelude::*;
use crate::entity::Entity;
use crate::level_1::{LevelState, State};
use crate::math_utils::{abs_diff, magnitude, move_towards, move_towards_spec, Position, UNIT};
use crate::towers::emerald::Poison;
use crate::towers::sapphire::Slowed;
use crate::world::{units_in_world, Unit};

pub mod effects;
pub mod hits;
pub mod spawning;

verus! {

/// How a creep travels, which decides the towers that may attack it.
#[derive(Clone, Copy, PartialEq, Eq, Structural, Debug)]
pub enum Type {
    Ground,
    Flying,
}

/// Remaining hit points.
#[derive(Clone, Copy, PartialEq, Eq, Structural, Debug)]
pub struct Life(pub u64);

/// Walking speed, in thousandths of a world unit per second, with the slow
/// effects that currently weigh on it.
#[derive(Clone, Copy, PartialEq, Eq, Structural, Debug)]
pub struct Speed {
    pub base: u32,
    pub min: u32,
    /// Percent of the base speed that slow effects take away.
    pub modifier: u32,
}

impl Speed {
    /// The base speed less `modifier` percent of it, and never less than the
    /// minimum.
    pub open spec fn total_spec(self) -> int {
        let reduced = self.base - (self.base * self.modifier) / 100;
        if reduced > self.min {
            reduced
        } else {
            self.min as int
        }
    }

    /// The speed at which the creep moves now.
    pub fn total(&self) -> (speed: u32)
        ensures
            speed == self.total_spec(),
    {
        assert(self.base * self.modifier <= u64::MAX) by (nonlinear_arith)
            requires
                0 <= self.base <= u32::MAX,
                0 <= self.modifier <= u32::MAX,
        ;
        let cut: u64 = self.base as u64 * self.modifier as u64 / 100;
        if cut >= self.base as u64 {
            self.min
        } else {
            let reduced: u32 = self.base - cut as u32;
            if reduced > self.min {
                reduced
            } else {
                self.min
            }
        }
    }

    /// The speed with `modifier` more percent of slow. The sum stops at the
    /// largest value the field holds.
    pub open spec fn reduced(self, modifier: u32) -> Speed {
        Speed {
            modifier: if self.modifier + modifier > u32::MAX {
                u32::MAX
            } else {
                (self.modifier + modifier) as u32
            },
            ..self
        }
    }

    /// The speed with `modifier` percent of slow less. The difference stops
    /// at zero.
    pub open spec fn increased(self, modifier: u32) -> Speed {
        Speed {
            modifier: if self.modifier < modifier {
                0
            } else {
                (self.modifier - modifier) as u32
            },
            ..self
        }
    }

    /// Slows the creep by `modifier` more percent.
    pub fn reduce(&mut self, modifier: u32)
        ensures
            *final(self) == old(self).reduced(modifier),
    {
        self.modifier = self.modifier.saturating_add(modifier);
    }

    /// Takes `modifier` percent of slow away again.
    pub fn increase(&mut self, modifier: u32)
        ensures
            *final(self) == old(self).increased(modifier),
    {
        self.modifier = self.modifier.saturating_sub(modifier);
    }
}

/// The cells a creep walks to, in order, and the index of the next one.
pub struct Movement {
    pub route: Vec<(i32, i32)>,
    pub destination: usize,
}

/// What a freshly spawned creep is made of.
pub struct CreepBundle {
    pub life: Life,
    pub movement: Movement,
    pub speed: Speed,
    pub kind: Type,
}

/// A creep left the game. `remaining_life` is `None` when it was killed and
/// holds its life when it walked off the end of its route.
#[derive(Clone, Copy, PartialEq, Eq, Structural, Debug)]
pub struct Death {
    pub remaining_life: Option<u64>,
    pub entity: Entity,
}

/// A creep in the game.
pub struct Creep {
    pub position: Position,
    pub life: Life,
    pub movement: Movement,
    pub speed: Speed,
    pub kind: Type,
    pub slowed: Option<Slowed>,
    /// The slow was attached and does not weigh on the speed yet.
    pub slowed_added: bool,
    pub poison: Option<Poison>,
    /// The poison was attached and does not weigh on the speed yet.
    pub poison_added: bool,
}

/// The life that is left of `life` after `damage`.
pub open spec fn life_after(life: u64, damage: u64) -> u64 {
    if life >= damage {
        (life - damage) as u64
    } else {
        0
    }
}

/// The deaths on record after `damage` was dealt to `target`.
pub open spec fn deaths_after(deaths: Seq<Death>, target: Entity, life: u64, damage: u64) -> Seq<
    Death,
> {
    if life_after(life, damage) == 0 {
        deaths.push(Death { remaining_life: None, entity: target })
    } else {
        deaths
    }
}

/// Takes `damage` from `life`, stopping at zero, and records the death of
/// `target` when no life is left.
pub fn damage_creep(target: Entity, damage: u64, life: &mut Life, ew: &mut Vec<Death>)
    ensures
        final(life).0 == life_after(old(life).0, damage),
        final(ew)@ == deaths_after(old(ew)@, target, old(life).0, damage),
{
    if life.0 >= damage {
        life.0 -= damage;
    } else {
        life.0 = 0;
    }
    if life.0 == 0 {
        ew.push(Death { remaining_life: None, entity: target });
    }
}

/// A creep has arrived at a cell when it is no further than this from it
/// along either axis of the ground, in thousandths of a world unit.
pub const ARRIVAL: u64 = 50;

impl Creep {
    /// The cell to which the creep is walking, if it has not passed the last.
    pub open spec fn goal(self) -> Option<(i32, i32)> {
        if self.movement.destination < self.movement.route@.len() {
            Some(self.movement.route@[self.movement.destination as int])
        } else {
            None
        }
    }

    /// How far the creep walks in `dt` milliseconds.
    pub open spec fn stride(self, dt: u32) -> int {
        (self.speed.total_spec() * dt) / 1000
    }

    /// The creep after `dt` milliseconds of walking: nearer to its goal by a
    /// stride and never past it, and turned to the next cell of its route
    /// once it has arrived. A creep without a goal stays.
    pub open spec fn moved(self, dt: u32) -> Creep {
        match self.goal() {
            None => self,
            Some(cell) => {
                let goal = Position {
                    x: (cell.0 * UNIT) as i64,
                    y: self.position.y,
                    z: (cell.1 * UNIT) as i64,
                };
                let next = move_towards_spec(self.position, goal, self.stride(dt));
                let arrived = magnitude(next.x - goal.x) <= ARRIVAL && magnitude(next.z - goal.z)
                    <= ARRIVAL;
                Creep {
                    position: next,
                    movement: Movement {
                        destination: if arrived {
                            (self.movement.destination + 1) as usize
                        } else {
                            self.movement.destination
                        },
                        ..self.movement
                    },
                    ..self
                }
            },
        }
    }

    /// The notice that the creep `entity` has walked off the end of its
    /// route, with the life it has left.
    pub open spec fn leak(self, entity: Entity) -> Option<Death> {
        if self.goal() is None {
            Some(Death { remaining_life: Some(self.life.0), entity })
        } else {
            None
        }
    }

    /// Lets the creep walk for `dt` milliseconds, or reports that it has
    /// walked off the end of its route.
    pub fn advance(&mut self, dt: u32, entity: Entity) -> (leak: Option<Death>)
        requires
            old(self).position.in_world(),
        ensures
            *final(self) == old(self).moved(dt),
            leak == old(self).leak(entity),
            final(self).position.in_world(),
    {
        if self.movement.destination < self.movement.route.len() {
            let cell = self.movement.route[self.movement.destination];
            let goal = Position {
                x: cell.0 as i64 * UNIT,
                y: self.position.y,
                z: cell.1 as i64 * UNIT,
            };
            assert(self.speed.total_spec() * dt <= u64::MAX) by (nonlinear_arith)
                requires
                    0 <= self.speed.total_spec() <= u32::MAX,
                    0 <= dt <= u32::MAX,
            ;
            let stride: u64 = self.speed.total() as u64 * dt as u64 / 1000;
            let next = move_towards(self.position, goal, stride);
            self.position = next;
            if abs_diff(next.x, goal.x) <= ARRIVAL && abs_diff(next.z, goal.z) <= ARRIVAL {
                self.movement.destination += 1;
            }
            None
        } else {
            Some(Death { remaining_life: Some(self.life.0), entity })
        }
    }
}

/// The notices of the creeps among the first `n` units that have walked off
/// the end of their routes, in the order of the units.
pub open spec fn leaks(units: Seq<Unit>, n: nat) -> Seq<Death>
    decreases n,
{
    if n == 0 {
        Seq::empty()
    } else {
        let before = leaks(units, (n - 1) as nat);
        match units[n - 1] {
            Unit::Creep(creep) => match creep.leak(Entity((n - 1) as usize)) {
                Some(death) => before.push(death),
                None => before,
            },
            _ => before,
        }
    }
}

/// The units after every creep has walked for `dt` milliseconds.
pub open spec fn walked(units: Seq<Unit>, dt: u32) -> Seq<Unit> {
    Seq::new(units.len(), |i: int| Unit::on_creep(units[i], |c: Creep| c.moved(dt)))
}

/// Lets every creep walk for `dt` milliseconds and records those that have
/// walked off the end of their routes.
pub fn moving(dt: u32, units: &mut Vec<Unit>, ew: &mut Vec<Death>)
    requires
        units_in_world(old(units)@),
    ensures
        final(units)@ == walked(old(units)@, dt),
        final(ew)@ == old(ew)@ + leaks(old(units)@, old(units)@.len()),
        units_in_world(final(units)@),
{
    let n = units.len();
    let mut i: usize = 0;
    assert(ew@ =~= old(ew)@ + leaks(old(units)@, 0));
    while i < n
        invariant
            i <= n,
            n == units@.len(),
            n == old(units)@.len(),
            units_in_world(units@),
            forall|j: int|
                0 <= j < i ==> units@[j] == Unit::on_creep(
                    old(units)@[j],
                    |c: Creep| c.moved(dt),
                ),
            forall|j: int| i <= j < n ==> units@[j] == old(units)@[j],
            ew@ == old(ew)@ + leaks(old(units)@, i as nat),
        decreases n - i,
    {
        let ghost before = units@;
        assert(before[i as int].in_world());
        match &mut units[i] {
            Unit::Creep(creep) => {
                match creep.advance(dt, Entity(i)) {
                    Some(death) => {
                        ew.push(death);
                    },
                    None => {},
                }
            },
            _ => {},
        }
        proof {
            assert(ew@ =~= old(ew)@ + leaks(old(units)@, (i + 1) as nat));
            assert forall|j: int| 0 <= j < n implies (#[trigger] units@[j]).in_world() by {
                if j != i {
                    assert(units@[j] == before[j]);
                }
            }
        }
        i += 1;
    }
    assert(units@ =~= walked(old(units)@, dt));
}

/// How many of the first `n` units are creeps.
pub open spec fn live_creeps(units: Seq<Unit>, n: nat) -> nat
    decreases n,
{
    if n == 0 {
        0
    } else {
        live_creeps(units, (n - 1) as nat) + (if units[n - 1] is Creep {
            1nat
        } else {
            0nat
        })
    }
}

/// One of `deaths` is that of the unit at place `i`.
pub open spec fn is_dead(deaths: Seq<Death>, i: int) -> bool {
    exists|k: int| 0 <= k < deaths.len() && (#[trigger] deaths[k]).entity.0 == i
}

/// The units without those that `deaths` names: their places are vacant.
pub open spec fn buried(units: Seq<Unit>, deaths: Seq<Death>) -> Seq<Unit> {
    Seq::new(
        units.len(),
        |i: int|
            if is_dead(deaths, i) {
                Unit::Vacant
            } else {
                units[i]
            },
    )
}

/// The round is over: creeps have left the game in this tick, at least as
/// many as there were.
pub open spec fn round_over(units: Seq<Unit>, deaths: Seq<Death>) -> bool {
    deaths.len() > 0 && live_creeps(units, units.len()) <= deaths.len()
}

/// Counts the creeps among the units.
pub fn count_creeps(units: &Vec<Unit>) -> (count: usize)
    ensures
        count == live_creeps(units@, units@.len()),
{
    let mut count: usize = 0;
    let mut i: usize = 0;
    while i < units.len()
        invariant
            i <= units.len(),
            count == live_creeps(units@, i as nat),
            count <= i,
        decreases units.len() - i,
    {
        match &units[i] {
            Unit::Creep(_) => {
                count += 1;
            },
            _ => {},
        }
        i += 1;
    }
    count
}

/// Removes every unit that the deaths of this tick name, and asks for the
/// building to begin once the last creeps have left the game.
pub fn death(er: &Vec<Death>, units: &mut Vec<Unit>, level_state: &mut State)
    ensures
        final(units)@ == buried(old(units)@, er@),
        *final(level_state) == (if round_over(old(units)@, er@) {
            old(level_state).requested(LevelState::Building)
        } else {
            *old(level_state)
        }),
        old(level_state).wf() ==> final(level_state).wf(),
        units_in_world(old(units)@) ==> units_in_world(final(units)@),
{
    let creeps = count_creeps(units);
    let n = units.len();
    let mut k: usize = 0;
    while k < er.len()
        invariant
            k <= er.len(),
            n == units@.len(),
            n == old(units)@.len(),
            units@ == buried(old(units)@, er@.take(k as int)),
        decreases er.len() - k,
    {
        let entity = er[k].entity;
        if entity.0 < n {
            units[entity.0] = Unit::Vacant;
        }
        proof {
            let so_far = er@.take(k as int);
            let then = er@.take(k + 1);
            assert forall|i: int| is_dead(then, i) == (is_dead(so_far, i) || i == entity.0) by {
                if is_dead(so_far, i) {
                    let j = choose|j: int| 0 <= j < so_far.len() && (#[trigger] so_far[j]).entity.0
                        == i;
                    assert(then[j].entity.0 == i);
                }
                if i == entity.0 {
                    assert(then[k as int].entity.0 == i);
                }
                if is_dead(then, i) {
                    let j = choose|j: int| 0 <= j < then.len() && (#[trigger] then[j]).entity.0
                        == i;
                    if j < k {
                        assert(so_far[j].entity.0 == i);
                    }
                }
            }
            assert(units@ =~= buried(old(units)@, then));
        }
        k += 1;
    }
    proof {
        assert(er@.take(er@.len() as int) =~= er@);
        if units_in_world(old(units)@) {
            assert forall|j: int| 0 <= j < n implies (#[trigger] units@[j]).in_world() by {
                assert(old(units)@[j].in_world());
            }
        }
    }
    if er.len() > 0 && creeps <= er.len() {
        let _ = level_state.set(LevelState::Building);
    }
}

/// Slowing a creep and then lifting the same slow leaves its speed as it
/// was, whenever the sum of the slows fits the field.
pub proof fn lemma_reduce_then_increase(speed: Speed, modifier: u32)
    requires
        speed.modifier + modifier <= u32::MAX,
    ensures
        speed.reduced(modifier).increased(modifier) == speed,
        speed.reduced(modifier).increased(modifier).total_spec() == speed.total_spec(),
{
}

/// A stronger slow never makes a creep faster.
pub proof fn lemma_slow_is_monotonic(speed: Speed, more: u32)
    requires
        speed.modifier <= more,
    ensures
        (Speed { modifier: more, ..speed }).total_spec() <= speed.total_spec(),
        speed.min <= speed.total_spec(),
{
    assert(speed.base * speed.modifier <= speed.base * more) by (nonlinear_arith)
        requires
            speed.modifier <= more,
            0 <= speed.base,
    ;
    vstd::arithmetic::div_mod::lemma_div_is_ordered(
        speed.base * speed.modifier,
        speed.base * more,
        100,
    );
}

/// Walking changes nothing about the effects on a creep, and a creep never
/// turns back to an earlier cell of its route.
pub proof fn lemma_walking_keeps_effects(creep: Creep, dt: u32)
    ensures
        creep.moved(dt).slows_paired() == creep.slows_paired(),
        creep.moved(dt).life == creep.life,
        creep.moved(dt).movement.destination >= creep.movement.destination,
        creep.moved(dt).movement.route@ == creep.movement.route@,
{
    vstd::std_specs::vec::axiom_spec_len(&creep.movement.route);
}

} // verus!
