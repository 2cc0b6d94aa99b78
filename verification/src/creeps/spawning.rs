//! Spawners, and the creeps that they emit.

use vstd::prelude::*;
use crate::creeps::{Creep, CreepBundle, Life, Movement, Type};
use crate::grid::{clamped_i32, rounded_units, Grid, Slot};
use crate::level_1::map::{
    creep_kind, creep_life, creep_route, creep_route_spec, creep_speed, get_creep,
};
use crate::math_utils::Position;
use crate::path::{resolve, resolved};
use crate::timer::Timer;
use crate::world::{units_in_world, Unit};

verus! {

/// Creeps that a spawner emits.
pub const SPAWN_AMOUNT: u32 = 10;

/// Milliseconds between two creeps of a spawner.
pub const SPAWN_PERIOD: u32 = 1000;

/// Emits creeps, one each time its timer completes, until none is left.
#[derive(Clone, Copy, PartialEq, Eq, Structural, Debug)]
pub struct Spawner {
    pub position: Position,
    /// Creeps still to come.
    pub amount: u32,
    pub timer: Timer,
}

impl Spawner {
    /// The spawner as it is when the spawning begins.
    pub open spec fn fresh() -> Spawner {
        Spawner {
            position: Position { x: (-20000) as i64, y: 0, z: 2000 },
            amount: SPAWN_AMOUNT,
            timer: Timer {
                elapsed: 0,
                duration: SPAWN_PERIOD,
                repeating: true,
                finished: false,
                times_finished: 0,
            },
        }
    }

    /// The spawner emits a creep in the next `dt` milliseconds: its timer
    /// completes and it has creeps left.
    pub open spec fn fires(self, dt: u32) -> bool {
        self.timer.ticked(dt).just_finished_spec() && self.amount > 0
    }

    /// The spawner after `dt` milliseconds, or `None` when it has emitted its
    /// last creep.
    pub open spec fn ticked(self, dt: u32) -> Option<Spawner> {
        let timer = self.timer.ticked(dt);
        if !timer.just_finished_spec() {
            Some(Spawner { timer, ..self })
        } else if self.amount <= 1 {
            None
        } else {
            Some(Spawner { timer, amount: (self.amount - 1) as u32, ..self })
        }
    }
}

/// The unit after `dt` milliseconds if it is a spawner: its place is vacant
/// once it has emitted its last creep.
pub open spec fn spawner_ticked(unit: Unit, dt: u32) -> Unit {
    match unit {
        Unit::Spawner(spawner) => match spawner.ticked(dt) {
            Some(next) => Unit::Spawner(next),
            None => Unit::Vacant,
        },
        other => other,
    }
}

/// The places of the spawners among the first `n` units that emit a creep in
/// the next `dt` milliseconds, in the order of the units.
pub open spec fn spawn_points(units: Seq<Unit>, dt: u32, n: nat) -> Seq<Position>
    decreases n,
{
    if n == 0 {
        Seq::empty()
    } else {
        let before = spawn_points(units, dt, (n - 1) as nat);
        match units[n - 1] {
            Unit::Spawner(spawner) if spawner.fires(dt) => before.push(spawner.position),
            _ => before,
        }
    }
}

/// Half of a coordinate, rounded towards zero.
pub open spec fn half(v: int) -> int {
    if v >= 0 {
        v / 2
    } else {
        -((-v) / 2)
    }
}

/// The cell from which the creeps of a spawner at `at` set out: the cell of
/// the point half as far from the origin.
pub open spec fn spawn_cell(at: Position) -> (i32, i32) {
    (clamped_i32(rounded_units(half(at.x as int))), clamped_i32(rounded_units(half(at.z as int))))
}

/// The route of a creep of the round `level` that is spawned at `at`: for a
/// walking creep the resolved route from its first cell through the goals of
/// the map, or the goals themselves when one of them cannot be reached; for a
/// flying creep the goals themselves.
pub open spec fn spawn_route(slots: Map<(i32, i32), Slot>, at: Position, level: u32) -> Seq<
    (i32, i32),
> {
    let goals = seq![spawn_cell(at)] + creep_route_spec();
    if creep_kind(level) == Type::Ground {
        match resolved(slots, goals, goals.len()) {
            Some(route) => route,
            None => creep_route_spec(),
        }
    } else {
        creep_route_spec()
    }
}

/// `creep` is a creep of the round `level` as it is when it has just been
/// spawned at `at`.
pub open spec fn is_spawned(creep: Creep, slots: Map<(i32, i32), Slot>, at: Position, level: u32)
    -> bool {
    &&& creep.position == at
    &&& creep.life == Life(creep_life(level))
    &&& creep.speed == creep_speed()
    &&& creep.kind == creep_kind(level)
    &&& creep.movement.destination == 0
    &&& creep.movement.route@ == spawn_route(slots, at, level)
    &&& creep.slowed is None
    &&& !creep.slowed_added
    &&& creep.poison is None
    &&& !creep.poison_added
}

/// `unit` is a creep of the round `level` as it is when it has just been
/// spawned at `at`.
pub open spec fn is_spawned_unit(
    unit: Unit,
    slots: Map<(i32, i32), Slot>,
    at: Position,
    level: u32,
) -> bool {
    match unit {
        Unit::Creep(creep) => is_spawned(creep, slots, at, level),
        _ => false,
    }
}

/// Puts the spawner of a round among the units.
pub fn start_spawn(units: &mut Vec<Unit>)
    ensures
        final(units)@ == old(units)@.push(Unit::Spawner(Spawner::fresh())),
        units_in_world(old(units)@) ==> units_in_world(final(units)@),
{
    units.push(
        Unit::Spawner(
            Spawner {
                position: Position { x: -20000, y: 0, z: 2000 },
                amount: SPAWN_AMOUNT,
                timer: Timer::new(SPAWN_PERIOD, true),
            },
        ),
    );
}

fn halve(v: i64) -> (h: i64)
    requires
        v > i64::MIN,
    ensures
        h == half(v as int),
{
    if v >= 0 {
        v / 2
    } else {
        -((-v) / 2)
    }
}

/// The creep of the round `level` that sets out from `at`.
pub fn spawn_creep(level: u32, grid: &Grid, at: Position) -> (creep: Creep)
    requires
        at.in_world(),
    ensures
        is_spawned(creep, grid@, at, level),
{
    let bundle = get_creep(level);
    let CreepBundle { life, movement, speed, kind } = bundle;
    let mut route = movement.route;
    match kind {
        Type::Ground => {
            let first = Grid::to_grid_pos(
                Position { x: halve(at.x), y: halve(at.y), z: halve(at.z) },
            );
            let mut goals: Vec<(i32, i32)> = Vec::new();
            goals.push(first);
            goals.append(&mut route);
            assert(goals@ =~= seq![spawn_cell(at)] + creep_route_spec());
            match resolve(grid, goals.as_slice()) {
                Some(found) => {
                    route = found;
                },
                None => {
                    route = creep_route();
                },
            }
        },
        Type::Flying => {},
    }
    Creep {
        position: at,
        life,
        movement: Movement { route, destination: 0 },
        speed,
        kind,
        slowed: None,
        slowed_added: false,
        poison: None,
        poison_added: false,
    }
}

/// Lets `dt` milliseconds pass for every spawner. A spawner whose timer
/// completes emits one creep of the round `level` where it stands, and is
/// gone once it has emitted its last.
pub fn spawn(dt: u32, level: u32, grid: &Grid, units: &mut Vec<Unit>)
    requires
        units_in_world(old(units)@),
    ensures
        final(units)@.len() == old(units)@.len() + spawn_points(
            old(units)@,
            dt,
            old(units)@.len(),
        ).len(),
        forall|i: int|
            0 <= i < old(units)@.len() ==> final(units)@[i] == spawner_ticked(old(units)@[i], dt),
        forall|k: int|
            0 <= k < spawn_points(old(units)@, dt, old(units)@.len()).len() ==> is_spawned_unit(
                #[trigger] final(units)@[old(units)@.len() + k],
                grid@,
                spawn_points(old(units)@, dt, old(units)@.len())[k],
                level,
            ),
        units_in_world(final(units)@),
{
    let n = units.len();
    let mut i: usize = 0;
    while i < n
        invariant
            i <= n,
            n == old(units)@.len(),
            units_in_world(old(units)@),
            units@.len() == n + spawn_points(old(units)@, dt, i as nat).len(),
            forall|j: int| 0 <= j < i ==> units@[j] == spawner_ticked(old(units)@[j], dt),
            forall|j: int| i <= j < n ==> units@[j] == old(units)@[j],
            forall|k: int|
                0 <= k < spawn_points(old(units)@, dt, i as nat).len() ==> is_spawned_unit(
                    #[trigger] units@[n + k],
                    grid@,
                    spawn_points(old(units)@, dt, i as nat)[k],
                    level,
                ),
            units_in_world(units@),
        decreases n - i,
    {
        let ghost before = units@;
        let ghost points = spawn_points(old(units)@, dt, i as nat);
        let mut emit: Option<Position> = None;
        let mut gone = false;
        match &mut units[i] {
            Unit::Spawner(spawner) => {
                spawner.timer.tick(dt);
                if spawner.timer.just_finished() {
                    if spawner.amount > 0 {
                        emit = Some(spawner.position);
                        spawner.amount -= 1;
                    }
                    gone = spawner.amount == 0;
                }
            },
            _ => {},
        }
        if gone {
            units[i] = Unit::Vacant;
        }
        assert(units@[i as int] == spawner_ticked(old(units)@[i as int], dt));
        assert(old(units)@[i as int].in_world());
        match emit {
            Some(at) => {
                let creep = spawn_creep(level, grid, at);
                units.push(Unit::Creep(creep));
            },
            None => {},
        }
        proof {
            let after = spawn_points(old(units)@, dt, (i + 1) as nat);
            assert forall|k: int| 0 <= k < after.len() implies is_spawned_unit(
                #[trigger] units@[n + k],
                grid@,
                after[k],
                level,
            ) by {
                if k < points.len() {
                    assert(units@[n + k] == before[n + k]);
                }
            }
            assert forall|j: int| 0 <= j < units@.len() implies (#[trigger] units@[j]).in_world() by {
                if j < before.len() && j != i {
                    assert(units@[j] == before[j]);
                }
            }
        }
        i += 1;
    }
}

/// The spawner after `k` ticks of `dt` milliseconds each, or `None` once it
/// has emitted its last creep.
pub open spec fn spawner_after(spawner: Spawner, dt: u32, k: nat) -> Option<Spawner>
    decreases k,
{
    if k == 0 {
        Some(spawner)
    } else {
        match spawner_after(spawner, dt, (k - 1) as nat) {
            Some(before) => before.ticked(dt),
            None => None,
        }
    }
}

/// How many creeps the spawner emits in `k` ticks of `dt` milliseconds each.
pub open spec fn emitted(spawner: Spawner, dt: u32, k: nat) -> nat
    decreases k,
{
    if k == 0 {
        0
    } else {
        emitted(spawner, dt, (k - 1) as nat) + (match spawner_after(spawner, dt, (k - 1) as nat) {
            Some(before) if before.fires(dt) => 1nat,
            _ => 0nat,
        })
    }
}

/// A spawner whose timer is at zero and lasts as long as a tick emits one
/// creep in each tick until none is left, and is gone with the tick in
/// which it emits its last.
pub proof fn lemma_spawner_counts_down(spawner: Spawner, dt: u32, k: nat)
    requires
        spawner.timer.repeating,
        spawner.timer.elapsed == 0,
        spawner.timer.duration == dt,
        dt > 0,
        spawner.amount > 0,
    ensures
        emitted(spawner, dt, k) == (if k <= spawner.amount {
            k
        } else {
            spawner.amount as nat
        }),
        k >= spawner.amount ==> spawner_after(spawner, dt, k) is None,
        k < spawner.amount ==> match spawner_after(spawner, dt, k) {
            Some(after) => {
                &&& after.amount == spawner.amount - k
                &&& after.position == spawner.position
                &&& after.timer.repeating
                &&& after.timer.elapsed == 0
                &&& after.timer.duration == dt
            },
            None => false,
        },
    decreases k,
{
    if k > 0 {
        lemma_spawner_counts_down(spawner, dt, (k - 1) as nat);
        if k - 1 < spawner.amount {
            let before = spawner_after(spawner, dt, (k - 1) as nat).unwrap();
            assert((0 + dt) % (dt as int) == 0) by {
                vstd::arithmetic::div_mod::lemma_mod_self_0(dt as int);
            }
            assert((0 + dt) / (dt as int) == 1) by {
                vstd::arithmetic::div_mod::lemma_div_basics(dt as int);
            }
            assert(before.timer.ticked(dt).just_finished_spec());
            assert(before.timer.ticked(dt).elapsed == 0);
        }
    }
}

} // verus!
