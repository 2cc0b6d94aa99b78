//! The units of a game and the order in which the rules act on them.

use vstd::prelude::*;
use crate::abilities::aura::{all_seen, gifts_given, Auras};
use crate::abilities::{splash, splashed, Splash};
use crate::buffs::buffs_applied;
use crate::buffs;
use crate::creeps::hits::{fair, hits_resolved, projectile_hit, Battle, HitRolls};
use crate::creeps::spawning::{
    is_spawned_unit, spawn, spawn_points, spawner_ticked, start_spawn, Spawner,
};
use crate::creeps::{buried, death, leaks, moving, round_over, walked, Creep, Death};
use crate::grid::{with_slots, Grid, Slot};
use crate::level_1::map::{blocked_cells, build_grid};
use crate::level_1::{all_decided, build_five, choose_one, counted, LevelState, State};
use crate::math_utils::Position;
use crate::towers::attacking::{attack, attacked_all};
use crate::towers::construction::{
    build_gem, built, choose_gem, chosen, is_revealed_unit, reveal_gems,
};
use crate::towers::emerald::{poisoned_deaths, poisons_applied, poisons_ticked, Poison};
use crate::towers::projectiles::{flown_all, hits_after, move_projectile};
use crate::towers::sapphire::{slows_applied, slows_ticked, Slowed};
use crate::towers::targeting::{pick_target, retargeted_all};
use crate::towers::{BuildGem, Building, ChooseGem, ProjectileHit, Shot};
use crate::workarounds::clear_input_events;

verus! {

/// One place in the list of units. A unit keeps its place for as long as it
/// exists, and the place stays vacant once it is gone.
pub enum Unit {
    Vacant,
    Spawner(Spawner),
    Creep(Creep),
    Building(Building),
    Shot(Shot),
    Splash(Splash),
}

impl Unit {
    /// `unit` with `change` made to it if it is a creep.
    pub open spec fn on_creep(unit: Unit, change: spec_fn(Creep) -> Creep) -> Unit {
        match unit {
            Unit::Creep(creep) => Unit::Creep(change(creep)),
            other => other,
        }
    }

    /// `unit` with `change` made to it if it is a building.
    pub open spec fn on_building(unit: Unit, change: spec_fn(Building) -> Building) -> Unit {
        match unit {
            Unit::Building(building) => Unit::Building(change(building)),
            other => other,
        }
    }

    /// Where the unit is, if there is one.
    pub open spec fn position(self) -> Option<Position> {
        match self {
            Unit::Vacant => None,
            Unit::Spawner(spawner) => Some(spawner.position),
            Unit::Creep(creep) => Some(creep.position),
            Unit::Building(building) => Some(building.position),
            Unit::Shot(shot) => Some(shot.position),
            Unit::Splash(splash) => Some(splash.position),
        }
    }

    /// The unit is nowhere or inside the world.
    pub open spec fn in_world(self) -> bool {
        match self.position() {
            Some(position) => position.in_world(),
            None => true,
        }
    }
}

/// Every unit is inside the world.
pub open spec fn units_in_world(units: Seq<Unit>) -> bool {
    forall|i: int| 0 <= i < units.len() ==> (#[trigger] units[i]).in_world()
}

/// Whether every unit is inside the world.
pub fn all_in_world(units: &Vec<Unit>) -> (inside: bool)
    ensures
        inside == units_in_world(units@),
{
    let mut i: usize = 0;
    while i < units.len()
        invariant
            i <= units.len(),
            forall|j: int| 0 <= j < i ==> (#[trigger] units@[j]).in_world(),
        decreases units.len() - i,
    {
        let inside = match &units[i] {
            Unit::Vacant => true,
            Unit::Spawner(spawner) => spawner.position.is_in_world(),
            Unit::Creep(creep) => creep.position.is_in_world(),
            Unit::Building(building) => building.position.is_in_world(),
            Unit::Shot(shot) => shot.position.is_in_world(),
            Unit::Splash(splash) => splash.position.is_in_world(),
        };
        if !inside {
            return false;
        }
        i += 1;
    }
    true
}

/// What a tower sees of a creep.
pub struct Sight {
    pub position: Position,
    pub kind: crate::creeps::Type,
}

/// What a tower sees of a unit: something if it is a creep.
pub open spec fn sight(unit: Unit) -> Option<Sight> {
    match unit {
        Unit::Creep(creep) => Some(Sight { position: creep.position, kind: creep.kind }),
        _ => None,
    }
}

/// What a tower sees of each unit.
pub open spec fn sights(units: Seq<Unit>) -> Seq<Option<Sight>> {
    Seq::new(units.len(), |i: int| sight(units[i]))
}

/// A tower stands at the unit's place.
pub open spec fn is_tower(unit: Unit) -> bool {
    match unit {
        Unit::Building(building) => building.tower is Some,
        _ => false,
    }
}

/// Where among the units the towers stand.
pub open spec fn towers(units: Seq<Unit>) -> Seq<bool> {
    Seq::new(units.len(), |i: int| is_tower(units[i]))
}

/// A game: the units, the grid on which the buildings stand, the part of
/// the round that it is in, and the requests of the player that wait for the
/// next tick.
pub struct World {
    pub level_state: State,
    /// The round, which decides the creeps that come.
    pub level: u32,
    pub grid: Grid,
    pub units: Vec<Unit>,
    /// Buildings that were placed in this round.
    pub gem_count: u32,
    pub build_events: Vec<BuildGem>,
    pub choose_events: Vec<ChooseGem>,
}

/// A game as plain values.
pub struct WorldView {
    pub level_state: State,
    pub level: u32,
    pub slots: Map<(i32, i32), Slot>,
    pub units: Seq<Unit>,
    pub gem_count: u32,
    pub build_events: Seq<BuildGem>,
    pub choose_events: Seq<ChooseGem>,
}

impl View for World {
    type V = WorldView;

    open spec fn view(&self) -> WorldView {
        WorldView {
            level_state: self.level_state,
            level: self.level,
            slots: self.grid@,
            units: self.units@,
            gem_count: self.gem_count,
            build_events: self.build_events@,
            choose_events: self.choose_events@,
        }
    }
}

/// The units after the rules that hold in every part of a round: the auras
/// reach the towers, from new towers and to new towers, and no tower is new
/// any more; the buffs are put on the attack speeds.
pub open spec fn aura_pass(units: Seq<Unit>) -> Seq<Unit> {
    buffs_applied(all_seen(gifts_given(gifts_given(units, true, false), false, true)))
}

/// The units after a tick outside the spawning: the auras reach the towers,
/// the shots fly, and the splashes go off. Nothing comes of the hits and the
/// deaths of such a tick.
pub open spec fn idled(units: Seq<Unit>, dt: u32) -> Seq<Unit> {
    let flown = flown_all(aura_pass(units), dt);
    splashed(flown, Seq::empty(), flown.len()).0
}

/// The units and the deaths after a tick of fighting that began with the
/// units `spawned` and in which the hits rolled `rolls`. In this order: the
/// creeps walk; the slows and the poisons are put on them and run; the auras
/// reach the towers; the towers aim and shoot; the shots fly; the hits are
/// resolved; the splashes go off.
pub open spec fn fought(spawned: Seq<Unit>, rolls: Seq<HitRolls>, dt: u32) -> (
    Seq<Unit>,
    Seq<Death>,
) {
    let walked = walked(spawned, dt);
    let leaked = leaks(spawned, spawned.len());
    let slowed = slows_ticked(slows_applied(walked), dt);
    let poisoned = poisons_applied(slowed);
    let bitten = poisons_ticked(poisoned, dt);
    let died = poisoned_deaths(poisoned, dt, leaked, poisoned.len());
    let aimed = retargeted_all(aura_pass(bitten));
    let shot = attacked_all(aimed, dt);
    let flown = flown_all(shot, dt);
    let hits = hits_after(shot, dt, Seq::empty(), shot.len());
    let battle = hits_resolved(
        Battle { units: flown, splashes: Seq::empty(), deaths: died },
        hits,
        rolls,
        hits.len(),
    );
    let left = battle.units + battle.splashes;
    splashed(left, battle.deaths, left.len())
}

/// The hits of a tick of fighting that began with the units `spawned`.
pub open spec fn hits_of(spawned: Seq<Unit>, dt: u32) -> Seq<ProjectileHit> {
    let bitten = poisons_ticked(
        poisons_applied(slows_ticked(slows_applied(walked(spawned, dt)), dt)),
        dt,
    );
    let shot = attacked_all(retargeted_all(aura_pass(bitten)), dt);
    hits_after(shot, dt, Seq::empty(), shot.len())
}

/// `spawned` is what the spawners make of `units` in `dt` milliseconds: each
/// spawner has ticked, and behind the units stands one new creep for each
/// spawner that has fired, in their order.
pub open spec fn is_spawn_of(
    spawned: Seq<Unit>,
    units: Seq<Unit>,
    slots: Map<(i32, i32), Slot>,
    level: u32,
    dt: u32,
) -> bool {
    let points = spawn_points(units, dt, units.len());
    &&& spawned.len() == units.len() + points.len()
    &&& forall|i: int| 0 <= i < units.len() ==> spawned[i] == spawner_ticked(units[i], dt)
    &&& forall|k: int|
        0 <= k < points.len() ==> is_spawned_unit(
            #[trigger] spawned[units.len() + k],
            slots,
            points[k],
            level,
        )
}

/// `entered` is what the units `units` are once the state `state` has been
/// entered: on entering the choosing every undecided building has become a
/// tower; on entering the spawning a spawner has been added; otherwise they
/// are as they were.
pub open spec fn is_entry_of(entered: Seq<Unit>, units: Seq<Unit>, state: Option<LevelState>)
    -> bool {
    match state {
        Some(LevelState::Choosing) => {
            &&& entered.len() == units.len()
            &&& forall|i: int|
                0 <= i < units.len() ==> is_revealed_unit(#[trigger] entered[i], units[i])
        },
        Some(LevelState::Spawning) => entered == units.push(Unit::Spawner(Spawner::fresh())),
        _ => entered == units,
    }
}

/// A count of buildings as the counter takes it.
pub open spec fn as_count(n: int) -> u32 {
    if n > u32::MAX {
        u32::MAX
    } else if n < 0 {
        0
    } else {
        n as u32
    }
}

impl WorldView {
    /// The game after a tick of `dt` milliseconds in which entering the
    /// state that was waiting made `entered` of the units, the spawners made
    /// `spawned` of those, and the hits rolled `rolls`.
    ///
    /// First the state that waits is entered; entering the choosing drops
    /// the requests of the player. Then the rules of the state act. While
    /// building, the requests to build are served and the new buildings are
    /// counted. While choosing, the choices are served, and the spawning is
    /// asked for once every building is decided. While spawning, the units
    /// fight, the dead and those that have walked off leave, and the
    /// building is asked for once the last creeps have left. At the end no
    /// request of the player is left.
    pub open spec fn ticked(
        self,
        entered: Seq<Unit>,
        spawned: Seq<Unit>,
        rolls: Seq<HitRolls>,
        dt: u32,
    ) -> WorldView {
        let state = self.level_state.applied();
        let fresh = self.level_state.queued == Some(LevelState::Choosing);
        let build_events = if fresh {
            Seq::empty()
        } else {
            self.build_events
        };
        let choose_events = if fresh {
            Seq::empty()
        } else {
            self.choose_events
        };
        match state.current {
            LevelState::Building => {
                let (slots, units) = built(self.slots, entered, build_events, build_events.len());
                let (level_state, gem_count) = counted(
                    state,
                    self.gem_count,
                    as_count(units.len() - entered.len()),
                );
                WorldView {
                    level_state,
                    slots,
                    units: idled(units, dt),
                    gem_count,
                    build_events: Seq::empty(),
                    choose_events: Seq::empty(),
                    ..self
                }
            },
            LevelState::Choosing => {
                let units = chosen(entered, self.slots, choose_events, choose_events.len());
                WorldView {
                    level_state: if all_decided(units) {
                        state.requested(LevelState::Spawning)
                    } else {
                        state
                    },
                    units: idled(units, dt),
                    build_events: Seq::empty(),
                    choose_events: Seq::empty(),
                    ..self
                }
            },
            LevelState::Spawning => {
                let (units, deaths) = fought(spawned, rolls, dt);
                WorldView {
                    level_state: if round_over(units, deaths) {
                        state.requested(LevelState::Building)
                    } else {
                        state
                    },
                    units: buried(units, deaths),
                    build_events: Seq::empty(),
                    choose_events: Seq::empty(),
                    ..self
                }
            },
        }
    }
}

/// Whatever happens in a tick, the game stays in its state or goes on to
/// the one that follows, and only the state that follows can wait to be
/// entered afterwards.
pub proof fn lemma_tick_never_skips_a_state(
    world: WorldView,
    entered: Seq<Unit>,
    spawned: Seq<Unit>,
    rolls: Seq<HitRolls>,
    dt: u32,
)
    requires
        world.level_state.wf(),
    ensures
        ({
            let after = world.ticked(entered, spawned, rolls, dt).level_state;
            &&& after.wf()
            &&& after.current == world.level_state.current || after.current
                == world.level_state.current.next_spec()
            &&& world.level_state.queued is None ==> after.current == world.level_state.current
        }),
{
}

/// No request of the player outlasts a tick.
pub proof fn lemma_requests_do_not_persist(
    world: WorldView,
    entered: Seq<Unit>,
    spawned: Seq<Unit>,
    rolls: Seq<HitRolls>,
    dt: u32,
)
    ensures
        world.ticked(entered, spawned, rolls, dt).build_events.len() == 0,
        world.ticked(entered, spawned, rolls, dt).choose_events.len() == 0,
{
}

/// Units that stand where other units stood, or nowhere, are in the world
/// if those were.
pub proof fn lemma_same_places(before: Seq<Unit>, after: Seq<Unit>)
    requires
        units_in_world(before),
        after.len() == before.len(),
        forall|i: int|
            0 <= i < before.len() ==> (#[trigger] after[i]).position() == before[i].position()
                || after[i].position() is None,
    ensures
        units_in_world(after),
{
    assert forall|i: int| 0 <= i < after.len() implies (#[trigger] after[i]).in_world() by {
        assert(before[i].in_world());
    }
}

fn pass_auras(units: &mut Vec<Unit>)
    requires
        units_in_world(old(units)@),
    ensures
        final(units)@ == aura_pass(old(units)@),
        units_in_world(final(units)@),
{
    Auras::apply_new_aura(units);
    Auras::apply_aura_to_new_tower(units);
    let ghost offered = units@;
    Auras::settle(units);
    let ghost settled = units@;
    proof {
        lemma_same_places(offered, settled);
    }
    buffs::AttackSpeed::apply(units);
    proof {
        lemma_same_places(settled, units@);
    }
}

fn idle(dt: u32, units: &mut Vec<Unit>)
    requires
        units_in_world(old(units)@),
    ensures
        final(units)@ == idled(old(units)@, dt),
        units_in_world(final(units)@),
{
    pass_auras(units);
    let mut hits: Vec<ProjectileHit> = Vec::new();
    move_projectile(dt, units, &mut hits);
    let mut deaths: Vec<Death> = Vec::new();
    splash(units, &mut deaths);
}

fn suffer(dt: u32, units: &mut Vec<Unit>, deaths: &mut Vec<Death>)
    requires
        units_in_world(old(units)@),
    ensures
        final(units)@ == poisons_ticked(
            poisons_applied(slows_ticked(slows_applied(old(units)@), dt)),
            dt,
        ),
        final(deaths)@ == poisoned_deaths(
            poisons_applied(slows_ticked(slows_applied(old(units)@), dt)),
            dt,
            old(deaths)@,
            old(units)@.len(),
        ),
        units_in_world(final(units)@),
{
    let ghost a = units@;
    Slowed::added(units);
    let ghost b = units@;
    Slowed::system(dt, units);
    let ghost c = units@;
    Poison::added(units);
    let ghost d = units@;
    Poison::system(dt, units, deaths);
    proof {
        lemma_same_places(a, b);
        lemma_same_places(b, c);
        lemma_same_places(c, d);
        lemma_same_places(d, units@);
    }
}

fn fight(dt: u32, units: &mut Vec<Unit>, deaths: &mut Vec<Death>)
    requires
        units_in_world(old(units)@),
        old(deaths)@.len() == 0,
    ensures
        exists|rolls: Seq<HitRolls>|
            {
                &&& rolls.len() == hits_of(old(units)@, dt).len()
                &&& fair(rolls)
                &&& (final(units)@, final(deaths)@) == #[trigger] fought(old(units)@, rolls, dt)
            },
        units_in_world(final(units)@),
{
    moving(dt, units, deaths);
    assert(deaths@ =~= leaks(old(units)@, old(units)@.len()));
    suffer(dt, units, deaths);
    pass_auras(units);
    pick_target(units);
    attack(dt, units);
    let mut hits: Vec<ProjectileHit> = Vec::new();
    move_projectile(dt, units, &mut hits);
    let ghost flown = units@;
    let ghost died = deaths@;
    projectile_hit(&hits, units, deaths);
    let ghost rolls = choose|rolls: Seq<HitRolls>|
        {
            &&& rolls.len() == hits@.len()
            &&& fair(rolls)
            &&& units@ == (#[trigger] hits_resolved(
                Battle { units: flown, splashes: Seq::empty(), deaths: died },
                hits@,
                rolls,
                hits@.len(),
            )).units + hits_resolved(
                Battle { units: flown, splashes: Seq::empty(), deaths: died },
                hits@,
                rolls,
                hits@.len(),
            ).splashes
            &&& deaths@ == hits_resolved(
                Battle { units: flown, splashes: Seq::empty(), deaths: died },
                hits@,
                rolls,
                hits@.len(),
            ).deaths
        };
    splash(units, deaths);
    assert((units@, deaths@) == fought(old(units)@, rolls, dt));
}

impl World {
    /// Every unit is inside the world, and the state that waits to be
    /// entered, if one does, is the one that follows.
    pub open spec fn wf(&self) -> bool {
        units_in_world(self.units@) && self.level_state.wf()
    }

    /// Whether the game is well formed, as [`World::tick`] needs it.
    pub fn is_wf(&self) -> (ok: bool)
        ensures
            ok == self.wf(),
    {
        let state_ok = match self.level_state.queued {
            Some(to) => to == self.level_state.current.next(),
            None => true,
        };
        state_ok && all_in_world(&self.units)
    }

    /// A game at the start of its first round: no units, the blocked cells
    /// of the map taken, and building begun.
    pub fn new() -> (world: World)
        ensures
            world@ == (WorldView {
                level_state: State { current: LevelState::Building, queued: None },
                level: 1,
                slots: with_slots(Map::empty(), blocked_cells(), Slot::Blocked),
                units: Seq::empty(),
                gem_count: 0,
                build_events: Seq::empty(),
                choose_events: Seq::empty(),
            }),
            world.wf(),
    {
        let mut grid = Grid::new();
        build_grid(&mut grid);
        World {
            level_state: State::new(LevelState::Building),
            level: 1,
            grid,
            units: Vec::new(),
            gem_count: 0,
            build_events: Vec::new(),
            choose_events: Vec::new(),
        }
    }

    /// Enters the state that waits to be entered, if one does.
    fn enter(&mut self) -> (entered: Option<LevelState>)
        requires
            old(self).wf(),
        ensures
            entered == old(self).level_state.queued,
            is_entry_of(final(self).units@, old(self).units@, entered),
            final(self)@ == (WorldView {
                level_state: old(self).level_state.applied(),
                units: final(self).units@,
                build_events: if entered == Some(LevelState::Choosing) {
                    Seq::empty()
                } else {
                    old(self).build_events@
                },
                choose_events: if entered == Some(LevelState::Choosing) {
                    Seq::empty()
                } else {
                    old(self).choose_events@
                },
                ..old(self)@
            }),
            final(self).wf(),
    {
        let entered = self.level_state.apply();
        match entered {
            Some(LevelState::Choosing) => {
                reveal_gems(&mut self.units);
                clear_input_events(&mut self.build_events, &mut self.choose_events);
            },
            Some(LevelState::Spawning) => {
                start_spawn(&mut self.units);
            },
            _ => {},
        }
        entered
    }

    /// Lets `dt` milliseconds pass: see [`WorldView::ticked`].
    pub fn tick(&mut self, dt: u32)
        requires
            old(self).wf(),
        ensures
            exists|entered: Seq<Unit>, spawned: Seq<Unit>, rolls: Seq<HitRolls>|
                {
                    &&& is_entry_of(entered, old(self).units@, old(self).level_state.queued)
                    &&& old(self).level_state.applied().current == LevelState::Spawning ==> {
                        &&& is_spawn_of(spawned, entered, old(self).grid@, old(self).level, dt)
                        &&& rolls.len() == hits_of(spawned, dt).len()
                        &&& fair(rolls)
                    }
                    &&& final(self)@ == #[trigger] old(self)@.ticked(entered, spawned, rolls, dt)
                },
            final(self).wf(),
    {
        let _ = self.enter();
        let ghost entered = self.units@;
        match self.level_state.current() {
            LevelState::Building => {
                let count = build_gem(&self.build_events, &mut self.grid, &mut self.units);
                let built: u32 = if count > u32::MAX as usize {
                    u32::MAX
                } else {
                    count as u32
                };
                build_five(&mut self.level_state, &mut self.gem_count, built);
                idle(dt, &mut self.units);
                self.build_events.clear();
                self.choose_events.clear();
                assert(self@ == old(self)@.ticked(entered, Seq::empty(), Seq::empty(), dt));
            },
            LevelState::Choosing => {
                choose_gem(&self.choose_events, &self.grid, &mut self.units);
                choose_one(&mut self.level_state, &self.units);
                idle(dt, &mut self.units);
                self.build_events.clear();
                self.choose_events.clear();
                assert(self@ == old(self)@.ticked(entered, Seq::empty(), Seq::empty(), dt));
            },
            LevelState::Spawning => {
                spawn(dt, self.level, &self.grid, &mut self.units);
                let ghost spawned = self.units@;
                let mut deaths: Vec<Death> = Vec::new();
                fight(dt, &mut self.units, &mut deaths);
                let ghost rolls = choose|rolls: Seq<HitRolls>|
                    {
                        &&& rolls.len() == hits_of(spawned, dt).len()
                        &&& fair(rolls)
                        &&& (self.units@, deaths@) == #[trigger] fought(spawned, rolls, dt)
                    };
                death(&deaths, &mut self.units, &mut self.level_state);
                self.build_events.clear();
                self.choose_events.clear();
                assert(self@ == old(self)@.ticked(entered, spawned, rolls, dt));
            },
        }
    }

    /// Asks for a building whose least corner is `pos`.
    pub fn send_build(&mut self, pos: (i32, i32))
        ensures
            final(self)@ == (WorldView {
                build_events: old(self)@.build_events.push(BuildGem { pos }),
                ..old(self)@
            }),
            old(self).wf() ==> final(self).wf(),
    {
        self.build_events.push(BuildGem { pos });
    }

    /// Asks to keep the gem that stands on the cell `pos`.
    pub fn send_choose(&mut self, pos: (i32, i32))
        ensures
            final(self)@ == (WorldView {
                choose_events: old(self)@.choose_events.push(ChooseGem { pos }),
                ..old(self)@
            }),
            old(self).wf() ==> final(self).wf(),
    {
        self.choose_events.push(ChooseGem { pos });
    }
}

} // verus!
