//! The round: building, choosing, spawning, and building again.

use vstd::prelude::*;
use crate::world::Unit;

pub mod assets;
pub mod map;

verus! {

/// Towers are placed until this many stand, then one of them is chosen.
pub const GEMS_PER_ROUND: u32 = 5;

/// The part of a round that the game is in.
#[derive(Clone, Copy, PartialEq, Eq, Structural, Debug, Hash)]
pub enum LevelState {
    Building,
    Choosing,
    Spawning,
}

/// Why a change of state was not accepted.
#[derive(Clone, Copy, PartialEq, Eq, Structural, Debug)]
pub enum StateError {
    /// The game is in that state already.
    AlreadyInState,
    /// Another change waits to be made.
    StateAlreadyQueued,
    /// The state is not the one that follows the current one.
    NotNext,
}

/// The current state and the change that waits to be made, if one does.
#[derive(Clone, Copy, PartialEq, Eq, Structural, Debug)]
pub struct State {
    pub current: LevelState,
    pub queued: Option<LevelState>,
}

impl LevelState {
    /// The state that follows this one.
    pub open spec fn next_spec(self) -> LevelState {
        match self {
            LevelState::Building => LevelState::Choosing,
            LevelState::Choosing => LevelState::Spawning,
            LevelState::Spawning => LevelState::Building,
        }
    }

    /// The state that follows this one.
    pub fn next(&self) -> (next: LevelState)
        ensures
            next == self.next_spec(),
    {
        match self {
            LevelState::Building => LevelState::Choosing,
            LevelState::Choosing => LevelState::Spawning,
            LevelState::Spawning => LevelState::Building,
        }
    }
}

impl State {
    /// Why the change to `to` is not accepted, if it is not.
    pub open spec fn refusal(self, to: LevelState) -> Option<StateError> {
        if self.current == to {
            Some(StateError::AlreadyInState)
        } else if self.queued is Some {
            Some(StateError::StateAlreadyQueued)
        } else if to != self.current.next_spec() {
            Some(StateError::NotNext)
        } else {
            None
        }
    }

    /// The state after a request to change to `to`: the change waits to be
    /// made if it is accepted, and nothing has happened if it is not.
    pub open spec fn requested(self, to: LevelState) -> State {
        if self.refusal(to) is None {
            State { queued: Some(to), ..self }
        } else {
            self
        }
    }

    /// The state once the change that waited has been made.
    pub open spec fn applied(self) -> State {
        match self.queued {
            Some(to) => State { current: to, queued: None },
            None => self,
        }
    }

    /// Only the state that follows the current one can wait to be entered.
    pub open spec fn wf(self) -> bool {
        match self.queued {
            Some(to) => to == self.current.next_spec(),
            None => true,
        }
    }

    /// A game in the given state, with no change waiting.
    pub fn new(current: LevelState) -> (state: State)
        ensures
            state == (State { current, queued: None }),
            state.wf(),
    {
        State { current, queued: None }
    }

    /// The state that the game is in.
    pub fn current(&self) -> (current: LevelState)
        ensures
            current == self.current,
    {
        self.current
    }

    /// Asks for a change to the state `to`. The change is made by the next
    /// call of [`State::apply`].
    pub fn set(&mut self, to: LevelState) -> (done: Result<(), StateError>)
        ensures
            done == (match old(self).refusal(to) {
                Some(error) => Err::<(), StateError>(error),
                None => Ok(()),
            }),
            *final(self) == old(self).requested(to),
            old(self).wf() ==> final(self).wf(),
    {
        if self.current == to {
            Err(StateError::AlreadyInState)
        } else if self.queued.is_some() {
            Err(StateError::StateAlreadyQueued)
        } else if to != self.current.next() {
            Err(StateError::NotNext)
        } else {
            self.queued = Some(to);
            Ok(())
        }
    }

    /// Makes the change that waits, and returns the state that was entered.
    pub fn apply(&mut self) -> (entered: Option<LevelState>)
        ensures
            entered == old(self).queued,
            *final(self) == old(self).applied(),
            final(self).wf(),
    {
        match self.queued {
            Some(to) => {
                self.current = to;
                self.queued = None;
                Some(to)
            },
            None => None,
        }
    }
}

/// Whatever is asked of it, the game stays in its state or goes on to the
/// one that follows: it never skips a state.
pub proof fn lemma_never_skips_a_state(state: State, to: LevelState)
    requires
        state.wf(),
    ensures
        state.requested(to).applied().current == state.applied().current || (state.queued is None
            && state.requested(to).applied().current == state.current.next_spec()),
        state.applied().current == state.current || state.applied().current
            == state.current.next_spec(),
{
}

/// The count of new towers after `built` more were placed, and the state
/// with it: at [`GEMS_PER_ROUND`] the game is asked to go on to choosing and
/// the count starts over.
pub open spec fn counted(state: State, gem_count: u32, built: u32) -> (State, u32) {
    let total = if gem_count + built > u32::MAX {
        u32::MAX
    } else {
        (gem_count + built) as u32
    };
    if total >= GEMS_PER_ROUND {
        (state.requested(LevelState::Choosing), 0u32)
    } else {
        (state, total)
    }
}

/// Counts the towers placed since the last call, `built` of them, and asks
/// for the choosing once enough stand.
pub fn build_five(level_state: &mut State, gem_count: &mut u32, built: u32)
    ensures
        (*final(level_state), *final(gem_count)) == counted(
            *old(level_state),
            *old(gem_count),
            built,
        ),
        old(level_state).wf() ==> final(level_state).wf(),
{
    *gem_count = gem_count.saturating_add(built);
    if *gem_count >= GEMS_PER_ROUND {
        let _ = level_state.set(LevelState::Choosing);
        *gem_count = 0;
    }
}

/// None of the units is a building that is still undecided.
pub open spec fn all_decided(units: Seq<Unit>) -> bool {
    forall|i: int|
        0 <= i < units.len() ==> !((#[trigger] units[i]) matches Unit::Building(building)
            && building.just_built is Some)
}

/// Asks for the spawning once no building is undecided any more.
pub fn choose_one(level_state: &mut State, units: &Vec<Unit>)
    ensures
        *final(level_state) == (if all_decided(units@) {
            old(level_state).requested(LevelState::Spawning)
        } else {
            *old(level_state)
        }),
        old(level_state).wf() ==> final(level_state).wf(),
{
    let mut i: usize = 0;
    while i < units.len()
        invariant
            i <= units.len(),
            all_decided(units@.take(i as int)),
        decreases units.len() - i,
    {
        match &units[i] {
            Unit::Building(building) => {
                if building.just_built.is_some() {
                    return ;
                }
            },
            _ => {},
        }
        assert forall|j: int| 0 <= j < i + 1 implies !((#[trigger] units@.take(i + 1)[j])
            matches Unit::Building(building) && building.just_built is Some) by {
            if j < i {
                assert(units@.take(i as int)[j] == units@[j]);
            }
        }
        i += 1;
    }
    assert(units@.take(units@.len() as int) =~= units@);
    let _ = level_state.set(LevelState::Spawning);
}

/// While building, with no change waiting, the building that brings the
/// count to [`GEMS_PER_ROUND`] makes the game ask for the choosing, and no
/// building before it does.
pub proof fn lemma_enough_gems_ask_for_choosing(state: State, gem_count: u32, built: u32)
    requires
        state.current == LevelState::Building,
        state.queued is None,
        gem_count < GEMS_PER_ROUND,
    ensures
        counted(state, gem_count, built).0.queued == (if gem_count + built >= GEMS_PER_ROUND {
            Some(LevelState::Choosing)
        } else {
            None
        }),
        counted(state, gem_count, built).0.current == LevelState::Building,
        gem_count + built < GEMS_PER_ROUND ==> counted(state, gem_count, built).1 == gem_count
            + built,
        gem_count + built >= GEMS_PER_ROUND ==> counted(state, gem_count, built).1 == 0,
{
}

} // verus!
