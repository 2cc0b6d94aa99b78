//! What the game is doing before and while it is played.

use vstd::prelude::*;

verus! {

/// Whether the game is still loading or being played.
#[derive(Clone, Copy, PartialEq, Eq, Structural, Debug, Hash)]
pub enum GameState {
    Loading,
    Play,
}

} // verus!
