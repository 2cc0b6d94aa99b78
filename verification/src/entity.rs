//! Handles of the units of a world.

use vstd::prelude::*;

verus! {

/// The stable index of a unit in its world. An index is never given to a
/// second unit, so a handle to a unit that is gone stays recognisable.
#[derive(Clone, Copy, PartialEq, Eq, Structural, Debug, Hash)]
pub struct Entity(pub usize);

} // verus!
