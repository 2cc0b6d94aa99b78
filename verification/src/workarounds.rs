//! Small fixes for what the flow of a round would otherwise get wrong.

use vstd::prelude::*;
use crate::towers::{BuildGem, ChooseGem};

verus! {

/// Drops the requests of the player that wait to be served, so that the
/// click that placed the last building of a round does not also choose it.
pub fn clear_input_events(build_events: &mut Vec<BuildGem>, choose_events: &mut Vec<ChooseGem>)
    ensures
        final(build_events)@ == Seq::<BuildGem>::empty(),
        final(choose_events)@ == Seq::<ChooseGem>::empty(),
{
    build_events.clear();
    choose_events.clear();
}

} // verus!
