//! The dice of the game.

use vstd::prelude::*;
use rand::seq::IteratorRandom;
use rand::Rng;

verus! {

/// Draws a number with `rand::Rng::gen_range` on the thread's generator.
///
/// Believed of it: the number lies between `low` and `high`, both included.
/// The call panics on an empty range, which `low <= high` leaves out.
#[verifier::external_body]
pub(crate) fn roll_between(low: u64, high: u64) -> (roll: u64)
    requires
        low <= high,
    ensures
        low <= roll <= high,
{
    rand::thread_rng().gen_range(low..=high)
}

/// Picks one of the first `n` indices with
/// `rand::seq::IteratorRandom::choose` on the thread's generator.
///
/// Believed of it: the index is below `n`, and there is none only when `n`
/// is zero.
#[verifier::external_body]
pub(crate) fn choose_index(n: usize) -> (index: Option<usize>)
    ensures
        match index {
            Some(i) => i < n,
            None => n == 0,
        },
{
    (0..n).choose(&mut rand::thread_rng())
}

} // verus!
