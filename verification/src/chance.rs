//! The random steps of the game: shuffling and drawing. Nothing is known of their outcome beyond
//! what holds of every outcome.

use rand::seq::IteratorRandom;
use rand::seq::SliceRandom;
use vstd::prelude::*;

verus! {

/// Puts the items into a random order.
///
/// Calls `rand::seq::SliceRandom::shuffle` with `rand::thread_rng()`. That function only swaps
/// items of the slice, so all that is claimed here is that the items after the call are the items
/// before it, each as often as before.
#[verifier::external_body]
pub(crate) fn shuffle<T>(items: &mut Vec<T>)
    ensures
        final(items)@.to_multiset() == old(items)@.to_multiset(),
{
    items.shuffle(&mut rand::thread_rng());
}

/// Draws a place in a list of `len` items at random.
///
/// Calls `rand::seq::IteratorRandom::choose` with `rand::thread_rng()` on the places `0..len`. That
/// function returns `None` if and only if the iterator is empty, and an item of the iterator
/// otherwise, so all that is claimed here is that a place is returned exactly when there is one,
/// and that it is below `len`.
#[verifier::external_body]
pub(crate) fn choose_index(len: usize) -> (place: Option<usize>)
    ensures
        len == 0 ==> place is None,
        len > 0 ==> place is Some && place->0 < len,
{
    (0..len).choose(&mut rand::thread_rng())
}

} // verus!
