//! Chance, kept in one place.

use rand::seq::IndexedRandom;
use vstd::prelude::*;

verus! {

/// Calls `IndexedRandom::choose` on the items with the thread's generator from
/// `rand::rng`. The contract says what holds of every draw: nothing is drawn from
/// an empty list, and what is drawn from any other is one of its items. Which one
/// is left open, so two draws from one list need not agree.
#[verifier::external_body]
pub(crate) fn pick<T>(items: &Vec<T>) -> (r: Option<&T>)
    ensures
        items@.len() == 0 ==> r is None,
        items@.len() > 0 ==> r is Some,
        r matches Some(item) ==> items@.contains(*item),
{
    items.choose(&mut rand::rng())
}

} // verus!
