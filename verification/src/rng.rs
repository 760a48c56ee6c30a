use vstd::prelude::*;

use macroquad::rand::ChooseRandom;

use crate::bar::Bar;

verus! {

/// Relies on macroquad's `ChooseRandom::shuffle` (re-exported from
/// quad-rand), a Fisher-Yates pass of in-bounds element swaps: whatever
/// indices the generator draws, it permutes the slice in place, so the
/// length and the multiset of elements are unchanged.
#[verifier::external_body]
pub(crate) fn shuffle_bars(list: &mut Vec<Bar>)
    ensures
        final(list)@.len() == old(list)@.len(),
        final(list)@.to_multiset() == old(list)@.to_multiset(),
{
    list.shuffle();
}

} // verus!
