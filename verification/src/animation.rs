//! Choosing where to start playback once an asynchronously loaded scene
//! subtree has finished spawning: the first spawned node that carries an
//! animation player, if any.

use vstd::prelude::*;

verus! {

/// Given, for each node of the spawned subtree in traversal order, whether
/// it carries an animation player, returns the first node that does;
/// absent when none does, which is a no-op for the caller, not an error.
pub fn first_player_index(has_player: &Vec<bool>) -> (r: Option<usize>)
    ensures
        r matches Some(i) ==> i < has_player@.len() && has_player@[i as int] && forall|j: int|
            0 <= j < i ==> !has_player@[j],
        r is None ==> forall|j: int| 0 <= j < has_player@.len() ==> !has_player@[j],
{
    let mut idx: usize = 0;
    while idx < has_player.len()
        invariant
            idx <= has_player@.len(),
            forall|j: int| 0 <= j < idx ==> !has_player@[j],
        decreases has_player@.len() - idx,
    {
        if has_player[idx] {
            return Some(idx);
        }
        idx = idx + 1;
    }
    None
}

} // verus!
