//! Telling a real press or release from contact bounce.

use vstd::prelude::*;

verus! {

/// After an edge and a settling delay, the button changed only if its level differs from
/// the level before the edge; then the new level is reported, otherwise the wait goes on.
pub fn settled_change(before: bool, after: bool) -> (change: Option<bool>)
    ensures
        change == if before != after {
            Some(after)
        } else {
            None
        },
{
    if before != after {
        Some(after)
    } else {
        None
    }
}

} // verus!
