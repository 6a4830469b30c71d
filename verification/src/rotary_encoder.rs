//! The rotary encoder's detents as increments.

use vstd::prelude::*;

verus! {

/// One detent clockwise is +1, counter-clockwise -1; the second component is always 0.
pub fn encoder_increment(clockwise: bool) -> (step: (i32, i32))
    ensures
        step == (if clockwise {
            1i32
        } else {
            -1i32
        }, 0i32),
{
    let step = if clockwise {
        1
    } else {
        -1
    };
    (step, 0)
}

} // verus!
