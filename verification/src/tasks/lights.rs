use vstd::prelude::*;

use crate::grid::Coord;
use crate::key_leds::Color;

verus! {

/// A request to recolour the LED under one key.
#[derive(Clone, Copy, Debug)]
pub struct LedUpdate {
    pub coord: Coord,
    pub color: Color,
}

} // verus!
