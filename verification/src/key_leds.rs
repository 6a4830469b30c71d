use vstd::prelude::*;

use crate::grid::{key_index, Coord, NUM_KEYS};

verus! {

/// An 8-bit-per-channel LED colour.
#[derive(Clone, Copy, PartialEq, Eq, Structural, Debug)]
pub struct Color {
    pub r: u8,
    pub g: u8,
    pub b: u8,
}

impl Color {
    pub open spec fn spec_off() -> Color {
        Color { r: 0, g: 0, b: 0 }
    }

    /// All channels dark.
    pub fn off() -> (c: Color)
        ensures
            c == Color::spec_off(),
    {
        Color { r: 0, g: 0, b: 0 }
    }
}

/// The colours shown under the twelve keys, row-major.
pub struct KeyLeds {
    leds: Vec<Color>,
}

impl View for KeyLeds {
    type V = Seq<Color>;

    closed spec fn view(&self) -> Seq<Color> {
        self.leds@
    }
}

impl KeyLeds {
    /// One colour per key.
    pub open spec fn wf(&self) -> bool {
        self@.len() == NUM_KEYS
    }

    /// Every key dark.
    pub fn new() -> (leds: Self)
        ensures
            leds.wf(),
            leds@ == Seq::new(NUM_KEYS as nat, |i: int| Color::spec_off()),
    {
        let mut leds: Vec<Color> = Vec::new();
        let mut i: usize = 0;
        while i < NUM_KEYS
            invariant
                i <= NUM_KEYS,
                leds@ == Seq::new(i as nat, |j: int| Color::spec_off()),
            decreases NUM_KEYS - i,
        {
            leds.push(Color::off());
            i += 1;
        }
        KeyLeds { leds }
    }

    /// Sets the colour of one key; the row-major position must lie on the pad.
    pub fn set(&mut self, coord: Coord, value: Color)
        requires
            old(self).wf(),
            key_index(coord) < NUM_KEYS,
        ensures
            final(self).wf(),
            final(self)@ == old(self)@.update(key_index(coord), value),
    {
        let index = coord.1 as usize * crate::grid::COLS + coord.0 as usize;
        self.leds.set(index, value);
    }

    /// The colours, row-major, for the driver to write out.
    pub fn colors(&self) -> (c: &[Color])
        ensures
            c@ == self@,
    {
        self.leds.as_slice()
    }
}

} // verus!
