use vstd::prelude::*;

verus! {

/// Keys per row.
pub const COLS: usize = 3;

/// Rows of keys.
pub const ROWS: usize = 4;

/// Keys on the pad; one sequencer step per key.
pub const NUM_KEYS: usize = 12;

/// A key position: column, then row.
pub type Coord = (u8, u8);

/// The key lies on the pad.
pub open spec fn in_grid(c: Coord) -> bool {
    c.0 < COLS && c.1 < ROWS
}

/// Row-major position of a key.
pub open spec fn key_index(c: Coord) -> int {
    c.1 * COLS + c.0
}

/// The key at a row-major position.
pub open spec fn spec_coord_from_index(index: int) -> Coord {
    ((index % (COLS as int)) as u8, (index / (COLS as int)) as u8)
}

/// The key at a row-major position.
pub fn coord_from_index(index: usize) -> (c: Coord)
    ensures
        c == spec_coord_from_index(index as int),
{
    ((index % COLS) as u8, (index / COLS) as u8)
}

/// Row-major position of a key.
pub fn index_of_coord(c: Coord) -> (i: usize)
    ensures
        i == key_index(c),
{
    c.1 as usize * COLS + c.0 as usize
}

/// Every position on the pad names a key on the pad, and that key's position is the one we started from.
pub proof fn lemma_index_round_trip(index: int)
    requires
        0 <= index < NUM_KEYS,
    ensures
        in_grid(spec_coord_from_index(index)),
        key_index(spec_coord_from_index(index)) == index,
{
}

/// Every key on the pad has a position on the pad, and that position names the key again.
pub proof fn lemma_coord_round_trip(c: Coord)
    requires
        in_grid(c),
    ensures
        0 <= key_index(c) < NUM_KEYS,
        spec_coord_from_index(key_index(c)) == c,
{
}

} // verus!
