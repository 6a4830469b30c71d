use macropad_sequencer::grid::{coord_from_index, index_of_coord, NUM_KEYS};
use macropad_sequencer::key_leds::{Color, KeyLeds};

#[test]
fn coord_from_index_is_row_major() {
    assert_eq!(coord_from_index(0), (0, 0));
    assert_eq!(coord_from_index(2), (2, 0));
    assert_eq!(coord_from_index(3), (0, 1));
    assert_eq!(coord_from_index(11), (2, 3));
    assert_eq!(coord_from_index(12), (0, 4));
}

#[test]
fn index_and_coord_round_trip() {
    for i in 0..NUM_KEYS {
        let c = coord_from_index(i);
        assert!(c.0 < 3 && c.1 < 4);
        assert_eq!(index_of_coord(c), i);
    }
}

#[test]
fn key_leds_start_dark() {
    let leds = KeyLeds::new();
    assert_eq!(leds.colors().len(), 12);
    assert!(leds.colors().iter().all(|c| *c == Color { r: 0, g: 0, b: 0 }));
}

#[test]
fn key_leds_set_one_key() {
    let mut leds = KeyLeds::new();
    let red = Color { r: 32, g: 0, b: 0 };
    leds.set((1, 2), red);
    assert_eq!(leds.colors()[7], red);
    assert_eq!(leds.colors().iter().filter(|c| **c == red).count(), 1);
    // A column past the pad still names a row-major position on it.
    leds.set((4, 0), red);
    assert_eq!(leds.colors()[4], red);
}
