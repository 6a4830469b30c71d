use macropad_sequencer::tasks::usb_midi::sendable;
use macropad_sequencer::menus::step::Note;
use macropad_sequencer::tasks::usb_midi::{convert_note, note_packet, MidiEvent};

#[test]
fn note_numbers_count_from_a0() {
    assert_eq!(convert_note(Note::A, 0), 21);
    assert_eq!(convert_note(Note::C, 3), 60);
    assert_eq!(convert_note(Note::A, 4), 69);
    assert_eq!(convert_note(Note::G, 8), 127);
    assert_eq!(convert_note(Note::AFlat, 7), 116);
}

#[test]
fn note_on_packet() {
    let packet = note_packet(MidiEvent::Note { on: true, note: Note::C, octave: 3, velocity: 100 });
    assert_eq!(packet, [0x09, 0x91, 60, 100]);
}

#[test]
fn note_off_packet() {
    let packet = note_packet(MidiEvent::Note { on: false, note: Note::FSharp, octave: 2, velocity: 127 });
    assert_eq!(packet, [0x08, 0x81, 21 + 24 + 9, 127]);
}

#[test]
fn note_packet_highest_note() {
    let packet = note_packet(MidiEvent::Note { on: true, note: Note::G, octave: 8, velocity: 0 });
    assert_eq!(packet, [0x09, 0x91, 127, 0]);
}

#[test]
fn sendable_checks_data_bytes() {
    assert!(sendable(&MidiEvent::Note { on: true, note: Note::G, octave: 8, velocity: 127 }));
    assert!(!sendable(&MidiEvent::Note { on: true, note: Note::AFlat, octave: 8, velocity: 1 }));
    assert!(!sendable(&MidiEvent::Note { on: false, note: Note::A, octave: 0, velocity: 128 }));
    assert!(!sendable(&MidiEvent::Note { on: false, note: Note::A, octave: 255, velocity: 0 }));
}
