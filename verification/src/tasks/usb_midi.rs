//! Turning note events into USB MIDI packets.

use vstd::prelude::*;

use midi_convert::midi_types::MidiMessage;
use midi_convert::render_slice::MidiRenderSlice;
use usbd_midi::{CableNumber, UsbMidiEventPacket};

use crate::menus::step::Note;

verus! {

/// A note to start or stop.
#[derive(Clone, Copy, Debug)]
pub enum MidiEvent {
    Note { on: bool, note: Note, octave: u8, velocity: u8 },
}

/// The MIDI channel notes go out on (zero-based, so the second channel).
pub const MIDI_CHANNEL_NUMBER: u8 = 1;

/// MIDI note number: A0 is 21, twelve semitones per octave.
pub open spec fn spec_convert_note(note: Note, octave: u8) -> int {
    21 + 12 * octave + note.semitones()
}

/// MIDI note number of a note in an octave. A note number is a MIDI data byte: converting a
/// sum above 127 into a note fails an assertion, so such inputs are excluded.
pub fn convert_note(note: Note, octave: u8) -> (n: u8)
    requires
        spec_convert_note(note, octave) <= 127,
    ensures
        n == spec_convert_note(note, octave),
{
    let root = 21 + octave * 12;
    let offset = note.offset();
    root + offset
}

/// `MidiRenderSlice::render_slice` of `MidiMessage::NoteOn`: the status byte 0x90 with the
/// channel in its low nibble, then the note, then the velocity. `From<u8>` for the channel,
/// the note and the velocity asserts the value is in range, so the ranges are required.
#[verifier::external_body]
fn render_note_on(channel: u8, note: u8, velocity: u8) -> (bytes: [u8; 3])
    requires
        channel <= 15,
        note <= 127,
        velocity <= 127,
    ensures
        bytes@ == seq![(0x90 + channel) as u8, note, velocity],
{
    let mut buffer = [0u8; 3];
    MidiMessage::NoteOn(channel.into(), note.into(), velocity.into()).render_slice(&mut buffer);
    buffer
}

/// `MidiRenderSlice::render_slice` of `MidiMessage::NoteOff`: the status byte 0x80 with the
/// channel in its low nibble, then the note, then the velocity. `From<u8>` for the channel,
/// the note and the velocity asserts the value is in range, so the ranges are required.
#[verifier::external_body]
fn render_note_off(channel: u8, note: u8, velocity: u8) -> (bytes: [u8; 3])
    requires
        channel <= 15,
        note <= 127,
        velocity <= 127,
    ensures
        bytes@ == seq![(0x80 + channel) as u8, note, velocity],
{
    let mut buffer = [0u8; 3];
    MidiMessage::NoteOff(channel.into(), note.into(), velocity.into()).render_slice(&mut buffer);
    buffer
}

/// `UsbMidiEventPacket::try_from_payload_bytes` on cable 0 with a note-off or note-on payload
/// (status 0x80 to 0x9f): the header byte is the code index number, the status's high nibble,
/// followed by the three payload bytes.
#[verifier::external_body]
fn usb_packet(payload: [u8; 3]) -> (packet: Option<[u8; 4]>)
    requires
        0x80 <= payload@[0] < 0xa0,
    ensures
        packet is Some,
        packet->0@ == seq![(payload@[0] / 16) as u8, payload@[0], payload@[1], payload@[2]],
{
    match UsbMidiEventPacket::try_from_payload_bytes(CableNumber::Cable0, &payload) {
        Ok(packet) => Some(packet.to_raw_bytes()),
        Err(_) => None,
    }
}

/// The event can be sent: its note number and velocity are MIDI data bytes.
pub open spec fn event_sendable(event: MidiEvent) -> bool {
    match event {
        MidiEvent::Note { on, note, octave, velocity } => spec_convert_note(note, octave) <= 127
            && velocity <= 127,
    }
}

/// Whether the event's note number and velocity are MIDI data bytes.
pub fn sendable(event: &MidiEvent) -> (b: bool)
    ensures
        b == event_sendable(*event),
{
    match event {
        MidiEvent::Note { on: _, note, octave, velocity } => {
            let n: u32 = 21 + 12 * (*octave as u32) + note.offset() as u32;
            n <= 127 && *velocity <= 127
        },
    }
}

/// The four bytes of the USB MIDI packet for a note event.
pub open spec fn spec_note_packet(event: MidiEvent) -> Seq<u8> {
    match event {
        MidiEvent::Note { on, note, octave, velocity } => {
            let n = spec_convert_note(note, octave) as u8;
            if on {
                seq![0x09u8, (0x90 + MIDI_CHANNEL_NUMBER) as u8, n, velocity]
            } else {
                seq![0x08u8, (0x80 + MIDI_CHANNEL_NUMBER) as u8, n, velocity]
            }
        },
    }
}

/// The USB MIDI packet that starts or stops a note on the second channel.
pub fn note_packet(event: MidiEvent) -> (packet: [u8; 4])
    requires
        event_sendable(event),
    ensures
        packet@ == spec_note_packet(event),
{
    match event {
        MidiEvent::Note { on, note, octave, velocity } => {
            let midi_note = convert_note(note, octave);
            let message = if on {
                render_note_on(MIDI_CHANNEL_NUMBER, midi_note, velocity)
            } else {
                render_note_off(MIDI_CHANNEL_NUMBER, midi_note, velocity)
            };
            let packet = usb_packet(message);
            packet.unwrap()
        },
    }
}

/// A note's number counts semitones from A0 (21) in the menu's note order: the i-th note of
/// the menu in octave `o` is 21 + 12·o + i, so neighbours in the menu are a semitone apart and
/// the same note an octave up is twelve higher.
pub proof fn lemma_note_numbers_follow_menu(i: int, octave: u8)
    requires
        0 <= i < 12,
    ensures
        spec_convert_note(crate::menus::step::note_options()[i], octave) == 21 + 12 * octave + i,
        octave < 255 ==> spec_convert_note(crate::menus::step::note_options()[i], (octave + 1) as u8)
            == spec_convert_note(crate::menus::step::note_options()[i], octave) + 12,
{
}

/// The packet for a note event carries the note's number in the menu's note order.
pub proof fn lemma_packet_note_number(i: int, on: bool, octave: u8, velocity: u8)
    requires
        0 <= i < 12,
    ensures
        spec_note_packet(
            MidiEvent::Note { on, note: crate::menus::step::note_options()[i], octave, velocity },
        )[2] == (21 + 12 * octave + i) as u8,
        spec_note_packet(
            MidiEvent::Note { on, note: crate::menus::step::note_options()[i], octave, velocity },
        )[3] == velocity,
        spec_note_packet(
            MidiEvent::Note { on, note: crate::menus::step::note_options()[i], octave, velocity },
        )[1] == if on {
            0x91u8
        } else {
            0x81u8
        },
{
}

} // verus!
