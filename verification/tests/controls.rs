use macropad_sequencer::key_leds::Color;
use macropad_sequencer::menus::sequencer::SequencerMenuValue;
use macropad_sequencer::menus::step::{Note, StepMenuValue};
use macropad_sequencer::tasks::controls::{ControlAction, ControlEvent, Controls};
use macropad_sequencer::tasks::display::DisplayUpdate;
use macropad_sequencer::tasks::usb_midi::MidiEvent;

fn key(c: &mut Controls, coord: (u8, u8), pressed: bool, held: bool) -> Vec<ControlAction> {
    c.handle(ControlEvent::Key { pressed, held, coord })
}

fn light(a: &ControlAction) -> Option<((u8, u8), Color)> {
    match a {
        ControlAction::Light(u) => Some((u.coord, u.color)),
        _ => None,
    }
}

fn midi(a: &ControlAction) -> Option<(bool, Note, u8, u8)> {
    match a {
        ControlAction::Midi(MidiEvent::Note { on, note, octave, velocity }) => Some((*on, *note, *octave, *velocity)),
        _ => None,
    }
}

const ACTIVE: Color = Color { r: 5, g: 5, b: 5 };
const OFF: Color = Color { r: 0, g: 0, b: 0 };
const CURRENT: Color = Color { r: 32, g: 0, b: 0 };

#[test]
fn tap_toggles_step() {
    let mut c = Controls::new();
    let pressed = key(&mut c, (1, 0), true, false);
    assert_eq!(pressed.len(), 1);
    assert!(matches!(pressed[0], ControlAction::Display(DisplayUpdate::StepMenu { value: None })));
    assert_eq!(c.keys_down(), 1);
    let released = key(&mut c, (1, 0), false, false);
    assert_eq!(light(&released[0]), Some(((1, 0), ACTIVE)));
    assert!(matches!(released[1], ControlAction::Display(DisplayUpdate::StepMenu { value: None })));
    assert!(c.key((1, 0)).active);
    assert_eq!(c.keys_down(), 0);
    key(&mut c, (1, 0), true, false);
    let again = key(&mut c, (1, 0), false, false);
    assert_eq!(light(&again[0]), Some(((1, 0), OFF)));
    assert!(!c.key((1, 0)).active);
}

#[test]
fn hold_does_not_toggle() {
    let mut c = Controls::new();
    key(&mut c, (2, 3), true, false);
    key(&mut c, (2, 3), true, true);
    let released = key(&mut c, (2, 3), false, false);
    assert!(released.iter().all(|a| light(a).is_none()));
    assert!(!c.key((2, 3)).active);
}

#[test]
fn single_hold_opens_step_menu_and_edits() {
    let mut c = Controls::new();
    key(&mut c, (0, 1), true, false);
    let held = key(&mut c, (0, 1), true, true);
    assert_eq!(held.len(), 1);
    match held[0] {
        ControlAction::Display(DisplayUpdate::StepMenu { value: Some(v) }) => {
            assert!(v.note == Note::C);
            assert_eq!(v.octave, 3);
            assert_eq!(v.velocity, 100);
        },
        _ => panic!("expected the step menu"),
    }
    assert_eq!(c.selected_step(), Some((0, 1)));
    let edit = StepMenuValue { note: Note::E, octave: 4, velocity: 90 };
    assert!(c.handle(ControlEvent::StepMenuChange { value: edit }).is_empty());
    let s = c.key((0, 1));
    assert!(s.value.note == Note::E);
    assert_eq!(s.value.octave, 4);
    assert!(!s.active);
    // Releasing the held key closes the menu and keeps the step off.
    let released = key(&mut c, (0, 1), false, false);
    assert_eq!(released.len(), 1);
    assert!(matches!(released[0], ControlAction::Display(DisplayUpdate::StepMenu { value: None })));
}

#[test]
fn second_key_closes_step_menu() {
    let mut c = Controls::new();
    key(&mut c, (0, 0), true, false);
    key(&mut c, (0, 0), true, true);
    let second = key(&mut c, (1, 1), true, true);
    assert!(matches!(second[0], ControlAction::Display(DisplayUpdate::StepMenu { value: None })));
    assert_eq!(c.selected_step(), None);
    assert_eq!(c.keys_down(), 2);
    // Releasing one of two keys leaves one down: the menu is not told.
    let one_left = key(&mut c, (1, 1), false, false);
    assert!(one_left.is_empty());
    // A step change with no key selected changes nothing.
    c.handle(ControlEvent::StepMenuChange { value: StepMenuValue { note: Note::G, octave: 1, velocity: 1 } });
    assert!(c.key((1, 1)).value.note == Note::C);
}

#[test]
fn step_advances_through_first_steps() {
    let mut c = Controls::new();
    // Activate key 1.
    key(&mut c, (1, 0), true, false);
    key(&mut c, (1, 0), false, false);
    let first = c.handle(ControlEvent::SequencerStep);
    assert_eq!(first.len(), 3);
    assert_eq!(midi(&first[0]), Some((true, Note::C, 3, 100)));
    assert_eq!(light(&first[1]), Some(((0, 0), OFF)));
    assert_eq!(light(&first[2]), Some(((1, 0), CURRENT)));
    assert_eq!(c.current_step(), (1, 0));
    let second = c.handle(ControlEvent::SequencerStep);
    assert_eq!(midi(&second[0]), Some((false, Note::C, 3, 100)));
    assert_eq!(second.len(), 3);
    assert_eq!(light(&second[1]), Some(((1, 0), ACTIVE)));
    assert_eq!(light(&second[2]), Some(((2, 0), CURRENT)));
}

#[test]
fn step_count_limits_steps() {
    let mut c = Controls::new();
    let settings = SequencerMenuValue { play: true, steps: 2, ..SequencerMenuValue::default() };
    let shared = c.handle(ControlEvent::SequencerMenuChange { value: settings });
    assert_eq!(shared.len(), 1);
    assert!(matches!(shared[0], ControlAction::ShareSequencerMenu(v) if v.steps == 2 && v.play));
    c.handle(ControlEvent::SequencerStep);
    assert_eq!(c.current_step(), (1, 0));
    c.handle(ControlEvent::SequencerStep);
    assert_eq!(c.current_step(), (0, 0));
}

#[test]
fn held_keys_play_only_themselves() {
    let mut c = Controls::new();
    key(&mut c, (2, 1), true, false);
    key(&mut c, (1, 3), true, false);
    let s1 = c.handle(ControlEvent::SequencerStep);
    assert_eq!(c.current_step(), (2, 1));
    assert_eq!(midi(&s1[0]), Some((true, Note::C, 3, 100)));
    c.handle(ControlEvent::SequencerStep);
    assert_eq!(c.current_step(), (1, 3));
    c.handle(ControlEvent::SequencerStep);
    assert_eq!(c.current_step(), (2, 1));
}

#[test]
fn only_held_key_plays_again() {
    let mut c = Controls::new();
    key(&mut c, (0, 0), true, false);
    c.handle(ControlEvent::SequencerStep);
    assert_eq!(c.current_step(), (0, 0));
}

#[test]
fn pause_stops_last_note() {
    let mut c = Controls::new();
    let play = SequencerMenuValue { play: true, ..SequencerMenuValue::default() };
    c.handle(ControlEvent::SequencerMenuChange { value: play });
    key(&mut c, (0, 0), true, false);
    c.handle(ControlEvent::SequencerStep);
    key(&mut c, (0, 0), false, false);
    let pause = c.handle(ControlEvent::SequencerMenuChange { value: SequencerMenuValue::default() });
    assert_eq!(pause.len(), 2);
    assert_eq!(midi(&pause[0]), Some((false, Note::C, 3, 100)));
    assert!(matches!(pause[1], ControlAction::ShareSequencerMenu(v) if !v.play));
}

#[test]
fn rotary_events_go_to_display() {
    let mut c = Controls::new();
    let press = c.handle(ControlEvent::RotaryButton { pressed: true });
    assert!(matches!(press[0], ControlAction::Display(DisplayUpdate::RotaryPress)));
    assert!(c.handle(ControlEvent::RotaryButton { pressed: false }).is_empty());
    let turn = c.handle(ControlEvent::RotaryEncoder { increment: -1 });
    assert!(matches!(turn[0], ControlAction::Display(DisplayUpdate::RotaryMove { increment: -1 })));
}

#[test]
fn note_event_cuts_octave_and_velocity_to_a_byte() {
    let mut c = Controls::new();
    key(&mut c, (0, 1), true, false);
    key(&mut c, (0, 1), true, true);
    c.handle(ControlEvent::StepMenuChange { value: StepMenuValue { note: Note::A, octave: 258, velocity: 300 } });
    key(&mut c, (0, 1), false, false);
    key(&mut c, (0, 1), true, false);
    c.handle(ControlEvent::SequencerStep);
    c.handle(ControlEvent::SequencerStep);
    let s = c.handle(ControlEvent::SequencerStep);
    assert_eq!(midi(&s[1]), Some((true, Note::A, 2, 44)));
}

#[test]
fn can_handle_guards_steps() {
    let mut c = Controls::new();
    assert!(c.can_handle(&ControlEvent::SequencerStep));
    let zero = SequencerMenuValue { steps: 0, ..SequencerMenuValue::default() };
    c.handle(ControlEvent::SequencerMenuChange { value: zero });
    assert!(!c.can_handle(&ControlEvent::SequencerStep));
    // With a key down the step count does not matter.
    key(&mut c, (1, 1), true, false);
    assert!(c.can_handle(&ControlEvent::SequencerStep));
    let many = SequencerMenuValue { steps: 40, ..SequencerMenuValue::default() };
    c.handle(ControlEvent::SequencerMenuChange { value: many });
    key(&mut c, (1, 1), false, false);
    assert!(c.can_handle(&ControlEvent::SequencerStep));
    assert!(!c.can_handle(&ControlEvent::Key { pressed: true, held: false, coord: (3, 0) }));
    assert!(!c.can_handle(&ControlEvent::Key { pressed: true, held: false, coord: (0, 4) }));
}

#[test]
fn steps_beyond_pad_are_refused_when_reached() {
    let mut c = Controls::new();
    let many = SequencerMenuValue { steps: 13, ..SequencerMenuValue::default() };
    c.handle(ControlEvent::SequencerMenuChange { value: many });
    for _ in 0..11 {
        assert!(c.can_handle(&ControlEvent::SequencerStep));
        c.handle(ControlEvent::SequencerStep);
    }
    assert_eq!(c.current_step(), (2, 3));
    assert!(!c.can_handle(&ControlEvent::SequencerStep));
}

#[test]
fn well_formed_run_always_handleable() {
    let mut c = Controls::new();
    let steps = SequencerMenuValue { play: true, steps: 5, ..SequencerMenuValue::default() };
    let mut events = vec![ControlEvent::SequencerMenuChange { value: steps }];
    for round in 0..30u8 {
        let coord = (round % 3, (round / 3) % 4);
        events.push(ControlEvent::Key { pressed: true, held: false, coord });
        events.push(ControlEvent::SequencerStep);
        events.push(ControlEvent::Key { pressed: true, held: true, coord });
        events.push(ControlEvent::SequencerStep);
        events.push(ControlEvent::Key { pressed: false, held: false, coord });
        events.push(ControlEvent::SequencerStep);
    }
    for e in events {
        assert!(c.can_handle(&e));
        c.handle(e);
        assert!(c.keys_down() >= 0);
    }
    assert_eq!(c.keys_down(), 0);
}
