use macropad_sequencer::menus::render::MenuItemState;
use macropad_sequencer::menus::step::{Note, StepMenuValue};
use macropad_sequencer::tasks::controls::ControlEvent;
use macropad_sequencer::tasks::display::{DisplayController, DisplayUpdate};

fn texts(d: &DisplayController) -> (String, Vec<(String, String)>) {
    let (title, lines) = d.render();
    (title.to_string(), lines.into_iter().map(|l| (l.title, l.value)).collect())
}

#[test]
fn display_starts_on_settings() {
    let d = DisplayController::new();
    assert!(!d.showing_step());
    let (title, lines) = texts(&d);
    assert_eq!(title, "Sequencer");
    assert_eq!(lines[0], ("STATUS".to_string(), "PAUSED".to_string()));
    assert_eq!(lines[2], ("TIMING".to_string(), "1/8".to_string()));
}

#[test]
fn first_turn_starts_playing() {
    let mut d = DisplayController::new();
    match d.handle(DisplayUpdate::RotaryMove { increment: 1 }) {
        Some(ControlEvent::SequencerMenuChange { value }) => {
            assert!(value.play);
            assert_eq!(value.bpm, 120);
            assert_eq!(value.steps, 12);
        },
        _ => panic!("expected the settings"),
    }
    assert_eq!(texts(&d).1[0].1, "PLAYING");
}

#[test]
fn press_switches_to_choosing_lines() {
    let mut d = DisplayController::new();
    assert!(d.handle(DisplayUpdate::RotaryPress).is_none());
    assert_eq!(d.render().1[0].state, MenuItemState::Selecting);
    assert!(d.handle(DisplayUpdate::RotaryMove { increment: 1 }).is_none());
    assert_eq!(d.render().1[1].state, MenuItemState::Selecting);
    assert!(d.handle(DisplayUpdate::RotaryMove { increment: -1 }).is_none());
    assert_eq!(d.render().1[0].state, MenuItemState::Selecting);
}

#[test]
fn step_menu_shows_held_step() {
    let mut d = DisplayController::new();
    let v = StepMenuValue { note: Note::FSharp, octave: 5, velocity: 64 };
    assert!(d.handle(DisplayUpdate::StepMenu { value: Some(v) }).is_none());
    assert!(d.showing_step());
    let (title, lines) = texts(&d);
    assert_eq!(title, "Step");
    assert_eq!(lines[0].1, "F#");
    assert_eq!(lines[1].1, "5");
    assert_eq!(lines[2].1, "64");
}

#[test]
fn step_menu_turn_reports_note() {
    let mut d = DisplayController::new();
    let v = StepMenuValue { note: Note::AFlat, octave: 5, velocity: 64 };
    d.handle(DisplayUpdate::StepMenu { value: Some(v) });
    match d.handle(DisplayUpdate::RotaryMove { increment: 1 }) {
        Some(ControlEvent::StepMenuChange { value }) => {
            assert!(value.note == Note::A);
            // The step's other parts are kept.
            assert_eq!(value.octave, 5);
            assert_eq!(value.velocity, 64);
        },
        _ => panic!("expected the step"),
    }
}

#[test]
fn closing_step_menu_returns_to_settings() {
    let mut d = DisplayController::new();
    d.handle(DisplayUpdate::StepMenu { value: Some(StepMenuValue::default()) });
    assert!(d.handle(DisplayUpdate::StepMenu { value: None }).is_none());
    assert!(!d.showing_step());
    assert_eq!(texts(&d).0, "Sequencer");
}

#[test]
fn display_can_handle_small_turns() {
    let d = DisplayController::new();
    assert!(d.can_handle(&DisplayUpdate::RotaryMove { increment: 1 }));
    assert!(d.can_handle(&DisplayUpdate::RotaryMove { increment: i32::MIN }));
    assert!(d.can_handle(&DisplayUpdate::RotaryPress));
}

#[test]
fn step_menu_octave_edit_keeps_note_and_velocity() {
    let mut d = DisplayController::new();
    let v = StepMenuValue { note: Note::D, octave: 2, velocity: 77 };
    d.handle(DisplayUpdate::StepMenu { value: Some(v) });
    d.handle(DisplayUpdate::RotaryPress);
    d.handle(DisplayUpdate::RotaryMove { increment: 1 });
    d.handle(DisplayUpdate::RotaryPress);
    match d.handle(DisplayUpdate::RotaryMove { increment: 2 }) {
        Some(ControlEvent::StepMenuChange { value }) => {
            assert!(value.note == Note::D);
            assert_eq!(value.octave, 4);
            assert_eq!(value.velocity, 77);
        },
        _ => panic!("expected the step"),
    }
    assert_eq!(texts(&d).1[1].1, "4");
}
