use macropad_sequencer::debounced_button::settled_change;
use macropad_sequencer::rotary_encoder::encoder_increment;
use macropad_sequencer::toggle_with_hold::{ToggleEvent, ToggleWithHold};

#[test]
fn tap_is_not_a_hold() {
    let mut t = ToggleWithHold::new(300);
    assert_eq!(t.hold_threshold_ms(), 300);
    t.on_change(ToggleEvent::Button { pressed: true });
    assert!(t.is_pressed() && !t.is_held() && t.timer_running());
    t.on_change(ToggleEvent::Button { pressed: false });
    assert!(!t.is_pressed() && !t.is_held() && !t.timer_running());
}

#[test]
fn hold_then_release() {
    let mut t = ToggleWithHold::new(300);
    t.on_change(ToggleEvent::Button { pressed: true });
    t.on_change(ToggleEvent::HoldElapsed);
    assert!(t.is_pressed() && t.is_held() && !t.timer_running());
    t.on_change(ToggleEvent::Button { pressed: false });
    assert!(!t.is_pressed() && !t.is_held());
}

#[test]
fn debounce_reports_only_changes() {
    assert_eq!(settled_change(false, true), Some(true));
    assert_eq!(settled_change(true, false), Some(false));
    assert_eq!(settled_change(true, true), None);
    assert_eq!(settled_change(false, false), None);
}

#[test]
fn encoder_directions() {
    assert_eq!(encoder_increment(true), (1, 0));
    assert_eq!(encoder_increment(false), (-1, 0));
}
