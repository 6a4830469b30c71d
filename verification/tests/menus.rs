use macropad_sequencer::menus::render::MenuItemState;
use macropad_sequencer::menus::sequencer::{
    SequencerMenuEntry, SequencerMenuItems, SequencerMenuValue, BPM_FIELD, PLAY_FIELD,
};
use macropad_sequencer::menus::step::{Note, StepMenuItems, StepMenuValue, NOTE_FIELD};
use macropad_sequencer::menus::{
    BooleanMenuItem, EnumMenuItem, Menu, MenuEntry, MenuItem, NumericMenuItem, Stringable,
};
use macropad_sequencer::sequencer_timer::TimingOption;

const TIMINGS: [TimingOption; 6] = [
    TimingOption::Quarter,
    TimingOption::QuarterTriplet,
    TimingOption::Eighth,
    TimingOption::EighthTriplet,
    TimingOption::Sixteenth,
    TimingOption::SixteenthTriplet,
];

#[test]
fn numeric_item_shows_decimal() {
    let item = NumericMenuItem::new("BPM", 120, BPM_FIELD);
    let (title, value) = MenuItem::<SequencerMenuValue>::as_str(&item);
    assert_eq!(title, "BPM");
    assert_eq!(value, "120");
    let zero = NumericMenuItem::new("X", 0, BPM_FIELD);
    assert_eq!(MenuItem::<SequencerMenuValue>::as_str(&zero).1, "0");
    let max = NumericMenuItem::new("X", u32::MAX, BPM_FIELD);
    assert_eq!(MenuItem::<SequencerMenuValue>::as_str(&max).1, "4294967295");
}

#[test]
fn numeric_item_adds_and_writes() {
    let mut item = NumericMenuItem::new("BPM", 120, BPM_FIELD);
    let mut value = SequencerMenuValue::default();
    item.on_change(&mut value, 5);
    assert_eq!(item.value, 125);
    assert_eq!(value.bpm, 125);
    item.on_change(&mut value, -5);
    assert_eq!(item.value, 120);
    assert_eq!(value.bpm, 120);
    assert_eq!(value.steps, 12);
}

#[test]
fn numeric_item_stops_at_zero() {
    let mut item = NumericMenuItem::new("BPM", 1, BPM_FIELD);
    let mut value = SequencerMenuValue::default();
    item.on_change(&mut value, -3);
    assert_eq!(item.value, 0);
    assert_eq!(value.bpm, 0);
    item.on_change(&mut value, 2);
    assert_eq!(item.value, 2);
}

#[test]
fn numeric_item_above_i32_range_reads_negative() {
    let mut item = NumericMenuItem::new("BPM", 3_000_000_000, BPM_FIELD);
    let mut value = SequencerMenuValue::default();
    item.on_change(&mut value, 1);
    assert_eq!(item.value, 0);
}

#[test]
fn boolean_item_flips() {
    let mut item = BooleanMenuItem::new("STATUS", "PLAYING", "PAUSED", false, PLAY_FIELD);
    let mut value = SequencerMenuValue::default();
    assert_eq!(MenuItem::<SequencerMenuValue>::as_str(&item).1, "PAUSED");
    item.on_change(&mut value, 7);
    assert!(item.value);
    assert!(value.play);
    assert_eq!(MenuItem::<SequencerMenuValue>::as_str(&item).1, "PLAYING");
    item.on_change(&mut value, -1);
    assert!(!item.value);
    assert!(!value.play);
}

#[test]
fn enum_item_starts_at_value() {
    let item = EnumMenuItem::new("TIMING", TIMINGS, TimingOption::EighthTriplet, 2);
    assert_eq!(MenuItem::<SequencerMenuValue>::as_str(&item).1, "1/8 triplet");
    assert!(item.value() == TimingOption::EighthTriplet);
}

#[test]
fn enum_item_missing_value_starts_at_first_option() {
    let options = [TimingOption::Eighth, TimingOption::Sixteenth];
    let item = EnumMenuItem::new("TIMING", options, TimingOption::Quarter, 2);
    assert_eq!(MenuItem::<SequencerMenuValue>::as_str(&item).1, "1/8");
    assert!(item.value() == TimingOption::Quarter);
}

#[test]
fn enum_item_wraps_both_ways() {
    let mut item = EnumMenuItem::new("TIMING", TIMINGS, TimingOption::SixteenthTriplet, 2);
    let mut value = SequencerMenuValue::default();
    item.on_change(&mut value, 1);
    assert!(item.value() == TimingOption::Quarter);
    assert!(value.timing == TimingOption::Quarter);
    item.on_change(&mut value, -1);
    assert!(value.timing == TimingOption::SixteenthTriplet);
    item.on_change(&mut value, -13);
    assert!(value.timing == TimingOption::Sixteenth);
    item.on_change(&mut value, 20);
    assert!(value.timing == TimingOption::Quarter);
}

#[test]
fn enum_item_set_moves_to_value() {
    let mut item = EnumMenuItem::new("NOTE", [Note::A, Note::C, Note::E], Note::A, NOTE_FIELD);
    item.set(Note::E);
    assert_eq!(MenuItem::<StepMenuValue>::as_str(&item).1, "E");
    let mut value = StepMenuValue::default();
    item.on_change(&mut value, 1);
    assert!(value.note == Note::A);
    item.set(Note::D);
    assert_eq!(MenuItem::<StepMenuValue>::as_str(&item).1, "A");
}

#[test]
fn labels() {
    assert_eq!(TimingOption::Quarter.as_str(), "1/4");
    assert_eq!(TimingOption::SixteenthTriplet.as_str(), "1/16 triplet");
    assert_eq!(Note::BFlat.as_str(), "Bb");
    assert_eq!(Note::CSharp.as_str(), "C#");
    assert_eq!(Note::AFlat.as_str(), "Ab");
}

#[test]
fn sequencer_defaults() {
    let v = SequencerMenuValue::default();
    assert!(!v.play);
    assert_eq!(v.bpm, 120);
    assert!(v.timing == TimingOption::Eighth);
    assert_eq!(v.steps, 12);
}

fn sequencer_menu() -> Menu<'static, SequencerMenuValue, SequencerMenuEntry<'static>, 4> {
    let items = SequencerMenuItems::new();
    Menu::new("Sequencer", SequencerMenuValue::default(), items.entries())
}

#[test]
fn sequencer_menu_renders_defaults() {
    let menu = sequencer_menu();
    assert_eq!(menu.title(), "Sequencer");
    let lines = menu.render();
    assert_eq!(lines.len(), 4);
    let texts: Vec<(&str, &str)> = lines.iter().map(|l| (l.title.as_str(), l.value.as_str())).collect();
    assert_eq!(texts, vec![("STATUS", "PAUSED"), ("BPM", "120"), ("TIMING", "1/8"), ("STEPS", "12")]);
    assert_eq!(lines[0].state, MenuItemState::Selected);
    assert_eq!(lines[1].state, MenuItemState::Unselected);
    for (i, line) in lines.iter().enumerate() {
        assert_eq!(line.position, i);
    }
}

#[test]
fn menu_select_toggles_line_choice() {
    let mut menu = sequencer_menu();
    menu.on_select();
    assert_eq!(menu.render()[0].state, MenuItemState::Selecting);
    menu.on_select();
    assert_eq!(menu.render()[0].state, MenuItemState::Selected);
}

#[test]
fn menu_moves_lines_cyclically_and_back() {
    let mut menu = sequencer_menu();
    menu.on_select();
    assert!(menu.on_change(-1).is_none());
    let lines = menu.render();
    assert_eq!(lines[3].state, MenuItemState::Selecting);
    assert!(menu.on_change(1).is_none());
    assert_eq!(menu.render()[0].state, MenuItemState::Selecting);
    assert!(menu.on_change(6).is_none());
    assert_eq!(menu.render()[2].state, MenuItemState::Selecting);
}

#[test]
fn menu_edit_reports_value() {
    let mut menu = sequencer_menu();
    menu.on_select();
    menu.on_change(1);
    menu.on_select();
    let sent = menu.on_change(10).expect("an edit reports the value");
    assert_eq!(sent.bpm, 130);
    assert!(!sent.play);
    assert_eq!(menu.value().bpm, 130);
    assert_eq!(menu.render()[1].value, "130");
}

#[test]
fn step_items_defaults() {
    let items = StepMenuItems::new();
    let menu = Menu::new("Step", StepMenuValue::default(), items.entries());
    let lines = menu.render();
    let texts: Vec<(&str, &str)> = lines.iter().map(|l| (l.title.as_str(), l.value.as_str())).collect();
    assert_eq!(texts, vec![("NOTE", "C"), ("OCTAVE", "3"), ("VELOCITY", "100")]);
}

#[test]
fn menu_entry_dispatches() {
    let mut entry: MenuEntry<'static, Note, 12> = MenuEntry::Numeric(NumericMenuItem::new("OCTAVE", 3, 1));
    let mut value = StepMenuValue::default();
    entry.on_change(&mut value, 2);
    assert_eq!(value.octave, 5);
    assert_eq!(MenuItem::<StepMenuValue>::as_str(&entry).1, "5");
}

#[test]
fn settings_items_write_own_field() {
    let mut items = SequencerMenuItems::new();
    let start = SequencerMenuValue { play: false, bpm: 90, timing: TimingOption::Quarter, steps: 7 };
    let mut v = start;
    items.steps_menu.on_change(&mut v, 2);
    assert_eq!(v.steps, 14);
    assert_eq!(v.bpm, 90);
    assert!(!v.play && v.timing == TimingOption::Quarter);
    let mut w = start;
    items.timing_menu.on_change(&mut w, 1);
    assert!(w.timing == TimingOption::EighthTriplet);
    assert_eq!((w.bpm, w.steps, w.play), (90, 7, false));
    let mut x = start;
    items.play_menu.on_change(&mut x, 1);
    assert!(x.play);
    assert_eq!((x.bpm, x.steps), (90, 7));
}
