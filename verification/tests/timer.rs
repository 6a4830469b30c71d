use macropad_sequencer::menus::sequencer::SequencerMenuValue;
use macropad_sequencer::sequencer_timer::{config_to_ms, SequencerConfig, SequencerTimer, TimingOption};
use macropad_sequencer::tasks::sequencer::sequencer_tick;

fn ms(bpm: u32, timing: TimingOption) -> u32 {
    config_to_ms(&SequencerConfig { bpm, timing })
}

#[test]
fn step_lengths_at_120_bpm() {
    assert_eq!(ms(120, TimingOption::Quarter), 500);
    assert_eq!(ms(120, TimingOption::QuarterTriplet), 333);
    assert_eq!(ms(120, TimingOption::Eighth), 250);
    assert_eq!(ms(120, TimingOption::EighthTriplet), 166);
    assert_eq!(ms(120, TimingOption::Sixteenth), 125);
    assert_eq!(ms(120, TimingOption::SixteenthTriplet), 83);
}

#[test]
fn step_lengths_at_extreme_tempos() {
    assert_eq!(ms(1, TimingOption::Quarter), 60_000);
    assert_eq!(ms(60_001, TimingOption::Quarter), 0);
    assert_eq!(ms(u32::MAX, TimingOption::SixteenthTriplet), 0);
}

#[test]
fn faster_tempo_never_lengthens_step() {
    for timing in [TimingOption::Quarter, TimingOption::Eighth, TimingOption::SixteenthTriplet] {
        let mut last = u32::MAX;
        for bpm in 1..400u32 {
            let now = ms(bpm, timing);
            assert!(now <= last);
            last = now;
        }
    }
}

#[test]
fn timer_starts_at_120_quarter() {
    let timer = SequencerTimer::new();
    assert_eq!(timer.speed_ms(), 500);
}

#[test]
fn timer_follows_configuration() {
    let mut timer = SequencerTimer::new();
    timer.set(SequencerConfig { bpm: 90, timing: TimingOption::Eighth });
    assert_eq!(timer.speed_ms(), 333);
    timer.set(SequencerConfig { bpm: 150, timing: TimingOption::Sixteenth });
    assert_eq!(timer.speed_ms(), 100);
}

#[test]
fn tick_reports_play_flag_and_sets_speed() {
    let mut timer = SequencerTimer::new();
    let settings = SequencerMenuValue { play: true, bpm: 60, timing: TimingOption::Quarter, steps: 4 };
    assert!(sequencer_tick(&mut timer, settings));
    assert_eq!(timer.speed_ms(), 1000);
    let paused = SequencerMenuValue { play: false, ..SequencerMenuValue::default() };
    assert!(!sequencer_tick(&mut timer, paused));
    assert_eq!(timer.speed_ms(), 250);
}

#[test]
fn timing_equality_is_by_variant() {
    assert!(TimingOption::Quarter == TimingOption::Quarter);
    assert!(TimingOption::Quarter != TimingOption::QuarterTriplet);
    assert!(TimingOption::default() == TimingOption::Quarter);
}
