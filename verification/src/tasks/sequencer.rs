//! The step clock's decision on each tick.

use vstd::prelude::*;

use crate::menus::sequencer::SequencerMenuValue;
use crate::sequencer_timer::{step_ms, SequencerConfig, SequencerTimer};

verus! {

/// Takes the current settings into the clock; returns whether this tick advances a step.
pub fn sequencer_tick(timer: &mut SequencerTimer, settings: SequencerMenuValue) -> (play: bool)
    requires
        settings.bpm > 0,
    ensures
        final(timer).wf(),
        final(timer).bpm() == settings.bpm,
        final(timer).timing() == settings.timing,
        final(timer).spec_speed_ms() == step_ms(settings.bpm, settings.timing),
        play == settings.play,
{
    let SequencerMenuValue { play, bpm, timing, steps: _steps } = settings;
    timer.set(SequencerConfig { bpm, timing });
    play
}

} // verus!
