//! The sequencer's global settings menu.

use vstd::prelude::*;

use crate::menus::{
    BooleanMenuItem, EnumMenuItem, MenuEntry, MenuItem, NumericMenuItem, SetField, Stringable,
};
use crate::sequencer_timer::TimingOption;

verus! {

impl Stringable for TimingOption {
    open spec fn label(&self) -> Seq<char> {
        match *self {
            TimingOption::Quarter => "1/4"@,
            TimingOption::QuarterTriplet => "1/4 triplet"@,
            TimingOption::Eighth => "1/8"@,
            TimingOption::EighthTriplet => "1/8 triplet"@,
            TimingOption::Sixteenth => "1/16"@,
            TimingOption::SixteenthTriplet => "1/16 triplet"@,
        }
    }

    fn as_str(&self) -> (s: &'static str) {
        match self {
            TimingOption::Quarter => "1/4",
            TimingOption::QuarterTriplet => "1/4 triplet",
            TimingOption::Eighth => "1/8",
            TimingOption::EighthTriplet => "1/8 triplet",
            TimingOption::Sixteenth => "1/16",
            TimingOption::SixteenthTriplet => "1/16 triplet",
        }
    }
}

/// The settings shared between the menu, the key handling and the step clock.
#[derive(Clone, Copy, Debug)]
pub struct SequencerMenuValue {
    pub play: bool,
    pub bpm: u32,
    pub timing: TimingOption,
    pub steps: u32,
}

/// The part written by the play/pause item.
pub const PLAY_FIELD: usize = 0;

/// The part written by the tempo item.
pub const BPM_FIELD: usize = 1;

/// The part written by the note-length item.
pub const TIMING_FIELD: usize = 2;

/// The part written by the step-count item.
pub const STEPS_FIELD: usize = 3;

impl SequencerMenuValue {
    pub open spec fn spec_default() -> Self {
        SequencerMenuValue { play: false, bpm: 120, timing: TimingOption::Eighth, steps: 12 }
    }
}

impl Default for SequencerMenuValue {
    /// Paused, 120 BPM, eighth notes, twelve steps.
    fn default() -> (v: Self)
        ensures
            v == SequencerMenuValue::spec_default(),
    {
        SequencerMenuValue { play: false, bpm: 120, timing: TimingOption::Eighth, steps: 12 }
    }
}

impl SetField<bool> for SequencerMenuValue {
    open spec fn with_field(self, field: usize, value: bool) -> Self {
        if field == PLAY_FIELD {
            SequencerMenuValue { play: value, ..self }
        } else {
            self
        }
    }

    fn set_field(&mut self, field: usize, value: bool) {
        if field == PLAY_FIELD {
            self.play = value;
        }
    }
}

impl SetField<u32> for SequencerMenuValue {
    open spec fn with_field(self, field: usize, value: u32) -> Self {
        if field == BPM_FIELD {
            SequencerMenuValue { bpm: value, ..self }
        } else if field == STEPS_FIELD {
            SequencerMenuValue { steps: value, ..self }
        } else {
            self
        }
    }

    fn set_field(&mut self, field: usize, value: u32) {
        if field == BPM_FIELD {
            self.bpm = value;
        } else if field == STEPS_FIELD {
            self.steps = value;
        }
    }
}

impl SetField<TimingOption> for SequencerMenuValue {
    open spec fn with_field(self, field: usize, value: TimingOption) -> Self {
        if field == TIMING_FIELD {
            SequencerMenuValue { timing: value, ..self }
        } else {
            self
        }
    }

    fn set_field(&mut self, field: usize, value: TimingOption) {
        if field == TIMING_FIELD {
            self.timing = value;
        }
    }
}

/// The note lengths in menu order.
pub open spec fn timing_options() -> Seq<TimingOption> {
    seq![
        TimingOption::Quarter,
        TimingOption::QuarterTriplet,
        TimingOption::Eighth,
        TimingOption::EighthTriplet,
        TimingOption::Sixteenth,
        TimingOption::SixteenthTriplet,
    ]
}

/// A line of the settings menu.
pub type SequencerMenuEntry<'a> = MenuEntry<'a, TimingOption, 6>;

/// The four items of the settings menu.
pub struct SequencerMenuItems<'a> {
    pub play_menu: BooleanMenuItem<'a>,
    pub bpm_menu: NumericMenuItem<'a>,
    pub timing_menu: EnumMenuItem<'a, 6, TimingOption>,
    pub steps_menu: NumericMenuItem<'a>,
}

impl<'a> SequencerMenuItems<'a> {
    /// The items, showing the default settings.
    pub fn new() -> (items: Self)
        ensures
            items.play_menu.title@ == "STATUS"@,
            items.play_menu.on_str@ == "PLAYING"@,
            items.play_menu.off_str@ == "PAUSED"@,
            items.play_menu.value == false,
            items.play_menu.field == PLAY_FIELD,
            items.bpm_menu.title@ == "BPM"@,
            items.bpm_menu.value == 120,
            items.bpm_menu.field == BPM_FIELD,
            items.timing_menu.title() == "TIMING"@,
            items.timing_menu.options() == timing_options(),
            items.timing_menu.index() == 2,
            items.timing_menu.spec_value() == TimingOption::Eighth,
            items.timing_menu.field() == TIMING_FIELD,
            items.timing_menu.wf(),
            items.steps_menu.title@ == "STEPS"@,
            items.steps_menu.value == 12,
            items.steps_menu.field == STEPS_FIELD,
    {
        let defaults = SequencerMenuValue::default();
        let play_menu = BooleanMenuItem::new("STATUS", "PLAYING", "PAUSED", defaults.play, PLAY_FIELD);
        let bpm_menu = NumericMenuItem::new("BPM", defaults.bpm, BPM_FIELD);
        let options = [
            TimingOption::Quarter,
            TimingOption::QuarterTriplet,
            TimingOption::Eighth,
            TimingOption::EighthTriplet,
            TimingOption::Sixteenth,
            TimingOption::SixteenthTriplet,
        ];
        proof {
            TimingOption::lemma_eq_is_identity();
            assert(options@ =~= timing_options());
            lemma_first_position(options@, 2);
        }
        let timing_menu = EnumMenuItem::new("TIMING", options, defaults.timing, TIMING_FIELD);
        let steps_menu = NumericMenuItem::new("STEPS", defaults.steps, STEPS_FIELD);
        SequencerMenuItems { play_menu, bpm_menu, timing_menu, steps_menu }
    }

    /// The menu lines in display order: status, tempo, note length, step count.
    pub fn entries(&self) -> (e: [SequencerMenuEntry<'a>; 4])
        ensures
            e@ == seq![
                MenuEntry::Boolean(self.play_menu),
                MenuEntry::Numeric(self.bpm_menu),
                MenuEntry::Choice(self.timing_menu),
                MenuEntry::Numeric(self.steps_menu),
            ],
    {
        let e = [
            MenuEntry::Boolean(self.play_menu),
            MenuEntry::Numeric(self.bpm_menu),
            MenuEntry::Choice(self.timing_menu),
            MenuEntry::Numeric(self.steps_menu),
        ];
        assert(e@ =~= seq![
            MenuEntry::Boolean(self.play_menu),
            MenuEntry::Numeric(self.bpm_menu),
            MenuEntry::Choice(self.timing_menu),
            MenuEntry::Numeric(self.steps_menu),
        ]);
        e
    }
}

/// In a sequence without repeats, the first position of an element is where it stands.
pub proof fn lemma_first_position<E>(options: Seq<E>, i: int)
    requires
        0 <= i < options.len(),
        forall|a: int, b: int| 0 <= a < b < options.len() ==> options[a] != options[b],
    ensures
        crate::menus::position_or_zero(options, options[i]) == i,
{
    let v = options[i];
    assert(0 <= i < options.len() && options[i] == v && forall|j: int| 0 <= j < i ==> options[j] != v);
}

/// Each settings item writes only its own part of the settings: after a turn that the item's
/// arithmetic allows, the settings are the old ones with that one part set to the item's new
/// value.
pub proof fn lemma_settings_items_write_own_field(
    items: SequencerMenuItems<'_>,
    v: SequencerMenuValue,
    step: i32,
)
    requires
        items.play_menu.field == PLAY_FIELD,
        items.bpm_menu.field == BPM_FIELD,
        items.timing_menu.field() == TIMING_FIELD,
        items.steps_menu.field == STEPS_FIELD,
    ensures
        ({
            let p = <BooleanMenuItem<'_> as MenuItem<SequencerMenuValue>>::changed(
                &items.play_menu,
                step,
            );
            p.written(v) == SequencerMenuValue { play: p.value, ..v }
        }),
        <NumericMenuItem<'_> as MenuItem<SequencerMenuValue>>::can_change(&items.bpm_menu, step)
            ==> {
            let b = <NumericMenuItem<'_> as MenuItem<SequencerMenuValue>>::changed(
                &items.bpm_menu,
                step,
            );
            b.written(v) == SequencerMenuValue { bpm: b.value, ..v }
        },
        <EnumMenuItem<'_, 6, TimingOption> as MenuItem<SequencerMenuValue>>::can_change(
            &items.timing_menu,
            step,
        ) ==> {
            let t = <EnumMenuItem<'_, 6, TimingOption> as MenuItem<SequencerMenuValue>>::changed(
                &items.timing_menu,
                step,
            );
            <EnumMenuItem<'_, 6, TimingOption> as MenuItem<SequencerMenuValue>>::written(&t, v)
                == SequencerMenuValue { timing: t.spec_value(), ..v }
        },
        <NumericMenuItem<'_> as MenuItem<SequencerMenuValue>>::can_change(&items.steps_menu, step)
            ==> {
            let n = <NumericMenuItem<'_> as MenuItem<SequencerMenuValue>>::changed(
                &items.steps_menu,
                step,
            );
            n.written(v) == SequencerMenuValue { steps: n.value, ..v }
        },
{
    let i = items.timing_menu;
    let index = crate::menus::wrap_index(i.index() as int, step as int, 6) as usize;
    i.lemma_moved(index, i.options()[index as int]);
}

} // verus!
