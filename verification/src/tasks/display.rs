//! The display task's state machine: which menu is shown and what an encoder event does to it.

use vstd::prelude::*;

use crate::menus::render::MenuItemRender;
use crate::menus::sequencer::{
    timing_options, SequencerMenuEntry, SequencerMenuItems, SequencerMenuValue, BPM_FIELD,
    PLAY_FIELD, STEPS_FIELD, TIMING_FIELD,
};
use crate::menus::step::{
    lemma_note_position, note_options, StepMenuEntry, StepMenuItems, StepMenuValue, NOTE_FIELD,
    OCTAVE_FIELD, VELOCITY_FIELD,
};
use crate::menus::{
    menu_can_change, menu_changed, menu_selected, menu_wf, Menu, MenuEntry, MenuItem, MenuView,
    Stringable,
};
use crate::tasks::controls::ControlEvent;

verus! {

/// What the display task is told.
#[derive(Clone, Copy, Debug)]
#[allow(inconsistent_fields)]
pub enum DisplayUpdate {
    RotaryMove { increment: i32 },
    RotaryPress,
    StepMenu { value: Option<StepMenuValue> },
}

/// The settings menu's lines show the default settings.
pub open spec fn sequencer_entries_default(e: Seq<SequencerMenuEntry<'static>>) -> bool {
    &&& e.len() == 4
    &&& e[0] matches MenuEntry::Boolean(i) && i.title@ == "STATUS"@ && i.on_str@ == "PLAYING"@
        && i.off_str@ == "PAUSED"@ && i.value == false && i.field == PLAY_FIELD
    &&& e[1] matches MenuEntry::Numeric(i) && i.title@ == "BPM"@ && i.value == 120 && i.field
        == BPM_FIELD
    &&& e[2] matches MenuEntry::Choice(i) && i.title() == "TIMING"@ && i.options()
        == timing_options() && i.index() == 2 && i.spec_value()
        == crate::sequencer_timer::TimingOption::Eighth && i.field() == TIMING_FIELD && i.wf()
    &&& e[3] matches MenuEntry::Numeric(i) && i.title@ == "STEPS"@ && i.value == 12 && i.field
        == STEPS_FIELD
}

/// The step menu's lines show the note, octave and velocity of `v`.
pub open spec fn step_entries_show(e: Seq<StepMenuEntry<'static>>, v: StepMenuValue) -> bool {
    &&& e.len() == 3
    &&& e[0] matches MenuEntry::Choice(i) && i.title() == "NOTE"@ && i.options() == note_options()
        && i.index() == v.note.semitones() && i.spec_value() == v.note && i.field() == NOTE_FIELD
        && i.wf()
    &&& e[1] matches MenuEntry::Numeric(i) && i.title@ == "OCTAVE"@ && i.value == v.octave
        && i.field == OCTAVE_FIELD
    &&& e[2] matches MenuEntry::Numeric(i) && i.title@ == "VELOCITY"@ && i.value == v.velocity
        && i.field == VELOCITY_FIELD
}

/// A fresh step menu showing `v`, editing its first line, holding `v` as its value.
pub open spec fn fresh_step_menu(
    m: MenuView<StepMenuValue, StepMenuEntry<'static>>,
    v: StepMenuValue,
) -> bool {
    &&& m.title == "Step"@
    &&& m.index == 0
    &&& !m.selecting
    &&& m.value == v
    &&& step_entries_show(m.items, v)
}

/// The step menu's value is the step its lines show: each line writes its own part.
pub open spec fn step_menu_matches(m: MenuView<StepMenuValue, StepMenuEntry<'static>>) -> bool {
    &&& m.items.len() == 3
    &&& m.items[0] matches MenuEntry::Choice(i) && i.field() == NOTE_FIELD && i.spec_value()
        == m.value.note
    &&& m.items[1] matches MenuEntry::Numeric(i) && i.field == OCTAVE_FIELD && i.value
        == m.value.octave
    &&& m.items[2] matches MenuEntry::Numeric(i) && i.field == VELOCITY_FIELD && i.value
        == m.value.velocity
}

/// Turning the encoder in a step menu whose value matches its lines keeps them matching, and
/// changes only the part of the line being edited: the step reported is the shown step with
/// that one part replaced by the line's new value.
pub proof fn lemma_step_edit_changes_one_part(
    m: MenuView<StepMenuValue, StepMenuEntry<'static>>,
    step: i32,
)
    requires
        menu_wf(m),
        step_menu_matches(m),
        menu_can_change(m, step),
    ensures
        step_menu_matches(menu_changed(m, step).0),
        !m.selecting ==> {
            let v = m.value;
            let w = menu_changed(m, step).0.value;
            &&& menu_changed(m, step).1 == Some(w)
            &&& m.index == 0 ==> w == StepMenuValue { note: w.note, ..v }
            &&& m.index == 1 ==> w == StepMenuValue { octave: w.octave, ..v }
            &&& m.index == 2 ==> w == StepMenuValue { velocity: w.velocity, ..v }
        },
{
    if !m.selecting && m.index == 0 {
        if let MenuEntry::Choice(i) = m.items[0] {
            let index = crate::menus::wrap_index(i.index() as int, step as int, 12) as usize;
            i.lemma_moved(index, i.options()[index as int]);
        }
    }
}

/// The abstract state of the display task.
pub struct DisplayModel {
    pub sequencer: MenuView<SequencerMenuValue, SequencerMenuEntry<'static>>,
    pub step: MenuView<StepMenuValue, StepMenuEntry<'static>>,
    pub show_step: bool,
}

/// Both menus are usable and the settings menu has its four lines.
pub open spec fn display_wf(d: DisplayModel) -> bool {
    &&& menu_wf(d.sequencer)
    &&& menu_wf(d.step)
    &&& d.sequencer.items.len() == 4
    &&& d.step.items.len() == 3
    &&& step_menu_matches(d.step)
}

/// The encoder can turn without overflowing the menu shown.
pub open spec fn display_can_handle(d: DisplayModel, update: DisplayUpdate) -> bool {
    match update {
        DisplayUpdate::RotaryMove { increment } => if d.show_step {
            menu_can_change(d.step, increment)
        } else {
            menu_can_change(d.sequencer, increment)
        },
        _ => true,
    }
}

/// How the display task's state follows an update, and what it reports to the key-handling
/// task. A turn edits or moves in the menu shown, reporting the menu's value when an item
/// changed; a press switches between choosing and editing; a step update shows a fresh step
/// menu for the given step, or goes back to the settings menu.
pub open spec fn display_step(
    d: DisplayModel,
    update: DisplayUpdate,
    d2: DisplayModel,
    sent: Option<ControlEvent>,
) -> bool {
    match update {
        DisplayUpdate::RotaryMove { increment } => if d.show_step {
            let (step, value) = menu_changed(d.step, increment);
            &&& d2 == DisplayModel { step, ..d }
            &&& sent == match value {
                Some(v) => Some(ControlEvent::StepMenuChange { value: v }),
                None => None,
            }
        } else {
            let (sequencer, value) = menu_changed(d.sequencer, increment);
            &&& d2 == DisplayModel { sequencer, ..d }
            &&& sent == match value {
                Some(v) => Some(ControlEvent::SequencerMenuChange { value: v }),
                None => None,
            }
        },
        DisplayUpdate::RotaryPress => {
            &&& sent is None
            &&& d2 == if d.show_step {
                DisplayModel { step: menu_selected(d.step), ..d }
            } else {
                DisplayModel { sequencer: menu_selected(d.sequencer), ..d }
            }
        },
        DisplayUpdate::StepMenu { value } => {
            &&& sent is None
            &&& d2.sequencer == d.sequencer
            &&& d2.show_step == value is Some
            &&& match value {
                Some(v) => fresh_step_menu(d2.step, v),
                None => d2.step == d.step,
            }
        },
    }
}

/// The display task's menus.
pub struct DisplayController {
    sequencer_menu: Menu<'static, SequencerMenuValue, SequencerMenuEntry<'static>, 4>,
    step_menu: Menu<'static, StepMenuValue, StepMenuEntry<'static>, 3>,
    show_step: bool,
}

impl View for DisplayController {
    type V = DisplayModel;

    closed spec fn view(&self) -> DisplayModel {
        DisplayModel {
            sequencer: self.sequencer_menu@,
            step: self.step_menu@,
            show_step: self.show_step,
        }
    }
}

impl DisplayController {
    /// The settings menu with the default settings is shown; the step menu shows the default step.
    pub fn new() -> (d: Self)
        ensures
            display_wf(d@),
            d@.sequencer.title == "Sequencer"@,
            d@.sequencer.index == 0,
            !d@.sequencer.selecting,
            d@.sequencer.value == SequencerMenuValue::spec_default(),
            sequencer_entries_default(d@.sequencer.items),
            fresh_step_menu(d@.step, StepMenuValue::spec_default()),
            !d@.show_step,
    {
        let sequencer_items = SequencerMenuItems::new();
        let sequencer_menu = Menu::new(
            "Sequencer",
            SequencerMenuValue::default(),
            sequencer_items.entries(),
        );
        let step_menu = Self::fresh_step_menu(StepMenuValue::default());
        DisplayController { sequencer_menu, step_menu, show_step: false }
    }

    fn fresh_step_menu(value: StepMenuValue) -> (menu: Menu<
        'static,
        StepMenuValue,
        StepMenuEntry<'static>,
        3,
    >)
        ensures
            fresh_step_menu(menu@, value),
            menu_wf(menu@),
    {
        let mut step_items = StepMenuItems::new();
        proof {
            crate::menus::step::Note::lemma_eq_is_identity();
            lemma_note_position(value.note);
        }
        let ghost before = step_items.note_menu;
        step_items.note_menu.set(value.note);
        proof {
            before.lemma_moved(value.note.semitones() as usize, value.note);
        }
        step_items.octave_menu.value = value.octave;
        step_items.velocity_menu.value = value.velocity;
        Menu::new("Step", value, step_items.entries())
    }

    /// Handles one update; returns the event for the key-handling task, if any.
    pub fn handle(&mut self, update: DisplayUpdate) -> (sent: Option<ControlEvent>)
        requires
            display_wf(old(self)@),
            display_can_handle(old(self)@, update),
        ensures
            display_step(old(self)@, update, final(self)@, sent),
            display_wf(final(self)@),
    {
        match update {
            DisplayUpdate::RotaryMove { increment } => {
                if self.show_step {
                    proof {
                        lemma_step_edit_changes_one_part(self.step_menu@, increment);
                    }
                    match self.step_menu.on_change(increment) {
                        Some(value) => Some(ControlEvent::StepMenuChange { value }),
                        None => None,
                    }
                } else {
                    match self.sequencer_menu.on_change(increment) {
                        Some(value) => Some(ControlEvent::SequencerMenuChange { value }),
                        None => None,
                    }
                }
            },
            DisplayUpdate::RotaryPress => {
                if self.show_step {
                    self.step_menu.on_select();
                } else {
                    self.sequencer_menu.on_select();
                }
                None
            },
            DisplayUpdate::StepMenu { value } => {
                self.show_step = value.is_some();
                if let Some(value) = value {
                    self.step_menu = Self::fresh_step_menu(value);
                }
                None
            },
        }
    }

    /// Whether the update can be handled without overflowing.
    pub fn can_handle(&self, update: &DisplayUpdate) -> (b: bool)
        requires
            display_wf(self@),
        ensures
            b == display_can_handle(self@, *update),
    {
        match update {
            DisplayUpdate::RotaryMove { increment } => if self.show_step {
                self.step_menu.can_change(*increment)
            } else {
                self.sequencer_menu.can_change(*increment)
            },
            _ => true,
        }
    }

    /// The step menu is shown rather than the settings menu.
    pub fn showing_step(&self) -> (b: bool)
        ensures
            b == self@.show_step,
    {
        self.show_step
    }

    /// The heading and lines of the menu shown.
    pub fn render(&self) -> (screen: (&'static str, Vec<MenuItemRender>))
        requires
            display_wf(self@),
        ensures
            screen.0@ == if self@.show_step {
                self@.step.title
            } else {
                self@.sequencer.title
            },
            screen.1@.len() == if self@.show_step {
                3int
            } else {
                4int
            },
            forall|i: int|
                0 <= i < screen.1@.len() ==> {
                    &&& (#[trigger] screen.1@[i]).position == i
                    &&& if self@.show_step {
                        &&& screen.1@[i].title@ == <StepMenuEntry<'static> as MenuItem<StepMenuValue>>::title_view(&self@.step.items[i])
                        &&& screen.1@[i].value@ == <StepMenuEntry<'static> as MenuItem<StepMenuValue>>::value_view(&self@.step.items[i])
                        &&& screen.1@[i].state == crate::menus::render::item_state(
                            i,
                            self@.step.index as int,
                            self@.step.selecting,
                        )
                    } else {
                        &&& screen.1@[i].title@ == <SequencerMenuEntry<'static> as MenuItem<SequencerMenuValue>>::title_view(
                            &self@.sequencer.items[i],
                        )
                        &&& screen.1@[i].value@ == <SequencerMenuEntry<'static> as MenuItem<SequencerMenuValue>>::value_view(
                            &self@.sequencer.items[i],
                        )
                        &&& screen.1@[i].state == crate::menus::render::item_state(
                            i,
                            self@.sequencer.index as int,
                            self@.sequencer.selecting,
                        )
                    }
                },
    {
        if self.show_step {
            (self.step_menu.title(), self.step_menu.render())
        } else {
            (self.sequencer_menu.title(), self.sequencer_menu.render())
        }
    }
}

/// Holding a single key shows the step menu for that key's step: its lines show the step's
/// note, octave and velocity, and turning the encoder edits the note line first.
pub proof fn lemma_step_menu_shows_step(
    d: DisplayModel,
    v: StepMenuValue,
    d2: DisplayModel,
    sent: Option<ControlEvent>,
)
    requires
        display_step(d, DisplayUpdate::StepMenu { value: Some(v) }, d2, sent),
    ensures
        d2.show_step,
        sent is None,
        d2.sequencer == d.sequencer,
        d2.step.index == 0,
        !d2.step.selecting,
        <StepMenuEntry<'static> as MenuItem<StepMenuValue>>::value_view(&d2.step.items[0])
            == v.note.label(),
        <StepMenuEntry<'static> as MenuItem<StepMenuValue>>::value_view(&d2.step.items[1])
            == crate::menus::decimal(v.octave as nat),
        <StepMenuEntry<'static> as MenuItem<StepMenuValue>>::value_view(&d2.step.items[2])
            == crate::menus::decimal(v.velocity as nat),
{
    lemma_note_position(v.note);
}

/// Releasing the keys goes back to the settings menu, which is as it was.
pub proof fn lemma_closing_step_menu(d: DisplayModel, d2: DisplayModel, sent: Option<ControlEvent>)
    requires
        display_step(d, DisplayUpdate::StepMenu { value: None }, d2, sent),
    ensures
        !d2.show_step,
        sent is None,
        d2.sequencer == d.sequencer,
{
}

/// Turning the encoder once in a freshly shown step menu moves the note on by a semitone and
/// reports the held step with only its note changed.
pub proof fn lemma_step_menu_turn_reports(
    d: DisplayModel,
    v: StepMenuValue,
    d2: DisplayModel,
    s1: Option<ControlEvent>,
    d3: DisplayModel,
    s2: Option<ControlEvent>,
)
    requires
        display_step(d, DisplayUpdate::StepMenu { value: Some(v) }, d2, s1),
        display_step(d2, DisplayUpdate::RotaryMove { increment: 1 }, d3, s2),
    ensures
        s2 == Some(
            ControlEvent::StepMenuChange {
                value: StepMenuValue { note: note_options()[(v.note.semitones() + 1) % 12], ..v },
            },
        ),
{
    lemma_note_position(v.note);
    if let MenuEntry::Choice(i) = d2.step.items[0] {
        let index = crate::menus::wrap_index(i.index() as int, 1, 12) as usize;
        i.lemma_moved(index, i.options()[index as int]);
    }
}

/// Every edit in the shown step menu reports the step shown with only the edited part changed.
pub proof fn lemma_step_menu_edit_keeps_other_parts(
    d: DisplayModel,
    increment: i32,
    d2: DisplayModel,
    sent: Option<ControlEvent>,
)
    requires
        display_wf(d),
        d.show_step,
        !d.step.selecting,
        display_can_handle(d, DisplayUpdate::RotaryMove { increment }),
        display_step(d, DisplayUpdate::RotaryMove { increment }, d2, sent),
    ensures
        sent matches Some(ControlEvent::StepMenuChange { value: w }) && {
            let v = d.step.value;
            &&& w == d2.step.value
            &&& d.step.index == 0 ==> w == StepMenuValue { note: w.note, ..v }
            &&& d.step.index == 1 ==> w == StepMenuValue { octave: w.octave, ..v }
            &&& d.step.index == 2 ==> w == StepMenuValue { velocity: w.velocity, ..v }
        },
{
    lemma_step_edit_changes_one_part(d.step, increment);
}

/// On the freshly started display, turning the encoder flips the play flag and reports the
/// settings with it flipped.
pub proof fn lemma_first_turn_starts_playing(
    d: DisplayModel,
    increment: i32,
    d2: DisplayModel,
    sent: Option<ControlEvent>,
)
    requires
        d.sequencer.index == 0,
        !d.sequencer.selecting,
        d.sequencer.value == SequencerMenuValue::spec_default(),
        sequencer_entries_default(d.sequencer.items),
        !d.show_step,
        display_step(d, DisplayUpdate::RotaryMove { increment }, d2, sent),
    ensures
        sent == Some(
            ControlEvent::SequencerMenuChange {
                value: SequencerMenuValue { play: true, ..SequencerMenuValue::spec_default() },
            },
        ),
{
}

} // verus!
