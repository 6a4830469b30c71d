//! The key-handling and step-advancing state machine.

use vstd::prelude::*;

use crate::grid::{
    coord_from_index, in_grid, index_of_coord, key_index, lemma_index_round_trip,
    spec_coord_from_index, Coord, NUM_KEYS,
};
use crate::key_leds::Color;
use crate::menus::sequencer::SequencerMenuValue;
use crate::menus::step::StepMenuValue;
use crate::tasks::display::DisplayUpdate;
use crate::tasks::lights::LedUpdate;
use crate::tasks::usb_midi::MidiEvent;

verus! {

/// What the key-handling task is told.
#[derive(Clone, Copy, Debug)]
#[allow(inconsistent_fields)]
pub enum ControlEvent {
    Key { pressed: bool, held: bool, coord: Coord },
    RotaryButton { pressed: bool },
    SequencerStep,
    RotaryEncoder { increment: i32 },
    SequencerMenuChange { value: SequencerMenuValue },
    StepMenuChange { value: StepMenuValue },
}

/// What the key-handling task asks the other tasks to do, in order.
#[derive(Clone, Copy, Debug)]
pub enum ControlAction {
    /// Recolour a key.
    Light(LedUpdate),
    /// Start or stop a note.
    Midi(MidiEvent),
    /// Tell the display.
    Display(DisplayUpdate),
    /// Publish the settings to the step clock.
    ShareSequencerMenu(SequencerMenuValue),
}

/// One key's step.
#[derive(Clone, Copy, Debug)]
pub struct StepState {
    /// The step plays while the sequencer runs.
    pub active: bool,
    pub pressed: bool,
    pub held: bool,
    pub value: StepMenuValue,
}

impl StepState {
    pub open spec fn spec_default() -> Self {
        StepState {
            active: false,
            pressed: false,
            held: false,
            value: StepMenuValue::spec_default(),
        }
    }
}

impl Default for StepState {
    fn default() -> (s: Self)
        ensures
            s == StepState::spec_default(),
    {
        StepState { active: false, pressed: false, held: false, value: StepMenuValue::default() }
    }
}

/// Colour of an active step.
pub open spec fn active_color() -> Color {
    Color { r: 5, g: 5, b: 5 }
}

/// Colour of the step being played.
pub open spec fn current_color() -> Color {
    Color { r: 32, g: 0, b: 0 }
}

/// Colour of a step that is not being played.
pub open spec fn step_color(active: bool) -> Color {
    if active {
        active_color()
    } else {
        Color::spec_off()
    }
}

fn key_color(active: bool) -> (c: Color)
    ensures
        c == step_color(active),
{
    if active {
        Color { r: 5, g: 5, b: 5 }
    } else {
        Color::off()
    }
}

/// The note event for a step; octave and velocity are cut to a byte.
pub open spec fn spec_note_event(on: bool, v: StepMenuValue) -> MidiEvent {
    MidiEvent::Note { on, note: v.note, octave: v.octave as u8, velocity: v.velocity as u8 }
}

fn note_event(on: bool, v: StepMenuValue) -> (e: MidiEvent)
    ensures
        e == spec_note_event(on, v),
{
    MidiEvent::Note { on, note: v.note, octave: v.octave as u8, velocity: v.velocity as u8 }
}

/// How many keys are down.
pub open spec fn pressed_count(keys: Seq<StepState>) -> int
    decreases keys.len(),
{
    if keys.len() == 0 {
        0
    } else {
        pressed_count(keys.drop_last()) + if keys.last().pressed {
            1int
        } else {
            0int
        }
    }
}

/// Starting after `pos`, the first of the next `remaining` keys (cyclically) that is down.
pub open spec fn seek_pressed(keys: Seq<StepState>, pos: int, remaining: nat) -> int
    decreases remaining,
{
    if remaining == 0 {
        pos
    } else {
        let next = (pos + 1) % (NUM_KEYS as int);
        if keys[next].pressed {
            next
        } else {
            seek_pressed(keys, next, (remaining - 1) as nat)
        }
    }
}

/// The next key after `start`, cyclically, that is down; `start` itself where it is the only one.
pub open spec fn next_pressed(keys: Seq<StepState>, start: int) -> int {
    seek_pressed(keys, start, NUM_KEYS as nat)
}

/// The abstract state of the key-handling task.
pub struct ControlsModel {
    pub keys: Seq<StepState>,
    pub num_steps: usize,
    pub num_keys_pressed: int,
    pub selected_step: Option<Coord>,
    pub step_index: usize,
    pub step: Coord,
    pub last_note: Option<StepMenuValue>,
    pub play: bool,
}

/// The state the key-handling task keeps between events.
pub open spec fn controls_wf(m: ControlsModel) -> bool {
    &&& m.keys.len() == NUM_KEYS
    &&& m.step_index < NUM_KEYS
    &&& m.step == spec_coord_from_index(m.step_index as int)
    &&& (m.selected_step matches Some(c) ==> in_grid(c))
    &&& i32::MIN <= m.num_keys_pressed <= pressed_count(m.keys)
}

/// The event can be handled without indexing off the pad or overflowing.
pub open spec fn controls_can_handle(m: ControlsModel, event: ControlEvent) -> bool {
    match event {
        ControlEvent::Key { pressed, held, coord } => in_grid(coord) && (pressed
            || m.num_keys_pressed > i32::MIN),
        ControlEvent::SequencerStep => m.num_keys_pressed > 0 || (m.num_steps > 0 && (
        m.step_index + 1) % (m.num_steps as int) < NUM_KEYS),
        _ => true,
    }
}

/// A key went down, was held, or came up.
pub open spec fn key_changed(m: ControlsModel, coord: Coord, pressed: bool, held: bool) -> (
    ControlsModel,
    Seq<ControlAction>,
) {
    let k = key_index(coord);
    let before = m.keys[k];
    let toggles = !pressed && before.pressed && !before.held;
    let after = StepState {
        active: if toggles {
            !before.active
        } else {
            before.active
        },
        pressed,
        held,
        value: before.value,
    };
    let count = if !pressed {
        m.num_keys_pressed - 1
    } else if !before.pressed {
        m.num_keys_pressed + 1
    } else {
        m.num_keys_pressed
    };
    let light = if toggles {
        seq![ControlAction::Light(LedUpdate { coord, color: step_color(after.active) })]
    } else {
        seq![]
    };
    let selects = pressed && count == 1 && held;
    let menu = if !pressed {
        if count != 1 {
            seq![ControlAction::Display(DisplayUpdate::StepMenu { value: None })]
        } else {
            seq![]
        }
    } else {
        seq![
            ControlAction::Display(
                DisplayUpdate::StepMenu {
                    value: if selects {
                        Some(before.value)
                    } else {
                        None
                    },
                },
            ),
        ]
    };
    let selected = if !pressed {
        m.selected_step
    } else if selects {
        Some(coord)
    } else {
        None
    };
    (
        ControlsModel {
            keys: m.keys.update(k, after),
            num_keys_pressed: count,
            selected_step: selected,
            ..m
        },
        light + menu,
    )
}

/// The clock ticked: stop the last note, move to the next step and play it.
/// While keys are down only those keys play; otherwise the first `num_steps` keys take turns.
pub open spec fn step_advanced(m: ControlsModel) -> (ControlsModel, Seq<ControlAction>) {
    let current = m.keys[key_index(m.step)];
    let stop = match m.last_note {
        Some(v) => seq![ControlAction::Midi(spec_note_event(false, v))],
        None => seq![],
    };
    let next_index = if m.num_keys_pressed > 0 {
        next_pressed(m.keys, m.step_index as int)
    } else {
        (m.step_index + 1) % (m.num_steps as int)
    };
    let next_step = spec_coord_from_index(next_index);
    let next = m.keys[key_index(next_step)];
    let play = if next.active || m.num_keys_pressed > 0 {
        seq![ControlAction::Midi(spec_note_event(true, next.value))]
    } else {
        seq![]
    };
    (
        ControlsModel {
            step_index: next_index as usize,
            step: next_step,
            last_note: Some(next.value),
            ..m
        },
        stop + play + seq![
            ControlAction::Light(LedUpdate { coord: m.step, color: step_color(current.active) }),
            ControlAction::Light(LedUpdate { coord: next_step, color: current_color() }),
        ],
    )
}

/// The settings changed: take the step count and play flag, stopping the last note on pause.
pub open spec fn settings_changed(m: ControlsModel, value: SequencerMenuValue) -> (
    ControlsModel,
    Seq<ControlAction>,
) {
    let stop = if m.play && !value.play && m.last_note is Some {
        seq![ControlAction::Midi(spec_note_event(false, m.last_note->0))]
    } else {
        seq![]
    };
    (
        ControlsModel { num_steps: value.steps as usize, play: value.play, ..m },
        stop.push(ControlAction::ShareSequencerMenu(value)),
    )
}

/// The step menu changed: the selected key, if any, takes the new note.
pub open spec fn step_value_changed(m: ControlsModel, value: StepMenuValue) -> ControlsModel {
    match m.selected_step {
        Some(c) => {
            let k = key_index(c);
            ControlsModel { keys: m.keys.update(k, StepState { value, ..m.keys[k] }), ..m }
        },
        None => m,
    }
}

/// The next state of the key-handling task and what it asks of the other tasks.
pub open spec fn controls_next(m: ControlsModel, event: ControlEvent) -> (
    ControlsModel,
    Seq<ControlAction>,
) {
    match event {
        ControlEvent::Key { pressed, held, coord } => key_changed(m, coord, pressed, held),
        ControlEvent::RotaryButton { pressed } => if pressed {
            (m, seq![ControlAction::Display(DisplayUpdate::RotaryPress)])
        } else {
            (m, seq![])
        },
        ControlEvent::RotaryEncoder { increment } => (
            m,
            seq![ControlAction::Display(DisplayUpdate::RotaryMove { increment })],
        ),
        ControlEvent::SequencerStep => step_advanced(m),
        ControlEvent::SequencerMenuChange { value } => settings_changed(m, value),
        ControlEvent::StepMenuChange { value } => (step_value_changed(m, value), seq![]),
    }
}

/// Changing one key changes the count of keys down by the change of its flag.
pub proof fn lemma_pressed_count_update(keys: Seq<StepState>, k: int, s: StepState)
    requires
        0 <= k < keys.len(),
    ensures
        pressed_count(keys.update(k, s)) == pressed_count(keys) - (if keys[k].pressed {
            1int
        } else {
            0int
        }) + (if s.pressed {
            1int
        } else {
            0int
        }),
    decreases keys.len(),
{
    let u = keys.update(k, s);
    if k == keys.len() - 1 {
        assert(u.drop_last() =~= keys.drop_last());
    } else {
        assert(u.drop_last() =~= keys.drop_last().update(k, s));
        lemma_pressed_count_update(keys.drop_last(), k, s);
    }
}

/// With no key down the count is zero.
pub proof fn lemma_pressed_count_none(keys: Seq<StepState>)
    requires
        forall|i: int| 0 <= i < keys.len() ==> !(#[trigger] keys[i]).pressed,
    ensures
        pressed_count(keys) == 0,
    decreases keys.len(),
{
    if keys.len() > 0 {
        lemma_pressed_count_none(keys.drop_last());
    }
}

/// The count of keys down lies between zero and the number of keys.
pub proof fn lemma_pressed_count_bounds(keys: Seq<StepState>)
    ensures
        0 <= pressed_count(keys) <= keys.len(),
    decreases keys.len(),
{
    if keys.len() > 0 {
        lemma_pressed_count_bounds(keys.drop_last());
    }
}

/// The state of the key-handling task.
pub struct Controls {
    keys: Vec<StepState>,
    num_steps: usize,
    num_keys_pressed: i32,
    selected_step: Option<Coord>,
    step_index: usize,
    step: Coord,
    last_note: Option<StepMenuValue>,
    play: bool,
}

impl View for Controls {
    type V = ControlsModel;

    closed spec fn view(&self) -> ControlsModel {
        ControlsModel {
            keys: self.keys@,
            num_steps: self.num_steps,
            num_keys_pressed: self.num_keys_pressed as int,
            selected_step: self.selected_step,
            step_index: self.step_index,
            step: self.step,
            last_note: self.last_note,
            play: self.play,
        }
    }
}

impl Controls {
    /// Every step off and no key down; twelve steps, stopped, on the first key.
    pub fn new() -> (c: Self)
        ensures
            c@ == initial_controls(),
            controls_inv(c@),
    {
        let mut keys: Vec<StepState> = Vec::new();
        let mut i: usize = 0;
        while i < NUM_KEYS
            invariant
                i <= NUM_KEYS,
                keys@ == Seq::new(i as nat, |j: int| StepState::spec_default()),
            decreases NUM_KEYS - i,
        {
            keys.push(StepState::default());
            i += 1;
        }
        proof {
            lemma_pressed_count_none(keys@);
        }
        Controls {
            keys,
            num_steps: 12,
            num_keys_pressed: 0,
            selected_step: None,
            step_index: 0,
            step: (0, 0),
            last_note: None,
            play: false,
        }
    }

    /// Handles one event; returns what the other tasks are to do, in order.
    pub fn handle(&mut self, event: ControlEvent) -> (actions: Vec<ControlAction>)
        requires
            controls_wf(old(self)@),
            controls_can_handle(old(self)@, event),
        ensures
            (final(self)@, actions@) == controls_next(old(self)@, event),
            controls_wf(final(self)@),
    {
        match event {
            ControlEvent::Key { pressed, held, coord } => self.key_changed(coord, pressed, held),
            ControlEvent::RotaryButton { pressed } => {
                let mut actions: Vec<ControlAction> = Vec::new();
                if pressed {
                    actions.push(ControlAction::Display(DisplayUpdate::RotaryPress));
                }
                assert(actions@ =~= controls_next(old(self)@, event).1);
                actions
            },
            ControlEvent::RotaryEncoder { increment } => {
                let mut actions: Vec<ControlAction> = Vec::new();
                actions.push(ControlAction::Display(DisplayUpdate::RotaryMove { increment }));
                assert(actions@ =~= controls_next(old(self)@, event).1);
                actions
            },
            ControlEvent::SequencerStep => self.advance(),
            ControlEvent::SequencerMenuChange { value } => {
                let mut actions: Vec<ControlAction> = Vec::new();
                self.num_steps = value.steps as usize;
                if self.play && !value.play {
                    if let Some(note) = self.last_note {
                        actions.push(ControlAction::Midi(note_event(false, note)));
                    }
                }
                self.play = value.play;
                actions.push(ControlAction::ShareSequencerMenu(value));
                assert(actions@ =~= controls_next(old(self)@, event).1);
                actions
            },
            ControlEvent::StepMenuChange { value } => {
                if let Some(coord) = self.selected_step {
                    let k = index_of_coord(coord);
                    let mut state = self.keys[k];
                    state.value = value;
                    self.keys.set(k, state);
                    proof {
                        lemma_pressed_count_update(old(self)@.keys, k as int, state);
                    }
                }
                Vec::new()
            },
        }
    }

    fn key_changed(&mut self, coord: Coord, pressed: bool, held: bool) -> (actions: Vec<
        ControlAction,
    >)
        requires
            controls_wf(old(self)@),
            in_grid(coord),
            pressed || old(self)@.num_keys_pressed > i32::MIN,
        ensures
            (final(self)@, actions@) == key_changed(old(self)@, coord, pressed, held),
            controls_wf(final(self)@),
    {
        let mut actions: Vec<ControlAction> = Vec::new();
        let k = index_of_coord(coord);
        let mut state = self.keys[k];
        let was_pressed = state.pressed;
        let was_held = state.held;
        state.pressed = pressed;
        state.held = held;
        if !pressed && was_pressed && !was_held {
            state.active = !state.active;
            actions.push(ControlAction::Light(LedUpdate { coord, color: key_color(state.active) }));
        }
        self.keys.set(k, state);
        proof {
            lemma_pressed_count_update(old(self)@.keys, k as int, state);
            lemma_pressed_count_bounds(old(self)@.keys);
        }
        if !pressed {
            self.num_keys_pressed = self.num_keys_pressed - 1;
            if self.num_keys_pressed != 1 {
                actions.push(ControlAction::Display(DisplayUpdate::StepMenu { value: None }));
            }
        } else {
            if !was_pressed && pressed {
                self.num_keys_pressed = self.num_keys_pressed + 1;
            }
            let value = if self.num_keys_pressed == 1 && held {
                self.selected_step = Some(coord);
                Some(state.value)
            } else {
                self.selected_step = None;
                None
            };
            actions.push(ControlAction::Display(DisplayUpdate::StepMenu { value }));
        }
        assert(actions@ =~= key_changed(old(self)@, coord, pressed, held).1);
        actions
    }

    fn advance(&mut self) -> (actions: Vec<ControlAction>)
        requires
            controls_wf(old(self)@),
            controls_can_handle(old(self)@, ControlEvent::SequencerStep),
        ensures
            (final(self)@, actions@) == step_advanced(old(self)@),
            controls_wf(final(self)@),
    {
        let mut actions: Vec<ControlAction> = Vec::new();
        proof {
            lemma_index_round_trip(self.step_index as int);
        }
        let current = self.keys[index_of_coord(self.step)];
        if let Some(value) = self.last_note {
            actions.push(ControlAction::Midi(note_event(false, value)));
        }
        let prev_color = key_color(current.active);
        let next_step = if self.num_keys_pressed > 0 {
            self.step_index = self.seek_pressed_key();
            coord_from_index(self.step_index)
        } else {
            self.step_index = (self.step_index + 1) % self.num_steps;
            coord_from_index(self.step_index)
        };
        proof {
            lemma_index_round_trip(self.step_index as int);
        }
        let next = self.keys[index_of_coord(next_step)];
        self.last_note = Some(next.value);
        if next.active || self.num_keys_pressed > 0 {
            actions.push(ControlAction::Midi(note_event(true, next.value)));
        }
        actions.push(ControlAction::Light(LedUpdate { coord: self.step, color: prev_color }));
        actions.push(ControlAction::Light(LedUpdate { coord: next_step, color: Color { r: 32, g: 0, b: 0 } }));
        self.step = next_step;
        assert(actions@ =~= step_advanced(old(self)@).1);
        actions
    }

    /// Whether the event can be handled without indexing off the pad or overflowing.
    pub fn can_handle(&self, event: &ControlEvent) -> (b: bool)
        requires
            controls_wf(self@),
        ensures
            b == controls_can_handle(self@, *event),
    {
        match event {
            ControlEvent::Key { pressed, held: _, coord } => (coord.0 as usize) < crate::grid::COLS
                && (coord.1 as usize) < crate::grid::ROWS && (*pressed || self.num_keys_pressed
                > i32::MIN),
            ControlEvent::SequencerStep => self.num_keys_pressed > 0 || (self.num_steps > 0 && (
            self.step_index + 1) % self.num_steps < NUM_KEYS),
            _ => true,
        }
    }

    /// One key's step.
    pub fn key(&self, coord: Coord) -> (s: StepState)
        requires
            controls_wf(self@),
            in_grid(coord),
        ensures
            s == self@.keys[key_index(coord)],
    {
        self.keys[index_of_coord(coord)]
    }

    /// The key of the step being played.
    pub fn current_step(&self) -> (c: Coord)
        ensures
            c == self@.step,
    {
        self.step
    }

    /// How many keys are counted as down.
    pub fn keys_down(&self) -> (n: i32)
        ensures
            n == self@.num_keys_pressed,
    {
        self.num_keys_pressed
    }

    /// The key whose step the step menu edits, if any.
    pub fn selected_step(&self) -> (c: Option<Coord>)
        ensures
            c == self@.selected_step,
    {
        self.selected_step
    }

    /// The next key after the current step, cyclically, that is down.
    fn seek_pressed_key(&self) -> (index: usize)
        requires
            controls_wf(self@),
            self@.num_keys_pressed > 0,
        ensures
            index == next_pressed(self@.keys, self@.step_index as int),
            index < NUM_KEYS,
            self@.keys[index as int].pressed,
    {
        let ghost start = self.step_index as int;
        let ghost keys = self@.keys;
        let mut index = (self.step_index + 1) % NUM_KEYS;
        let mut remaining: usize = NUM_KEYS - 1;
        while !self.keys[index].pressed
            invariant
                controls_wf(self@),
                self@.num_keys_pressed > 0,
                keys == self@.keys,
                start == self.step_index,
                index < NUM_KEYS,
                remaining < NUM_KEYS,
                index == (start + NUM_KEYS - remaining) % (NUM_KEYS as int),
                forall|d: int|
                    1 <= d < NUM_KEYS - remaining ==> !(#[trigger] keys[(start + d) % (
                    NUM_KEYS as int)]).pressed,
                next_pressed(keys, start) == if keys[index as int].pressed {
                    index as int
                } else {
                    seek_pressed(keys, index as int, remaining as nat)
                },
            decreases remaining,
        {
            proof {
                if remaining == 0 {
                    assert forall|i: int| 0 <= i < keys.len() implies !(#[trigger] keys[i]).pressed by {
                        let d = if i > start {
                            i - start
                        } else {
                            i - start + NUM_KEYS
                        };
                        assert((start + d) % (NUM_KEYS as int) == i);
                    }
                    lemma_pressed_count_none(keys);
                    assert(false);
                }
            }
            index = (index + 1) % NUM_KEYS;
            remaining = remaining - 1;
        }
        index
    }
}

/// A search over the next `remaining` keys finds a key that is down when one of them is.
pub proof fn lemma_seek_finds(keys: Seq<StepState>, pos: int, remaining: nat, d: int)
    requires
        keys.len() == NUM_KEYS,
        0 <= pos < NUM_KEYS,
        1 <= d <= remaining,
        keys[(pos + d) % (NUM_KEYS as int)].pressed,
    ensures
        0 <= seek_pressed(keys, pos, remaining) < NUM_KEYS,
        keys[seek_pressed(keys, pos, remaining)].pressed,
    decreases remaining,
{
    let next = (pos + 1) % (NUM_KEYS as int);
    if !keys[next].pressed {
        assert((next + (d - 1)) % (NUM_KEYS as int) == (pos + d) % (NUM_KEYS as int));
        lemma_seek_finds(keys, next, (remaining - 1) as nat, d - 1);
    }
}

/// Some key is down whenever the count of keys down is positive.
pub proof fn lemma_some_key_down(keys: Seq<StepState>) -> (i: int)
    requires
        pressed_count(keys) > 0,
    ensures
        0 <= i < keys.len(),
        keys[i].pressed,
{
    if forall|i: int| 0 <= i < keys.len() ==> !(#[trigger] keys[i]).pressed {
        lemma_pressed_count_none(keys);
    }
    choose|i: int| 0 <= i < keys.len() && keys[i].pressed
}

/// Holding keys down plays only those keys: while any key is down the sequencer moves to a
/// key that is down and plays its note whether or not the step is active. Otherwise it moves to
/// the next of the first `num_steps` keys and plays it only if the step is active.
pub proof fn lemma_held_keys_play(m: ControlsModel)
    requires
        controls_wf(m),
        controls_can_handle(m, ControlEvent::SequencerStep),
    ensures
        ({
            let (m2, actions) = controls_next(m, ControlEvent::SequencerStep);
            let next = m2.keys[m2.step_index as int];
            &&& m.num_keys_pressed > 0 ==> next.pressed
            &&& m.num_keys_pressed <= 0 ==> m2.step_index < m.num_steps
            &&& m2.last_note == Some(next.value)
            &&& (next.active || m.num_keys_pressed > 0) <==> actions.contains(
                ControlAction::Midi(spec_note_event(true, next.value)),
            )
        }),
{
    let (m2, actions) = controls_next(m, ControlEvent::SequencerStep);
    let start = m.step_index as int;
    let next_index = m2.step_index as int;
    if m.num_keys_pressed > 0 {
        let i = lemma_some_key_down(m.keys);
        let d = if i > start {
            i - start
        } else {
            i - start + NUM_KEYS
        };
        assert((start + d) % (NUM_KEYS as int) == i);
        lemma_seek_finds(m.keys, start, NUM_KEYS as nat, d);
    }
    lemma_index_round_trip(next_index);
    let next = m2.keys[next_index];
    let on = ControlAction::Midi(spec_note_event(true, next.value));
    let stop = match m.last_note {
        Some(v) => seq![ControlAction::Midi(spec_note_event(false, v))],
        None => seq![],
    };
    if next.active || m.num_keys_pressed > 0 {
        assert(actions[stop.len() as int] == on);
    } else {
        assert forall|j: int| 0 <= j < actions.len() implies actions[j] != on by {
        }
    }
}

/// Pressing and releasing a key, without holding it, toggles its step on or off and lights it
/// accordingly; every other key and the count of keys down are as before.
pub proof fn lemma_tap_toggles(m: ControlsModel, c: Coord)
    requires
        controls_wf(m),
        in_grid(c),
        !m.keys[key_index(c)].pressed,
    ensures
        ({
            let k = key_index(c);
            let (m1, _) = controls_next(m, ControlEvent::Key { pressed: true, held: false, coord: c });
            let (m2, actions) = controls_next(
                m1,
                ControlEvent::Key { pressed: false, held: false, coord: c },
            );
            &&& m2.keys[k].active == !m.keys[k].active
            &&& !m2.keys[k].pressed
            &&& m2.keys[k].value == m.keys[k].value
            &&& forall|j: int| 0 <= j < NUM_KEYS && j != k ==> m2.keys[j] == m.keys[j]
            &&& m2.num_keys_pressed == m.num_keys_pressed
            &&& actions[0] == ControlAction::Light(
                LedUpdate { coord: c, color: step_color(m2.keys[k].active) },
            )
        }),
{
}

/// Holding a key before releasing it leaves its step as it was.
pub proof fn lemma_hold_keeps_step(m: ControlsModel, c: Coord)
    requires
        controls_wf(m),
        in_grid(c),
        !m.keys[key_index(c)].pressed,
    ensures
        ({
            let k = key_index(c);
            let (m1, _) = controls_next(m, ControlEvent::Key { pressed: true, held: false, coord: c });
            let (m2, _) = controls_next(m1, ControlEvent::Key { pressed: true, held: true, coord: c });
            let (m3, actions) = controls_next(
                m2,
                ControlEvent::Key { pressed: false, held: false, coord: c },
            );
            &&& m3.keys[k].active == m.keys[k].active
            &&& forall|j: int| 0 <= j < actions.len() ==> !(#[trigger] actions[j] is Light)
        }),
{
    let (m3, actions) = controls_next(
        controls_next(
            controls_next(m, ControlEvent::Key { pressed: true, held: false, coord: c }).0,
            ControlEvent::Key { pressed: true, held: true, coord: c },
        ).0,
        ControlEvent::Key { pressed: false, held: false, coord: c },
    );
    assert(actions.len() <= 1);
}

/// Holding a single key opens the step menu on that key's note, and a change made in that menu
/// is written into that key's step.
pub proof fn lemma_single_hold_edits_step(m: ControlsModel, c: Coord, v: StepMenuValue)
    requires
        controls_wf(m),
        in_grid(c),
        m.num_keys_pressed == 0,
        !m.keys[key_index(c)].pressed,
    ensures
        ({
            let k = key_index(c);
            let (m1, _) = controls_next(m, ControlEvent::Key { pressed: true, held: false, coord: c });
            let (m2, actions) = controls_next(
                m1,
                ControlEvent::Key { pressed: true, held: true, coord: c },
            );
            let (m3, _) = controls_next(m2, ControlEvent::StepMenuChange { value: v });
            &&& m2.selected_step == Some(c)
            &&& actions == seq![
                ControlAction::Display(DisplayUpdate::StepMenu { value: Some(m.keys[k].value) }),
            ]
            &&& m3.keys[k].value == v
            &&& m3.keys[k].active == m.keys[k].active
        }),
{
}

/// With another key already down, pressing a key closes the step menu and selects no step.
pub proof fn lemma_second_key_closes_menu(m: ControlsModel, c: Coord, held: bool)
    requires
        controls_wf(m),
        in_grid(c),
        m.num_keys_pressed >= 1,
        !m.keys[key_index(c)].pressed,
    ensures
        ({
            let (m1, actions) = controls_next(m, ControlEvent::Key { pressed: true, held, coord: c });
            &&& m1.selected_step is None
            &&& actions == seq![ControlAction::Display(DisplayUpdate::StepMenu { value: None })]
        }),
{
}

/// The count of keys down stays exact as long as every release is of a key that is down.
pub proof fn lemma_count_stays_exact(m: ControlsModel, e: ControlEvent)
    requires
        controls_wf(m),
        controls_can_handle(m, e),
        m.num_keys_pressed == pressed_count(m.keys),
        e matches ControlEvent::Key { pressed, coord, .. } ==> (pressed || m.keys[key_index(
            coord,
        )].pressed),
    ensures
        controls_next(m, e).0.num_keys_pressed == pressed_count(controls_next(m, e).0.keys),
{
    match e {
        ControlEvent::Key { pressed, held, coord } => {
            let k = key_index(coord);
            let m2 = controls_next(m, e).0;
            lemma_pressed_count_update(m.keys, k, m2.keys[k]);
        },
        ControlEvent::StepMenuChange { value } => {
            if let Some(c) = m.selected_step {
                let k = key_index(c);
                lemma_pressed_count_update(m.keys, k, StepState { value, ..m.keys[k] });
            }
        },
        _ => {},
    }
}

/// The state the key-handling task starts in.
pub open spec fn initial_controls() -> ControlsModel {
    ControlsModel {
        keys: Seq::new(NUM_KEYS as nat, |i: int| StepState::spec_default()),
        num_steps: 12,
        num_keys_pressed: 0,
        selected_step: None,
        step_index: 0,
        step: (0, 0),
        last_note: None,
        play: false,
    }
}

/// The state is usable, the count of keys down is exact, and the step count lies on the pad.
pub open spec fn controls_inv(m: ControlsModel) -> bool {
    &&& controls_wf(m)
    &&& m.num_keys_pressed == pressed_count(m.keys)
    &&& 1 <= m.num_steps <= NUM_KEYS
}

/// An event the other tasks can send: keys lie on the pad, a key is only released while it is
/// down, and the step count lies between 1 and the number of keys.
pub open spec fn event_well_formed(m: ControlsModel, e: ControlEvent) -> bool {
    match e {
        ControlEvent::Key { pressed, held, coord } => in_grid(coord) && (pressed
            || m.keys[key_index(coord)].pressed),
        ControlEvent::SequencerMenuChange { value } => 1 <= value.steps <= NUM_KEYS,
        _ => true,
    }
}

/// The state after handling `events` in order.
pub open spec fn run_events(m: ControlsModel, events: Seq<ControlEvent>) -> ControlsModel
    decreases events.len(),
{
    if events.len() == 0 {
        m
    } else {
        run_events(controls_next(m, events[0]).0, events.drop_first())
    }
}

/// Every event of the sequence is well formed in the state it reaches.
pub open spec fn events_well_formed(m: ControlsModel, events: Seq<ControlEvent>) -> bool
    decreases events.len(),
{
    events.len() == 0 || (event_well_formed(m, events[0]) && events_well_formed(
        controls_next(m, events[0]).0,
        events.drop_first(),
    ))
}

/// Every event of the sequence can be handled in the state it reaches.
pub open spec fn events_handleable(m: ControlsModel, events: Seq<ControlEvent>) -> bool
    decreases events.len(),
{
    events.len() == 0 || (controls_can_handle(m, events[0]) && events_handleable(
        controls_next(m, events[0]).0,
        events.drop_first(),
    ))
}

/// A well-formed event can be handled and keeps the invariant.
pub proof fn lemma_well_formed_event(m: ControlsModel, e: ControlEvent)
    requires
        controls_inv(m),
        event_well_formed(m, e),
    ensures
        controls_can_handle(m, e),
        controls_inv(controls_next(m, e).0),
{
    lemma_pressed_count_bounds(m.keys);
    match e {
        ControlEvent::Key { pressed, held, coord } => {
            let k = key_index(coord);
            let m2 = controls_next(m, e).0;
            lemma_pressed_count_update(m.keys, k, m2.keys[k]);
        },
        ControlEvent::SequencerStep => {
            let m2 = controls_next(m, e).0;
            if m.num_keys_pressed > 0 {
                let start = m.step_index as int;
                let i = lemma_some_key_down(m.keys);
                let d = if i > start {
                    i - start
                } else {
                    i - start + NUM_KEYS
                };
                assert((start + d) % (NUM_KEYS as int) == i);
                lemma_seek_finds(m.keys, start, NUM_KEYS as nat, d);
            }
        },
        ControlEvent::StepMenuChange { value } => {
            if let Some(c) = m.selected_step {
                let k = key_index(c);
                lemma_pressed_count_update(m.keys, k, StepState { value, ..m.keys[k] });
            }
        },
        _ => {},
    }
}

/// From any state meeting the invariant, a sequence of well-formed events never asks for what
/// the handler cannot do, and the invariant holds after it.
pub proof fn lemma_well_formed_run(m: ControlsModel, events: Seq<ControlEvent>)
    requires
        controls_inv(m),
        events_well_formed(m, events),
    ensures
        events_handleable(m, events),
        controls_inv(run_events(m, events)),
    decreases events.len(),
{
    if events.len() > 0 {
        lemma_well_formed_event(m, events[0]);
        lemma_well_formed_run(controls_next(m, events[0]).0, events.drop_first());
    }
}

/// Starting from the state `Controls::new` gives, well-formed events can always be handled:
/// keys stay on the pad, the count of keys down stays exact, and the search for the next key
/// down always finds one.
pub proof fn lemma_runs_from_start(events: Seq<ControlEvent>)
    requires
        events_well_formed(initial_controls(), events),
    ensures
        events_handleable(initial_controls(), events),
        controls_inv(run_events(initial_controls(), events)),
{
    lemma_pressed_count_none(initial_controls().keys);
    lemma_well_formed_run(initial_controls(), events);
}

/// With two or more keys down after a key event, no step is selected and the step menu is
/// never opened: several held keys only play.
pub proof fn lemma_several_keys_never_select(
    m: ControlsModel,
    coord: Coord,
    pressed: bool,
    held: bool,
)
    requires
        key_changed(m, coord, pressed, held).0.num_keys_pressed >= 2,
    ensures
        key_changed(m, coord, pressed, held).0.selected_step is None || !pressed,
        pressed ==> key_changed(m, coord, pressed, held).0.selected_step is None,
        forall|j: int|
            0 <= j < key_changed(m, coord, pressed, held).1.len() ==> !(
            #[trigger] key_changed(m, coord, pressed, held).1[j] matches ControlAction::Display(
                DisplayUpdate::StepMenu { value: Some(_) },
            )),
{
}

/// A step is selected and its menu opened only when a key is held down and it is the only key
/// counted as down; the menu then shows that key's step.
pub proof fn lemma_select_only_single_hold(
    m: ControlsModel,
    coord: Coord,
    pressed: bool,
    held: bool,
    j: int,
)
    requires
        0 <= j < key_changed(m, coord, pressed, held).1.len(),
        key_changed(m, coord, pressed, held).1[j] matches ControlAction::Display(
            DisplayUpdate::StepMenu { value: Some(_) },
        ),
    ensures
        pressed,
        held,
        key_changed(m, coord, pressed, held).0.num_keys_pressed == 1,
        key_changed(m, coord, pressed, held).0.selected_step == Some(coord),
        key_changed(m, coord, pressed, held).1[j] == ControlAction::Display(
            DisplayUpdate::StepMenu { value: Some(m.keys[key_index(coord)].value) },
        ),
{
}

/// Every tick first stops the note the previous tick started, whatever steps were edited since.
pub proof fn lemma_tick_stops_last_note(m: ControlsModel)
    requires
        m.last_note is Some,
    ensures
        ({
            let v = m.last_note->0;
            let actions = step_advanced(m).1;
            &&& actions.len() > 0
            &&& actions[0] == ControlAction::Midi(
                MidiEvent::Note {
                    on: false,
                    note: v.note,
                    octave: v.octave as u8,
                    velocity: v.velocity as u8,
                },
            )
        }),
{
}

/// A note started on one tick is the note stopped on the next tick, even when the step menu
/// changed that key's step in between.
pub proof fn lemma_started_note_is_stopped(m: ControlsModel, edit: Option<StepMenuValue>)
    requires
        controls_wf(m),
        controls_can_handle(m, ControlEvent::SequencerStep),
    ensures
        ({
            let (m2, a1) = step_advanced(m);
            let w = m2.keys[m2.step_index as int].value;
            let m3 = match edit {
                Some(e) => step_value_changed(m2, e),
                None => m2,
            };
            let a2 = step_advanced(m3).1;
            &&& a1.contains(ControlAction::Midi(spec_note_event(true, w))) ==> a2[0]
                == ControlAction::Midi(
                MidiEvent::Note {
                    on: false,
                    note: w.note,
                    octave: w.octave as u8,
                    velocity: w.velocity as u8,
                },
            )
            &&& m3.last_note == Some(w)
        }),
{
    let (m2, a1) = step_advanced(m);
    if m.num_keys_pressed > 0 {
        let start = m.step_index as int;
        let i = lemma_some_key_down(m.keys);
        let d = if i > start {
            i - start
        } else {
            i - start + NUM_KEYS
        };
        assert((start + d) % (NUM_KEYS as int) == i);
        lemma_seek_finds(m.keys, start, NUM_KEYS as nat, d);
    }
    lemma_index_round_trip(m2.step_index as int);
    lemma_held_keys_play(m);
}

} // verus!
