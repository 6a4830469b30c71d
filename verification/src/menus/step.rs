//! The per-step menu: the note a key plays.

use vstd::prelude::*;

use crate::menus::{EnumMenuItem, MenuEntry, NumericMenuItem, SetField, Stringable};

verus! {

/// A pitch class, counted from A.
#[derive(Clone, Copy, Debug)]
pub enum Note {
    A,
    BFlat,
    B,
    C,
    CSharp,
    D,
    EFlat,
    E,
    F,
    FSharp,
    G,
    AFlat,
}

impl Note {
    /// Semitones above A.
    pub open spec fn semitones(self) -> u8 {
        match self {
            Note::A => 0,
            Note::BFlat => 1,
            Note::B => 2,
            Note::C => 3,
            Note::CSharp => 4,
            Note::D => 5,
            Note::EFlat => 6,
            Note::E => 7,
            Note::F => 8,
            Note::FSharp => 9,
            Note::G => 10,
            Note::AFlat => 11,
        }
    }

    /// Semitones above A.
    pub fn offset(&self) -> (n: u8)
        ensures
            n == self.semitones(),
    {
        match self {
            Note::A => 0,
            Note::BFlat => 1,
            Note::B => 2,
            Note::C => 3,
            Note::CSharp => 4,
            Note::D => 5,
            Note::EFlat => 6,
            Note::E => 7,
            Note::F => 8,
            Note::FSharp => 9,
            Note::G => 10,
            Note::AFlat => 11,
        }
    }

    /// Notes are equal exactly when `==` says so.
    pub proof fn lemma_eq_is_identity()
        ensures
            vstd::laws_eq::obeys_concrete_eq::<Note>(),
    {
        reveal(vstd::laws_eq::obeys_concrete_eq);
    }
}

impl PartialEq for Note {
    fn eq(&self, other: &Self) -> (r: bool) {
        self.offset() == other.offset()
    }
}

impl vstd::std_specs::cmp::PartialEqSpecImpl for Note {
    open spec fn obeys_eq_spec() -> bool {
        true
    }

    open spec fn eq_spec(&self, other: &Self) -> bool {
        *self == *other
    }
}

impl Eq for Note {

}

impl Stringable for Note {
    open spec fn label(&self) -> Seq<char> {
        match *self {
            Note::A => "A"@,
            Note::BFlat => "Bb"@,
            Note::B => "B"@,
            Note::C => "C"@,
            Note::CSharp => "C#"@,
            Note::D => "D"@,
            Note::EFlat => "Eb"@,
            Note::E => "E"@,
            Note::F => "F"@,
            Note::FSharp => "F#"@,
            Note::G => "G"@,
            Note::AFlat => "Ab"@,
        }
    }

    fn as_str(&self) -> (s: &'static str) {
        match self {
            Note::A => "A",
            Note::BFlat => "Bb",
            Note::B => "B",
            Note::C => "C",
            Note::CSharp => "C#",
            Note::D => "D",
            Note::EFlat => "Eb",
            Note::E => "E",
            Note::F => "F",
            Note::FSharp => "F#",
            Note::G => "G",
            Note::AFlat => "Ab",
        }
    }
}

/// The twelve notes in menu order.
pub open spec fn note_options() -> Seq<Note> {
    seq![
        Note::A,
        Note::BFlat,
        Note::B,
        Note::C,
        Note::CSharp,
        Note::D,
        Note::EFlat,
        Note::E,
        Note::F,
        Note::FSharp,
        Note::G,
        Note::AFlat,
    ]
}

/// What one sequencer step plays.
#[derive(Clone, Copy, Debug)]
pub struct StepMenuValue {
    pub note: Note,
    pub octave: u32,
    pub velocity: u32,
}

/// The part written by the note item.
pub const NOTE_FIELD: usize = 0;

/// The part written by the octave item.
pub const OCTAVE_FIELD: usize = 1;

/// The part written by the velocity item.
pub const VELOCITY_FIELD: usize = 2;

impl StepMenuValue {
    pub open spec fn spec_default() -> Self {
        StepMenuValue { note: Note::C, octave: 3, velocity: 100 }
    }
}

impl Default for StepMenuValue {
    /// Middle C at velocity 100.
    fn default() -> (v: Self)
        ensures
            v == StepMenuValue::spec_default(),
    {
        StepMenuValue { note: Note::C, octave: 3, velocity: 100 }
    }
}

impl SetField<Note> for StepMenuValue {
    open spec fn with_field(self, field: usize, value: Note) -> Self {
        if field == NOTE_FIELD {
            StepMenuValue { note: value, ..self }
        } else {
            self
        }
    }

    fn set_field(&mut self, field: usize, value: Note) {
        if field == NOTE_FIELD {
            self.note = value;
        }
    }
}

impl SetField<u32> for StepMenuValue {
    open spec fn with_field(self, field: usize, value: u32) -> Self {
        if field == OCTAVE_FIELD {
            StepMenuValue { octave: value, ..self }
        } else if field == VELOCITY_FIELD {
            StepMenuValue { velocity: value, ..self }
        } else {
            self
        }
    }

    fn set_field(&mut self, field: usize, value: u32) {
        if field == OCTAVE_FIELD {
            self.octave = value;
        } else if field == VELOCITY_FIELD {
            self.velocity = value;
        }
    }
}

impl SetField<bool> for StepMenuValue {
    /// A step has no flag: writing one changes nothing.
    open spec fn with_field(self, field: usize, value: bool) -> Self {
        self
    }

    fn set_field(&mut self, field: usize, value: bool) {
    }
}

/// A line of the step menu.
pub type StepMenuEntry<'a> = MenuEntry<'a, Note, 12>;

/// The three items of the step menu.
pub struct StepMenuItems<'a> {
    pub note_menu: EnumMenuItem<'a, 12, Note>,
    pub octave_menu: NumericMenuItem<'a>,
    pub velocity_menu: NumericMenuItem<'a>,
}

impl<'a> StepMenuItems<'a> {
    /// The items, showing the default step.
    pub fn new() -> (items: Self)
        ensures
            items.note_menu.title() == "NOTE"@,
            items.note_menu.options() == note_options(),
            items.note_menu.index() == 3,
            items.note_menu.spec_value() == Note::C,
            items.note_menu.field() == NOTE_FIELD,
            items.note_menu.wf(),
            items.octave_menu.title@ == "OCTAVE"@,
            items.octave_menu.value == 3,
            items.octave_menu.field == OCTAVE_FIELD,
            items.velocity_menu.title@ == "VELOCITY"@,
            items.velocity_menu.value == 100,
            items.velocity_menu.field == VELOCITY_FIELD,
    {
        let defaults = StepMenuValue::default();
        let options = [
            Note::A,
            Note::BFlat,
            Note::B,
            Note::C,
            Note::CSharp,
            Note::D,
            Note::EFlat,
            Note::E,
            Note::F,
            Note::FSharp,
            Note::G,
            Note::AFlat,
        ];
        proof {
            Note::lemma_eq_is_identity();
            assert(options@ =~= note_options());
            lemma_note_position(Note::C);
        }
        let note_menu = EnumMenuItem::new("NOTE", options, defaults.note, NOTE_FIELD);
        let octave_menu = NumericMenuItem::new("OCTAVE", defaults.octave, OCTAVE_FIELD);
        let velocity_menu = NumericMenuItem::new("VELOCITY", defaults.velocity, VELOCITY_FIELD);
        StepMenuItems { note_menu, octave_menu, velocity_menu }
    }

    /// The menu lines in display order: note, octave, velocity.
    pub fn entries(&self) -> (e: [StepMenuEntry<'a>; 3])
        ensures
            e@ == seq![
                MenuEntry::Choice(self.note_menu),
                MenuEntry::Numeric(self.octave_menu),
                MenuEntry::Numeric(self.velocity_menu),
            ],
    {
        let e = [
            MenuEntry::Choice(self.note_menu),
            MenuEntry::Numeric(self.octave_menu),
            MenuEntry::Numeric(self.velocity_menu),
        ];
        assert(e@ =~= seq![
            MenuEntry::Choice(self.note_menu),
            MenuEntry::Numeric(self.octave_menu),
            MenuEntry::Numeric(self.velocity_menu),
        ]);
        e
    }
}

/// Every note stands in the note list at its distance in semitones from A.
pub proof fn lemma_note_position(n: Note)
    ensures
        note_options()[n.semitones() as int] == n,
        crate::menus::position_or_zero(note_options(), n) == n.semitones(),
{
    crate::menus::sequencer::lemma_first_position(note_options(), n.semitones() as int);
}

} // verus!
