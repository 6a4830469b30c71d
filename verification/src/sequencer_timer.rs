use vstd::prelude::*;

verus! {

/// Note length of one sequencer step.
#[derive(Clone, Copy, Debug)]
pub enum TimingOption {
    Quarter,
    QuarterTriplet,
    Eighth,
    EighthTriplet,
    Sixteenth,
    SixteenthTriplet,
}

impl TimingOption {
    /// Position of the option in declaration order.
    pub open spec fn ordinal(self) -> u8 {
        match self {
            TimingOption::Quarter => 0,
            TimingOption::QuarterTriplet => 1,
            TimingOption::Eighth => 2,
            TimingOption::EighthTriplet => 3,
            TimingOption::Sixteenth => 4,
            TimingOption::SixteenthTriplet => 5,
        }
    }

    fn exec_ordinal(&self) -> (n: u8)
        ensures
            n == self.ordinal(),
    {
        match self {
            TimingOption::Quarter => 0,
            TimingOption::QuarterTriplet => 1,
            TimingOption::Eighth => 2,
            TimingOption::EighthTriplet => 3,
            TimingOption::Sixteenth => 4,
            TimingOption::SixteenthTriplet => 5,
        }
    }

    /// Options are equal exactly when `==` says so.
    pub proof fn lemma_eq_is_identity()
        ensures
            vstd::laws_eq::obeys_concrete_eq::<TimingOption>(),
    {
        reveal(vstd::laws_eq::obeys_concrete_eq);
    }
}

impl PartialEq for TimingOption {
    fn eq(&self, other: &Self) -> (r: bool) {
        self.exec_ordinal() == other.exec_ordinal()
    }
}

impl vstd::std_specs::cmp::PartialEqSpecImpl for TimingOption {
    open spec fn obeys_eq_spec() -> bool {
        true
    }

    open spec fn eq_spec(&self, other: &Self) -> bool {
        *self == *other
    }
}

impl Eq for TimingOption {

}

impl Default for TimingOption {
    fn default() -> (t: Self)
        ensures
            t == TimingOption::Quarter,
    {
        TimingOption::Quarter
    }
}

/// Milliseconds per minute scaled by the length of one step, in quarter notes.
pub open spec fn timing_numerator(t: TimingOption) -> nat {
    match t {
        TimingOption::Quarter => 60_000,
        TimingOption::QuarterTriplet => 40_000,
        TimingOption::Eighth => 30_000,
        TimingOption::EighthTriplet => 20_000,
        TimingOption::Sixteenth => 15_000,
        TimingOption::SixteenthTriplet => 10_000,
    }
}

/// Step length in milliseconds for a tempo and a note length.
pub open spec fn step_ms(bpm: u32, t: TimingOption) -> nat
    recommends
        bpm > 0,
{
    timing_numerator(t) / (bpm as nat)
}

pub struct SequencerConfig {
    pub bpm: u32,
    pub timing: TimingOption,
}

pub struct SequencerTimer {
    config: SequencerConfig,
    speed_ms: u32,
}

impl SequencerTimer {
    pub closed spec fn bpm(&self) -> u32 {
        self.config.bpm
    }

    pub closed spec fn timing(&self) -> TimingOption {
        self.config.timing
    }

    pub closed spec fn spec_speed_ms(&self) -> u32 {
        self.speed_ms
    }

    /// The step length always matches the configuration.
    pub closed spec fn wf(&self) -> bool {
        &&& self.config.bpm > 0
        &&& self.speed_ms == step_ms(self.config.bpm, self.config.timing)
    }

    pub fn new() -> (t: Self)
        ensures
            t.wf(),
            t.bpm() == 120,
            t.timing() == TimingOption::Quarter,
            t.spec_speed_ms() == 500,
    {
        let config = SequencerConfig { bpm: 120, timing: TimingOption::Quarter };
        let speed_ms = config_to_ms(&config);
        SequencerTimer { config, speed_ms }
    }

    pub fn set(&mut self, config: SequencerConfig)
        requires
            config.bpm > 0,
        ensures
            final(self).wf(),
            final(self).bpm() == config.bpm,
            final(self).timing() == config.timing,
            final(self).spec_speed_ms() == step_ms(config.bpm, config.timing),
    {
        self.config = config;
        self.speed_ms = config_to_ms(&self.config);
    }

    /// How long to wait before the next step.
    pub fn speed_ms(&self) -> (ms: u32)
        ensures
            ms == self.spec_speed_ms(),
    {
        self.speed_ms
    }
}

/// Length of one step in milliseconds; a zero tempo divides by zero.
pub fn config_to_ms(config: &SequencerConfig) -> (ms: u32)
    requires
        config.bpm > 0,
    ensures
        ms == step_ms(config.bpm, config.timing),
{
    match config.timing {
        TimingOption::Quarter => 60_000 / config.bpm,
        TimingOption::QuarterTriplet => 40_000 / config.bpm,
        TimingOption::Eighth => 30_000 / config.bpm,
        TimingOption::EighthTriplet => 20_000 / config.bpm,
        TimingOption::Sixteenth => 15_000 / config.bpm,
        TimingOption::SixteenthTriplet => 10_000 / config.bpm,
    }
}

/// A faster tempo never makes a step longer; a shorter note length never makes it longer either.
pub proof fn lemma_step_ms_monotonic(bpm1: u32, bpm2: u32, t: TimingOption)
    requires
        0 < bpm1 <= bpm2,
    ensures
        step_ms(bpm2, t) <= step_ms(bpm1, t),
        step_ms(bpm1, TimingOption::Sixteenth) <= step_ms(bpm1, TimingOption::Eighth),
        step_ms(bpm1, TimingOption::Eighth) <= step_ms(bpm1, TimingOption::Quarter),
{
    vstd::arithmetic::div_mod::lemma_div_is_ordered_by_denominator(
        timing_numerator(t) as int,
        bpm1 as int,
        bpm2 as int,
    );
    vstd::arithmetic::div_mod::lemma_div_is_ordered(15_000, 30_000, bpm1 as int);
    vstd::arithmetic::div_mod::lemma_div_is_ordered(30_000, 60_000, bpm1 as int);
}

/// A step lasts the whole milliseconds of its note length at the tempo, rounded down: a quarter
/// note is 60 000 ms per beat divided by the tempo, and the others are 2/3, 1/2, 1/3, 1/4 and
/// 1/6 of that before division.
pub proof fn lemma_step_ms_is_note_length(bpm: u32)
    requires
        bpm > 0,
    ensures
        step_ms(bpm, TimingOption::Quarter) * bpm <= 60_000 < (step_ms(bpm, TimingOption::Quarter) + 1) * bpm,
        step_ms(bpm, TimingOption::QuarterTriplet) * bpm <= 40_000 < (step_ms(
            bpm,
            TimingOption::QuarterTriplet,
        ) + 1) * bpm,
        step_ms(bpm, TimingOption::Eighth) * bpm <= 30_000 < (step_ms(bpm, TimingOption::Eighth) + 1) * bpm,
        step_ms(bpm, TimingOption::EighthTriplet) * bpm <= 20_000 < (step_ms(
            bpm,
            TimingOption::EighthTriplet,
        ) + 1) * bpm,
        step_ms(bpm, TimingOption::Sixteenth) * bpm <= 15_000 < (step_ms(bpm, TimingOption::Sixteenth) + 1)
            * bpm,
        step_ms(bpm, TimingOption::SixteenthTriplet) * bpm <= 10_000 < (step_ms(
            bpm,
            TimingOption::SixteenthTriplet,
        ) + 1) * bpm,
{
    let b = bpm as int;
    vstd::arithmetic::div_mod::lemma_fundamental_div_mod(60_000, b);
    vstd::arithmetic::div_mod::lemma_fundamental_div_mod(40_000, b);
    vstd::arithmetic::div_mod::lemma_fundamental_div_mod(30_000, b);
    vstd::arithmetic::div_mod::lemma_fundamental_div_mod(20_000, b);
    vstd::arithmetic::div_mod::lemma_fundamental_div_mod(15_000, b);
    vstd::arithmetic::div_mod::lemma_fundamental_div_mod(10_000, b);
    assert forall|x: int| x >= 0 implies #[trigger] ((x / b) * b) == b * (x / b) by {
        vstd::arithmetic::mul::lemma_mul_is_commutative(x / b, b);
    }
    assert forall|x: int| x >= 0 implies #[trigger] ((x / b + 1) * b) == b * (x / b) + b by {
        vstd::arithmetic::mul::lemma_mul_is_distributive_add_other_way(b, x / b, 1);
    }
    vstd::arithmetic::div_mod::lemma_mod_bound(60_000, b);
    vstd::arithmetic::div_mod::lemma_mod_bound(40_000, b);
    vstd::arithmetic::div_mod::lemma_mod_bound(30_000, b);
    vstd::arithmetic::div_mod::lemma_mod_bound(20_000, b);
    vstd::arithmetic::div_mod::lemma_mod_bound(15_000, b);
    vstd::arithmetic::div_mod::lemma_mod_bound(10_000, b);
    assert(((60_000int / b) * b) == b * (60_000int / b));
    assert(((40_000int / b) * b) == b * (40_000int / b));
    assert(((30_000int / b) * b) == b * (30_000int / b));
    assert(((20_000int / b) * b) == b * (20_000int / b));
    assert(((15_000int / b) * b) == b * (15_000int / b));
    assert(((10_000int / b) * b) == b * (10_000int / b));
    assert(((60_000int / b + 1) * b) == b * (60_000int / b) + b);
    assert(((40_000int / b + 1) * b) == b * (40_000int / b) + b);
    assert(((30_000int / b + 1) * b) == b * (30_000int / b) + b);
    assert(((20_000int / b + 1) * b) == b * (20_000int / b) + b);
    assert(((15_000int / b + 1) * b) == b * (15_000int / b) + b);
    assert(((10_000int / b + 1) * b) == b * (10_000int / b) + b);
}

} // verus!
