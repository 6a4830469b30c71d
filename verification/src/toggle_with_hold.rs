//! A key that reports presses, and holds once it has been down long enough.

use vstd::prelude::*;

verus! {

/// What a key's state machine reacts to.
#[derive(Clone, Copy, PartialEq, Eq, Structural, Debug)]
pub enum ToggleEvent {
    /// The debounced button went down or up.
    Button { pressed: bool },
    /// The hold timer ran out before the button changed.
    HoldElapsed,
}

/// A key's flags: down, held, and whether its hold timer runs.
pub struct ToggleView {
    pub pressed: bool,
    pub held: bool,
    pub timer: bool,
    /// How long, in milliseconds, a key must stay down to count as held.
    pub threshold_ms: u64,
}

/// A press starts the hold timer and a release stops it and ends any hold; the timer
/// running out makes the key down and held.
pub open spec fn toggle_step(v: ToggleView, event: ToggleEvent) -> ToggleView {
    match event {
        ToggleEvent::Button { pressed } => ToggleView {
            pressed,
            held: pressed && v.held,
            timer: pressed,
            ..v
        },
        ToggleEvent::HoldElapsed => ToggleView { pressed: true, held: true, timer: false, ..v },
    }
}

/// A key is only held while it is down, and its timer only runs while it is down.
pub open spec fn toggle_consistent(v: ToggleView) -> bool {
    &&& v.held ==> v.pressed
    &&& v.timer ==> v.pressed
}

/// Every event keeps a key's flags consistent.
pub proof fn lemma_toggle_consistent(v: ToggleView, event: ToggleEvent)
    requires
        toggle_consistent(v),
    ensures
        toggle_consistent(toggle_step(v, event)),
{
}

/// A press released before the hold timer runs out never makes the key held, and leaves it up
/// with no timer.
pub proof fn lemma_tap_is_not_hold(v: ToggleView)
    ensures
        ({
            let down = toggle_step(v, ToggleEvent::Button { pressed: true });
            let up = toggle_step(down, ToggleEvent::Button { pressed: false });
            &&& down.pressed && down.timer
            &&& !up.pressed && !up.held && !up.timer
        }),
{
}

/// A key kept down until the hold timer runs out is held; releasing it ends the hold.
pub proof fn lemma_hold_then_release(v: ToggleView)
    ensures
        ({
            let down = toggle_step(v, ToggleEvent::Button { pressed: true });
            let held = toggle_step(down, ToggleEvent::HoldElapsed);
            let up = toggle_step(held, ToggleEvent::Button { pressed: false });
            &&& held.pressed && held.held && !held.timer
            &&& !up.pressed && !up.held && !up.timer
        }),
{
}

/// A key's pressed and held flags and whether its hold timer runs.
pub struct ToggleWithHold {
    is_held: bool,
    is_pressed: bool,
    hold_threshold_ms: u64,
    timer_running: bool,
}

impl View for ToggleWithHold {
    type V = ToggleView;

    closed spec fn view(&self) -> ToggleView {
        ToggleView {
            pressed: self.is_pressed,
            held: self.is_held,
            timer: self.timer_running,
            threshold_ms: self.hold_threshold_ms,
        }
    }
}

impl ToggleWithHold {
    /// Up, not held, no timer; a hold takes `hold_threshold_ms` milliseconds.
    pub fn new(hold_threshold_ms: u64) -> (t: Self)
        ensures
            t@ == (ToggleView {
                pressed: false,
                held: false,
                timer: false,
                threshold_ms: hold_threshold_ms,
            }),
    {
        ToggleWithHold { is_held: false, is_pressed: false, hold_threshold_ms, timer_running: false }
    }

    /// Follows one event.
    pub fn on_change(&mut self, event: ToggleEvent)
        ensures
            final(self)@ == toggle_step(old(self)@, event),
    {
        self.is_pressed = match event {
            ToggleEvent::Button { pressed } => {
                self.timer_running = pressed;
                if !pressed {
                    self.is_held = false;
                }
                pressed
            },
            ToggleEvent::HoldElapsed => {
                self.is_held = true;
                self.timer_running = false;
                true
            },
        };
    }

    pub fn is_held(&self) -> (b: bool)
        ensures
            b == self@.held,
    {
        self.is_held
    }

    pub fn is_pressed(&self) -> (b: bool)
        ensures
            b == self@.pressed,
    {
        self.is_pressed
    }

    /// The hold timer should be running.
    pub fn timer_running(&self) -> (b: bool)
        ensures
            b == self@.timer,
    {
        self.timer_running
    }

    /// How long a key must stay down to count as held.
    pub fn hold_threshold_ms(&self) -> (ms: u64)
        ensures
            ms == self@.threshold_ms,
    {
        self.hold_threshold_ms
    }
}

} // verus!
