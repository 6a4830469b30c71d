//! The decisions of the firmware's tasks, each a function from state and event to actions.

pub mod controls;
pub mod display;
pub mod lights;
pub mod sequencer;
pub mod usb_midi;
