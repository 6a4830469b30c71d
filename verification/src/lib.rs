//! Step-sequencer logic for a twelve-key USB MIDI controller: the key and step state machine,
//! the menus edited with the rotary encoder, the step clock and the MIDI packets sent.

pub mod debounced_button;
pub mod grid;
pub mod key_leds;
pub mod menus;
pub mod rotary_encoder;
pub mod sequencer_timer;
pub mod tasks;
pub mod toggle_with_hold;
