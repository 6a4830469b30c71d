# macropad_sequencer

The logic of a twelve-key USB MIDI step sequencer (Adafruit Macropad), with its
behaviour stated in contracts and proved.

- `src/` — the library:
  - `tasks::controls` — the key and step state machine: tapping toggles a step,
    holding one key opens its step menu, holding several keys plays only those.
  - `tasks::display` — which menu is shown and what the encoder does to it.
  - `menus` — menus of numeric, on/off and choice items; `menus::render` places
    their lines on the 128-pixel-wide display.
  - `tasks::usb_midi` — note numbers and the USB MIDI packets for note on/off.
  - `sequencer_timer`, `tasks::sequencer` — the step clock.
  - `toggle_with_hold`, `debounced_button`, `rotary_encoder`, `grid`, `key_leds`.
- `app/` — the firmware around it: board setup, Embassy tasks and channels,
  the display, LED and USB drivers.
- `tests/` — tests of the library on concrete values.
