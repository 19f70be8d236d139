# shiny-hunter

Tools for hunting shiny Pokemon on a Nintendo Switch: a Raspberry Pi Pico
firmware that poses as a HORI Pokken controller and presses buttons on HTTP
commands, and desktop watchers that look for a shiny's color in a capture.

- `src/` is the verified library (Verus):
  - `pico_timer/`: the gamepad report, its byte layout and its HID report
    descriptor, the HID task as a state machine with its laws (`hid_laws.rs`),
    the HTTP routes, the HID class request answers, the start-up sequence and
    USB identity, and the status LED blink codes;
  - `shiny_watch/`: the watcher's settings and regions, the color test, the
    order of the work on each frame, crosshairs and click state;
  - `app/`, `cli.rs`, `presets.rs`: settings, presets and selection state of
    the capture application; `enumdev.rs`: camera probing order and names;
  - `geometry.rs`, `text.rs`: shared plain types and string comparison.
- `app/` is the unverified shell: command line parsing, logging, the OpenCV
  capture loop, and the embassy drivers that perform the controller's actions.
- `tests/` runs the library on concrete values.
