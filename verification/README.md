# matter_rgb_lamp

The logic of a Matter RGB light on an ESP32 board, verified with Verus.

- `src/` is the verified library:
  - `color_control.rs`: the color control cluster handler in XY mode
    (attributes, the `Options` attribute, `MoveToColor`, refused and ignored
    commands) and its laws;
  - `color_hooks.rs`: the trait a device implements for that cluster;
  - `led.rs`: the lamp's state (on/off, level, color, start-up attributes,
    the state handed to the LED task, the button and its factory reset);
  - `level_knob.rs`: the knob that turns ADC readings into level requests;
  - `frame.rs`: the pixel written to the LED (wiring, gamma, brightness,
    through `smart-leds`);
  - `led_handler.rs`: a light whose LED is driven by a separate task;
  - `options.rs`, `dataver.rs`, `error.rs`: the `Options` bitmap, the data
    version and the error codes.
- `app/` is the firmware around it: the ESP32 hardware, the Matter stack,
  the async loops, and the floating-point color conversion.
- `tests/` runs the library on concrete values.
