# hot_plate_reflow

Verified control logic of a hot plate reflow controller (STM32C071 firmware).

- `src/` — the library, verified with Verus:
  - `reflow_profiles` — the solder-paste profiles and the ramps of a reflow run
  - `rotary_encoder` — the Gray-code decoder of the rotary encoder
  - `errors` — fault codes and their classes
  - `thermocouple` — decoding of MAX31855 frames
  - `fsm` — the controller's hierarchical state machine
  - `ui` — what presses and turns of the encoder do on each screen
  - `knob` — position and set-point handling of the encoder task
  - `control` — the per-tick decisions of the heater loop
  - `labels` — the number texts of the display
  - `power_monitor` — configuration and timing of the INA219 monitors
- `tests/` — tests of the library on concrete values.
- `app/` — the firmware around it: peripherals, tasks, drawing, and the
  floating-point PID and ramp arithmetic.
