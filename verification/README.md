# rm32

Control logic for a sensorless brushless ESC, verified with Verus.

- `src/` — the library: commutation, the motor state machine, the 10 kHz
  control tick and the main loop, throttle input mapping (DShot, servo, RC-car
  reverse, CRSF), DShot frame decoding and GCR telemetry, extended telemetry
  scheduling, DShot commands, settings image and migration, PID loops, filters,
  protection (low voltage, stall, stuck rotor, temperature), tones and status
  LEDs. Each public function carries a `requires`/`ensures` contract over spec
  functions, and the library's laws are public proof functions (`lemma_*`).
  Hardware is reached through the traits in `src/hal.rs`.
- `tests/` — executable tests of the library.
- `app/` — a host harness driving the library over a line protocol on stdin and
  stdout, and what needs the outside crates' derives and traits (the byte view
  of the settings image, the LED pin).
