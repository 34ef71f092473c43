# quanta

A high-speed timing library: monotonic time in nanoseconds or raw cycles, a time stamp
counter calibrated against the operating system's reference clock, a mockable clock, and a
cheap "recent" time kept up to date by an upkeep thread.

## Layout

- `src/` — the verified library (Verus):
  - `instant.rs` — `Instant` and its arithmetic with `Duration`;
  - `calibration.rs` — scaling counter readings to reference time and calibrating the ratio;
  - `clock.rs` — the unified `Clock` over a reference clock, a calibrated counter or a mock;
  - `mock.rs` — the controllable time source;
  - `tsc.rs` — whether the processor's time stamp counter is usable, from CPUID;
  - `upkeep.rs` — the upkeep configuration, its errors and its start-up decisions;
  - `duration.rs` — the nanosecond model of `std::time::Duration`.
- `app/` — the parts that touch the machine: reading the clocks, the process-wide
  calibration and recent time, the calibration loop's statistics, and the upkeep thread.
- `tests/` — tests of the library.
