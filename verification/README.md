# supershuckie

The rules of the Super Shuckie emulator frontend, written in Verus and
proved against their contracts.

## Layout

- `src/` is the verified library:
  - `packet.rs`: replay packets, speeds, timestamps and counters.
  - `input.rs`: console input and its encoding for the Nintendo DS and the
    Game Boy Advance.
  - `emulator.rs`: frame pacing, RAM access, pixel conversion and screens.
  - `counters.rs`: named replay counters.
  - `core_state.rs`: the replay-aware core: inputs, rapid fire, queued writes,
    the timer, keyframes, replay packets and replay metadata checks.
  - `core_thread.rs`: RAM freezes, RAM refresh and the core thread's run state.
  - `clock.rs`: timestamp providers.
  - `frontend.rs`, `controls.rs`, `file_names.rs`: the frontend's rules
    (systems, save state history, controllers, bindings, file names, replay
    timer and error reports).
  - `webserver.rs`: routing and answers of the external command server.
  - `parse.rs`, `text.rs`: number parsing and text building.
- `tests/` runs the library on concrete values.
- `app/` holds what talks to the outside world: the HTTP server, directory
  listings, floating point speeds and serializable copies of library types.
