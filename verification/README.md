# Pulse

A physical button for a coding agent on the host. The button shows on an LED
ring what the agent is doing, and a tap or a hold on it answers, cancels or asks.

- `src/` is the library, verified with Verus: everything the two programs decide.
  - `text`, `path`, `json`: text, Unix paths, JSON.
  - `daemon`: the state that clients are told (`state`), the watch over the state
    file (`watch`), the course of a connection (`session`), button actions
    (`action`) and the files they are kept in (`files`).
  - `firmware`: the switch (`button`, `gesture`), the serial line (`serial`), the
    state machine (`machine`), keystrokes (`hid`), the LED ring (`led`) and the
    device as a whole (`device`).
- `tests/` runs the library.
- `app/` holds the programs: the daemon, for Unix hosts, and the firmware, for the
  ESP32-S3.

Time is handed in as nanoseconds since some fixed start, paths as bytes.
What the library takes on trust is marked `external_body` and says what it calls.
