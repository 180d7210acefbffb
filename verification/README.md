# niru

Decision logic of an adaptive focus timer, verified with Verus.

- `src/timer.rs` — the timer engine: focus, short and long breaks, driven by
  commands and a one-second tick; its laws (invariant, pause/resume, stop,
  the long-break cycle, countdown) are proof functions at the end of the file.
- `src/tracker.rs` — when the daemon writes and closes a session's row, with
  the seconds actually focused (paused time excluded) and whether it was cut short.
- `src/client.rs` — what the terminal client shows of the daemon's events.
- `src/ipc.rs` — the messages and the line framing of the socket protocol.
- `src/storage.rs` — the columns of the `sessions` table and day boundaries.
- `src/models.rs` — shared data and the configuration defaults.
- `src/text.rs` — decimal rendering, padding and whitespace trimming.
- `app/` — the daemon and the client themselves: sockets, SQLite, the
  terminal, JSON encoding (serde) and the clocks. `niru daemon` runs the
  daemon; `niru` runs the client.
