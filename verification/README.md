# refbox

The decision logic of an underwater-hockey referee box, verified with Verus.

- `src/` — the verified library:
  - `tournament_manager` — game periods, the game and timeout clocks,
    timeouts, scores, penalties and the scoreboard snapshot;
  - `penalty_editor` — staging penalty changes and applying them to the
    game at once;
  - `beep_test` — beep-test schedules and their court-length presets;
  - `portal_manager`, `portal_queue`, `portal_health`, `link_session` — the
    queue of results waiting for the scores portal, its indicator and detail
    page, the background task's decisions, and the remembered portal link;
  - `settings`, `sound`, `sound_queue` — settings and their migration from
    older files, sound settings, wireless-remote packets, which sound
    plays, and `spi_plan`, the radio's SPI transactions;
  - `sim_frame`, `capture`, `sim_launch` — the display feed's frame,
    preview names, and the display simulator's command line;
  - `utc_time`, `decimal_text` — wall-clock instants and whole numbers
    written in decimal.
- `tests/` — tests of the library.
- `app/` — a headless driver around the library: settings, queue and link
  files on disk, clock readings, and launching the simulator.

Times are whole nanoseconds: durations as plain lengths, instants as
monotonic-clock readings (`u64`) or wall-clock readings (`UtcTime`).
