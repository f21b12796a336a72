# schulte

The rules of a Schulte-table game, proved with Verus, and a Bevy front end around them.

- `src/` — the library; every public function states its result in a contract (the clock
  read and the two calls into std it makes are the exception: a clock reading is left open):
  - `sequential_counter`: the counter that expects cells `1..=n` in order, its abstract
    `LevelProgress`, and the laws of a round (progress never goes back; clicking in order
    completes it).
  - `level_progress_tracker`: the tracker interface, with default `visited` /
    `is_level_completed`.
  - `clock`: `Duration` and `Instant` as nanosecond counts, and the clock reading. std's
    monotonic `Instant` gives a number only as the time since another `Instant`, and a
    reference reading shared by every stopwatch would need a `static`, which the library does
    not hold; so the stopwatches follow the system clock (time since the Unix epoch): a
    forward jump of that clock counts as elapsed time, and nothing is counted across a
    backward jump.
  - `timer_model`: the abstract stopwatch shared by `timer::Timer` and
    `gameplay_timer::GameplayTimer`, with its laws.
  - `gameplay_timer`: the round's stopwatch and the `MM:SS.mmm` clock face.
  - `gameplay`: what a press or hover on a cell does.
  - `schulte_gameplay_view`: the shuffled cell order of a new round.
  - `ui_host_provider_plugin`: the record of the UI root and its layer nodes.
- `app/` — the Bevy systems that spawn the UI, feed events to the library and draw what it
  decides; floating-point layout code stays here.
- `tests/` — executable checks of the library.
