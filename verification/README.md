# nadir_ui

The rules behind nadir's terminal dashboard, written in Verus and proved
against their contracts: how the screen is cut into panels, what each panel
shows at each width, how a click maps back to what was painted under it, the
shortest-fit ladders every row and footer degrades along, the label placement
on the map and the sky plot, the help overlay's text, the splash sequence and
the small clock and countdown formats.

## Layout

- `src/` — the verified library. One module per panel or overlay (`map`,
  `sky`, `passes`, `telemetry`, `launches`, `weather`, `tracked_list`,
  `popup`, `help`, `title`, `status`, `splash`, `egg`), the shared pieces they
  are built from (`layout`, `text`, `scroll`, `hit`, `panel`, `theme`, `fmt`,
  `clock`, `anim`) and the two fixed tables (`places`, `stars`).
  Coordinates are held in centi- or milli-degrees, colours as `0xRRGGBB`.
  Durations and time-zone offsets come in as plain counts (whole seconds,
  a seconds/nanoseconds split, seconds east of UTC, nanoseconds).
- `tests/` — the test suite, run against the compiled library.
- `app/` — the parts that need ratatui or floating point: widgets, canvas
  projection and painting, and the conversions between the library's plain
  values and ratatui's and chrono's types.

Verification: `verus` on `src/lib.rs`; the laws are the
public `lemma_*` proof functions and the `ensures` clauses of the functions
they name.
