# embedded_charts

Chart data structures, layout arithmetic and animation timing for small
displays, verified with Verus.

## Layout

- `src/` — the verified library.
  - `data/` — data points, fixed-capacity series, the ring buffer, bounds,
    sorting (stable, by one coordinate), aggregation planning and the
    streaming chart manager.
  - `axes/` — axis configuration, axis line / tick / grid / label placement,
    tick generators, integer label text and label styles.
  - `chart/` — margins, bar layout, scatter-marker shapes and stacked-chart
    data.
  - `dashboard/` — grid layouts and dashboards of chart viewports.
  - `animation.rs` — keyframe selection, streaming windows and time-based
    progress in whole percent.
  - `geometry.rs`, `memory.rs`, `time.rs`, `error.rs` — screen geometry, a
    sliding window, clocks and the error types.
- `app/` — the parts that work in floating point or draw on an
  embedded-graphics target (easing curves, value-to-pixel transforms, nice
  ranges, logarithmic ticks, float bounds, aggregation of float points, bar
  heights), built on the verified library.
- `tests/` — tests of the library.

Fixed-capacity collections are `Vec`s and `String`s whose capacity is part
of each type's well-formedness invariant (`wf`): every operation that adds
checks the capacity first and reports a full buffer as an error.  The
`heapless` crate is not used.

Every public function of `src/` states its result in `ensures`; the
properties that relate several calls are public proof functions whose names
start with `law_`.
