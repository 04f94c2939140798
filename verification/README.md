# sqlite-jiff

Date, time, time-zone and span functions for SQLite, built on the
[`jiff`](https://github.com/BurntSushi/jiff) library, with the logic of each
SQL function verified with Verus.

## Layout

- `src/` is the verified library. Each SQL function is an executable
  function with a contract: which arguments it reads, in which order, which
  failures it reports (with their messages) and what text it returns.
  - `model.rs`: civil dates, times, datetimes, instants and span units as
    plain values, with their validity rules.
  - `sql.rs`: the arguments a function receives and the ways a call fails.
  - `names.rs`, `text.rs`: the name tables (units, rounding modes, layouts,
    weekdays, eras, zones) and string helpers.
  - `date.rs`, `time.rs`, `datetime.rs`, `timestamp.rs`, `span.rs`,
    `zoned.rs`, `version.rs`: the scalar functions.
  - `vtab.rs`, `series.rs`, `transitions.rs`: query planning and cursors of
    the table functions `jiff_datetime_series`, `jiff_date_series` and
    `jiff_timezone_transitions`.
  - `jiff_civil.rs`, `jiff_span.rs`, `jiff_zone.rs`: the calls into `jiff`,
    each a trusted wrapper whose doc comment says what its contract claims.
- `tests/`: tests of the library on concrete values.
- `app/`: the SQLite extension itself (registration, reading SQLite values,
  handing back results, the virtual-table protocol, and the floating-point
  total of a span).
