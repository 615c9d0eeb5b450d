# flowsurface

The data core of a market-data charting application, written in Verus. Verus proves the
contract of every function in `src/` except the few that call the standard library
(clock, durations, paths, strings, `Arc`): those are marked `external_body`, and their
contracts are assumed from the standard library's documentation.

## Layout

- `src/text.rs`: decimal rendering, splitting, trimming and joining of text.
- `src/clock.rs`: the standard library's durations and instants, as the library uses them.
- `src/exchange/`: exchange markets, tickers and their persisted text, ticker metadata,
  stream descriptions, the set of streams a layout subscribes to, and the decisions of the
  Aster DEX connections (stream paths, message kinds, the depth-update sequence).
- `src/db/`: identifiers of stored records, the ticker-id cache, query-result caching,
  performance metrics, schema migrations, health findings, configuration, and the
  bookkeeping of data migration (batches, backups, verification and rollback).
- `src/panel/`, `src/chart.rs`, `src/modal.rs`, `src/dashboard.rs`: the decisions of the
  ladder panel, chart studies, the database view and the dashboard that do not depend on
  drawing.
- `tests/`: tests run against the compiled library.
- `app/`: the command-line program around the library: DuckDB, files, archives, JSON,
  the background health task, and what computes on floating-point values.

## Checking

Verus verifies `src/`; the tests run with the outside crates linked.
