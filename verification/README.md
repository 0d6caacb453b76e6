# edms

The decision logic of EDMS, a collaborative API-testing service (saved
endpoints, bookmarks and collections, request/response history, timed test
runs carried out by worker processes), written in Verus and verified.

## Layout

- `src/` — the verified library.
  - `text` — decimal rendering, zero padding, `i32` parsing, substring
    search, whitespace trimming.
  - `error` — the error type, its status codes and messages.
  - `sql`, `statements`, `queries` — the statements each stored operation
    runs, with their parameters, and the reading of their results.
  - `procedures` — the multi-statement bookmark procedures (add to the
    workspace, save a collection, load a collection, restore the backup) as
    machines that issue one database command at a time; their laws.
  - `bookmark_table` — a model of the bookmarks table and what the add and
    save procedures do to it when a database runs their commands.
  - `test_run` — starting a test: endpoint lookup, request numbering and
    recording, then the launch of the timer and the worker.
  - `timer` — the per-request timer's ticks, timeout and cancellation, and
    the sequence of events a timer emits.
  - `lookup` — batch lookups that keep the order of the ids (and agree with
    one lookup per id), and the Markdown export of a collection.
  - `paths`, `names` — where request and response bodies are stored, how the
    next request number is read back from file names, and name ordering.
  - `callback`, `worker` — the worker's tasks and reports.
  - `handlers`, `config`, `json`, `sqlite_checks`, `schema`, `events` — the
    remaining request handling, configuration, checks and schema.
- `tests/` — tests of the library on concrete values, including an in-memory
  bookmarks table that runs the procedures end to end.
- `app/` — the service itself: SQLite through `rusqlite`, the HTTP and
  WebSocket server (`axum`, `tokio`), the worker process (`reqwest`), files,
  and the serde copies of the library's types. Run it with no argument for
  the server, or with `child` for a worker.
