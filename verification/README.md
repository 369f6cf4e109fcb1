# goggin_rs_logger

A colorized logging helper built on the `log` facade, with its formatting
and decision logic verified with Verus.

## Layout

- `src/` — the verified library.
  - `backend.rs` — logger settings and the exact text printed for each
    record, compact or verbose; status banners.
  - `formatting.rs` — source paths, headings, verbose error/debug blocks,
    pretty-printed JSON, and HTTP request/response lines.
  - `relay/` — the browser-to-server relay: payloads, browser logger
    configuration, the bounded send queue (`emitter.rs`), and the
    server-side formatting and line splitting (`receiver.rs`).
  - `redaction.rs` — hiding values of sensitive JSON keys and headers.
  - `level.rs`, `color.rs`, `json.rs`, `text.rs` — levels, ANSI colors,
    JSON values, and character-level string helpers.
- `app/` — the process-facing side: registering with `log`, printing,
  environment reads, HTTP sending from the browser, and the Axum routes.
- `tests/` — tests of the library.

## Proved properties

Among others: the relay formats a record as the native logger prints it
(`lemma_relay_matches_native`) when the message has no trailing whitespace
(the relay trims it), the record does not come from a crates registry
index, semantic success/message records are compact info records, and a
verbose non-info record has a file path with a non-empty part after
`src/` (the verbose success banner, for one, differs between the two);
setting up logging sets the `log` facade's maximum level to the parsed
filter (modelled by `LogFacade`); the relay queue sends every payload once,
in order, while nothing is dropped; splitting formatted output into lines is
lossless and unique, with one more line than line breaks; redaction leaves no sensitive value visible at
any depth; the relay queue never holds more than 1024 payloads and drops only
the oldest.
