# torrentino_core

The decision-making core of a media acquisition service: it builds search
queries for wanted music, decides what to do when a download fails or stalls,
assembles the ffmpeg and ffprobe command lines of a conversion, plans file
placement and its rollback, validates and sanitizes configuration,
authenticates API requests and builds audit queries.

Every function in `src/` is verified with Verus against a contract stated over
mathematical models (`Seq<char>` for text, `Seq` for lists, spec functions for
the rules). Calls into outside crates (`regex-lite`, `sha2`, `md5`, std's case mapping) go
through a small number of trusted wrappers in `src/pattern.rs`,
`src/placer.rs` and `src/text.rs` (outside types are declared in `src/foreign.rs` and
`src/pattern.rs`), each documented with what it assumes.

Layout:

- `src/text.rs` – character-level text operations shared by the other modules.
- `src/music.rs`, `src/content.rs` – music query building, name cleaning,
  cover-art candidates, post-processing results.
- `src/scoring.rs` – the signals that rank music search results (announced
  format, seeding, red flags, preferences, album and track words found in
  file paths).
- `src/orchestrator.rs` – retry, failover and stall decisions of the ticket
  lifecycle, with laws on their termination.
- `src/converter.rs`, `src/probe.rs` – conversion settings, ffmpeg arguments,
  progress and error lines, ffprobe report summaries.
- `src/placer.rs`, `src/processor.rs` – placement jobs and their decisions
  (atomic moves, checksums through `sha2`/`md5`, source cleanup), rollback
  plans, and the run of a pipeline job as a state machine (events in,
  ticket updates and next step out).
- `src/config.rs`, `src/auth.rs`, `src/audit.rs`, `src/catalog.rs`,
  `src/external_catalog.rs` – configuration, authentication, audit filters,
  catalog keys and metadata records.
- `tests/` – executable tests of the library.
- `app/` – the unverified shell: running ffmpeg/ffprobe, reading files and API
  responses, hashing, loading configuration files, and the computations that
  need floating point.
