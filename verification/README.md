# babel_core

A verified library for keeping a local catalogue of games in step with
the IGDB API, and for reading the download lists of sources fetched
through FlareSolverr.

- `src/` is the library, verified with Verus: the paging and stop rules
  of the synchronisation pipelines (`igdb::pipeline::FetchPlanner`), the
  grouping of fetched records into database batches (`BatchBuffer`), the
  splitting of id lists into requests, the text of every query and SQL
  statement, the statements that store extra and search data of games,
  the request headers (which value carries which text, and when they are
  refused), and the reading of a source page.
- `app/` is the I/O around it: HTTP with reqwest, the SQLite catalogue
  with rusqlite, the tokio tasks of the pipelines, serde for JSON, and
  the data directory.
- `tests/` runs the library on concrete values.
