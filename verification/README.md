# vertebrae-local-backend

The decision and message logic of Vertebrae's embedded libSQL backend, verified
with Verus.

- `src/` — the verified library: error values and their mapping onto service
  errors (`error`), default database location (`paths`), migration planning and
  the reading of applied versions (`migrations`), typed reads of row cells
  (`rows`), the refusals of the not-yet-implemented services (`services`), and
  decimal rendering for diagnostics (`text`).
- `app/` — the database, file-system and channel work around it: the libSQL
  handle, the migration runner with the initial schema, the per-user data
  directory, and the backend handle with its change channel.
- `tests/` — tests of the library on concrete values.
