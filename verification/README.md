# suisai

**suisai** (watercolor) is a tag-based photo management service. This crate
holds its request logic as a library verified with Verus, and a small server
program around it.

## Layout

- `src/` — the verified library.
  - `text.rs`: splitting text on a separator, with the laws that joining and
    splitting undo each other.
  - `models/`: albums, directories, files, photos, accounts and record ids.
  - `utils/auth.rs`: reading the claims of a session token, reading a record id
    from `table:key`, and the steps that authenticate a request.
  - `utils/directory.rs`: deleting a directory tree depth first; a directory is
    only deleted once every subdirectory listed for it is, and a deletion that
    ends with success has deleted every directory the database listed.
  - `utils/get_id.rs`, `utils/axum_error.rs`: id lookups and errors that carry
    their HTTP status.
  - `handler.rs`: the engine that runs a request handler as a sequence of
    stages; no work is done before the request's token is authenticated, and
    every request ends with exactly one answer.
  - `endpoints/`, `controllers/`: the stages of each request handler.
- `tests/` — tests of the library on concrete values.
- `app/` — the server: HTTP routes, the database connection, and the loop that
  performs the work each handler asks for.

The server expects a SurrealDB instance on `0.0.0.0:8000` and listens on
`0.0.0.0:3000`.
