# commit_bridge

A service that watches branches of remote git repositories and, when one
moves, sends a `repository_dispatch` event to every GitHub repository
subscribed to it.

## Layout

- `src/` is the verified library (Verus). It holds every decision the
  service takes, each with a contract:
  - `domain/`: validated values (repository URLs, branch names, commit
    hashes, event types, target repositories, API versions, headers);
  - `config.rs`: the configuration and the rules a loaded configuration
    must meet;
  - `model.rs`: the stored records;
  - `repository/`: errors, the mapping of stored rows into validated
    models, the partial update statement and the retry schedule of queued
    triggers;
  - `http/`: HAL documents, pagination, request authorization, cache
    headers, error statuses and trace marking;
  - `polling/`: which branches moved and which remote reference gives a
    branch's latest commit;
  - `trigger/`: GitHub API addresses and headers, token claims, dispatch
    payloads and what follows a dispatch attempt;
  - `telemetry.rs`: whether traces are exported;
  - `external.rs`: the calls into outside crates, each behind a stated
    contract.
- `tests/` runs the library on concrete values.
- `app/` is the executable around the library: environment loading,
  SQLite access, the HTTP server and client, `git ls-remote`, and the
  asynchronous loops of the polling and trigger engines.

## Configuration

Settings are read from environment variables prefixed `CBRIDGE__`, with
`__` between a section and its key (for example
`CBRIDGE__AUTH__API_KEY`). Requests to `/subscriptions` need the
`X-API-KEY` header unless `CBRIDGE__AUTH__ALLOW_UNAUTHENTICATED=true`.
