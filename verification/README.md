# TPN Worker Dashboard

A central panel for many TPN workers: it keeps a list of workers in SQLite,
polls each worker's `GET /api/dashboard` in the background, keeps the newest
1000 snapshots per worker, can check the reachability of the workers' ports,
runs operations on several workers at once (version check, upgrade,
configuration, password) and can replace its own binary with the latest
release.

## Layout

- `src/` — the library, verified with Verus. Every decision of the service
  lives here with its contract: which workers are polled, how a login answer
  is read, the snapshot a poll leaves, the host and ports a check probes,
  the validation and effect of each worker request, the requests and results
  of batch operations, the version comparison, the self-upgrade as a state
  machine, snapshot retention, and the paths of the settings files.
  - `text.rs` — string operations (`trim`, trimming a character, searching,
    decimal notation) stated over `Seq<char>`.
  - `json.rs` — JSON documents, parsed and searched by serde_json.
  - `stamps.rs` — fresh worker ids (uuid) and UTC timestamps (chrono).
  - `models.rs`, `errors.rs` — the data the service keeps and its errors.
  - `poll.rs`, `ports.rs`, `workers.rs`, `batch.rs`, `upgrade.rs`,
    `config.rs` — the service's logic, one area each.
- `tests/` — tests of the library on concrete values.
- `app/` — the program around the library: the axum routes, SQLite queries,
  HTTP requests to workers, sockets, the background loops and `main`.

## Running

The server listens on `DASHBOARD_PORT` (8080) and serves the panel at
`/dashboard`. On first start it creates `~/.config/tpn-worker-dashboard/`
with a default `.env`; settings come from the environment or that file.
