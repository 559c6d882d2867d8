# CloudMesh

CloudMesh collects system telemetry (CPU, memory, disk, network) from agents,
stores it in PostgreSQL and serves it over an HTTP API. This crate holds its
logic as a library verified with Verus; the program around it is in `app/`.

## Layout

- `src/models.rs`: telemetry samples, history ranges (`5m` … `7d`), nodes and
  request/response bodies.
- `src/time.rs`: UTC instants and the arithmetic on them; the span of a range
  as a `chrono::TimeDelta`.
- `src/text.rs`, `src/numbers.rs`: string comparison and search, whitespace,
  trailing-slash trimming, and decimal integer parsing.
- `src/config.rs`: configuration from the environment's values, and the launch
  mode (server, agent only).
- `src/agent.rs`: the agent's start-up checks, its URLs, and its state machine
  (registration with retries, telemetry cycles, heartbeats).
- `src/api.rs`: the answer of each API endpoint, given what the database
  returned; the steps of the history and telemetry-upload requests as state
  machines; the in-memory store of the latest snapshot (GET /api/metrics).
- `src/db.rs`: the layout of samples in signed 64-bit columns.
- `src/telemetry.rs`: totals over disks and network interfaces.
- `app/`: the HTTP server (axum), database access (sqlx), the agent loop
  (reqwest, tokio), machine sampling (sysinfo) and the JSON forms (serde).

## Environment

`DATABASE_URL` (makes the process a server), `CLOUDMESH_SERVER_URL`,
`CLOUDMESH_API_KEY`, `NODE_ID`, `TELEMETRY_INTERVAL` (seconds, default 5),
`OFFLINE_THRESHOLD` (seconds, default 30).

## Routes

`GET /api/health`, `GET /api/metrics` (latest stored snapshot),
`GET /api/metrics/history?range=…` (this server's own node),
`POST /api/nodes`, `GET /api/nodes`, `GET /api/nodes/{node_id}`,
`POST /api/nodes/{node_id}/heartbeat`, `POST /api/nodes/{node_id}/telemetry`,
`GET /api/nodes/{node_id}/metrics/history?range=…`.
