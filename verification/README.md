# taimen

The core of a video-conferencing signaling server, verified with Verus.

- `src/` — the library: rooms and their capacity and lifecycle, participant
  records, the in-memory store (rooms, participants, member lists, recording
  states, kept in `dashmap` tables), the decisions of the signaling protocol
  and of the REST API, hook registration for Rhai scripts, and configuration
  defaults. The library's own logic carries contracts; calls into the Rhai
  engine (compiling, running and evaluating scripts) promise no outcome.
  `StoreView` is the store's mathematical model and `StoreView::wf` its
  invariant.
- `tests/` — tests of the library on concrete values.
- `app/` — the server binary: command line, HTTP and WebSocket plumbing
  (axum, tokio), JSON encodings (serde), the MCP administration server, and
  the setup of the script engine.
