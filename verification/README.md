# zerodrop

A private file and message helper for devices on a ZeroTier network. The crate has two
parts:

- `src/` — the library, verified with Verus: the records (devices, messages, transfers,
  configuration, status), the checks both ends of a transfer make, how a text is cut into
  chunks and joined again, the order of the sender's requests, the table of live control
  sessions, the decisions of a control connection (heartbeats, timeouts, reconnection
  backoff), the names under which received files are saved, and the completion of a
  configuration read from disk.
- `app/` — the Tauri desktop application around it: SQLite storage, the HTTP agent
  (axum), the HTTP and WebSocket clients, configuration files, and the events pushed to
  the user interface. It performs the I/O in the order the library's decisions give.

`tests/` runs the library on concrete values.
