# jidori_kun

The verified core of jidori-kun, a desktop webcam app that takes countdown
photos as pose references and serves them to clients over the Model Context
Protocol (stdio and HTTP with a bearer token).

- `src/` is the library, verified with Verus:
  - `rpc.rs`: JSON-RPC request handling (`initialize`, `tools/list`,
    `tools/call` for the `snap` tool, notifications), the responses, and the
    laws that every answer carries version 2.0 and the request's id;
  - `http.rs`: which HTTP requests reach the protocol (503 when stopped,
    401 without the bearer token, 405 for anything but POST, 404 for a
    POST to any path but `/mcp`, 400 for a bad body) and what the others are answered;
  - `bridge.rs`: pending capture requests keyed by id, waiting for the
    webview's frame;
  - `codec.rs`: the Base64 payload of a data URL, decoded with the `base64`
    crate;
  - `server.rs`: the HTTP server's life cycle (bound once per address, then
    switched on and off) and the URLs the app may open;
  - `settings.rs`: the settings, their defaults, the bind address and the
    endpoint URL;
  - `json.rs`, `text.rs`: JSON values with their mathematical model, and the
    string operations the protocol needs.
- `app/` is the Tauri application around it: windows and commands, sockets,
  stdin/stdout, files, threads, and JSON text parsed and written with
  `serde_json`.
- `tests/` runs the library on concrete inputs.
