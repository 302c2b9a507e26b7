# codex_login_mcp

The credential storage of the Codex CLI login and the selection and naming
logic of its MCP client and server, with every decision proved by Verus.

Layout:

- `src/` — the verified library.
  - `sanitize.rs`, `tool_names.rs`: tool-name normalization, the unique
    presented names of an MCP client and the map back to advertised names.
  - `mcp_impl.rs`, `requests.rs`, `server.rs`, `clients.rs`: which MCP
    implementation runs, how requests are routed, and the request handler's
    decisions (failure codes, runner events, elicitation replies).
  - `env.rs`: the environment handed to an MCP server child process.
  - `auth/`: the auth document and its profiles, validation, mutations,
    store keys and marker hashes, the in-memory backend, and the load and
    save state machines of the keyring-with-file-fallback backend.
  - `text.rs`, `digest.rs`, `assoc.rs`: string helpers, SHA-256 (through the
    `sha2` crate) with hex encoding, and association lists viewed as maps.
- `app/` — the runtime around it: serde forms of the auth types, file,
  keyring and lock I/O, the rmcp client, and selection from the process
  environment.
- `tests/` — tests of the library.
