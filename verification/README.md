# freebuff_shell

The tray shell of the Freebuff Proxy desktop client keeps a local Node server
running, embeds its web console and helps with the admin password of the
server's first start. This crate holds the shell's logic as a Verus-verified
library; `app/` is the Tauri program that does the I/O around it.

- `src/text.rs`: character-level helpers (Unicode white space, search,
  UTF-8 lengths, decimal output), each with its specification.
- `src/password.rs`: reading the admin password out of a server log line.
- `src/port.rs`: choosing the port from `FREEBUFF_PROXY_PORT`.
- `src/tail.rs`: the bounded tail of the server's standard error.
- `src/json.rs`: JSON string literals (through `serde_json`).
- `src/http.rs`: the health probe and the login check, request and reply.
- `src/autofill.rs`: the script that fills a remembered password in.
- `src/launch.rs`: start-up and restart state machines, layout and runtime
  choice, status and failure texts.
- `src/shell.rs`: the shell's settings and state, tray commands, dialogs.
