# codex_browser

The browser build of the Codex command-line tool, as a Verus library: the
command line and its session, the interactive terminal's argument parsing,
login and stored credentials, the in-memory state and rollout stores, host
processes and fetches, retries, and the smaller helpers around them. Every
function under `src/` carries a contract that Verus proves; calls into other
crates go through a few trusted wrappers, each documented where it stands.

- `src/` the verified library, one module per area.
- `tests/` tests of the library on concrete values.
- `app/` what the library leaves to its host: the clap parser, the terminal,
  the file system, process-wide stores and telemetry, the read loop of a
  streamed fetch, and waiting between retries.
