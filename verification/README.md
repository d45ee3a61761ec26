# gpmcp-layer

Runs Model Context Protocol servers as child processes and connects to them
over stdio or server-sent events, with health checks, restarts, a
three-step termination of whole process trees, and an HTTP front (an SSE
proxy and a stdio relay).

## Layout

- `src/` — the library, verified with Verus. Every decision lives here:
  the command line of a server, which transport to set up and how, what a
  signal or `taskkill` outcome means, the order of the termination steps,
  the enumeration of a process tree from a snapshot of the process table,
  restart counting, the health of a supervised process, the runner
  configuration builder, and the HTTP proxy and relay rules.
- `app/` — the asynchronous runtime around it (Tokio, `rmcp`, `hyper`,
  `reqwest`, `nix`, `sysinfo`): it spawns processes, sends signals, reads
  the process table, opens transports and serves HTTP, handing each outcome
  to the library and doing what the library answers.
- `tests/` — tests of the library on concrete values.
