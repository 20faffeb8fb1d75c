# bakpiarun

The request-routing, protocol and bookkeeping logic of bakpiaRun, a PHP
application server, written in Verus with its contracts proved.

## Layout

- `src/` — the verified library.
  - `text.rs` — character-level helpers (decimal rendering, trimming,
    splitting, ASCII case folding).
  - `clock.rs` — the wall clock and its RFC 3339, HTTP-date and log
    renderings; every reading may fail and then gives `None`.
  - `config.rs` — configuration sections, defaults, validation, environment
    overrides, worker socket paths.
  - `static_file.rs` — safe request sub-paths, static-file detection, MIME
    types, caching headers, candidate PHP files, and the choice of the file
    to serve or run from what the file system reports (only regular files
    inside the canonical document root).
  - `php_flow.rs` — the course of a PHP request as a step function from
    state and outcome to the next state and the next piece of work.
  - `handlers.rs`, `security.rs`, `rate_limit.rs`, `types.rs`, `ipc.rs`,
    `logger.rs` — what the PHP handler decides: client address, cookies,
    form bodies, response headers, error pages, the request handed to a
    worker and its framing, log lines.
  - `pool_manager.rs`, `worker.rs`, `metrics.rs` — routing between pools,
    round robin, the anti-OOM restart rule, counters and the Prometheus
    exposition.
  - `queue.rs`, `job_handlers.rs` — the background job queue and the job
    handlers' decisions.
  - `mysql_protocol.rs`, `db_proxy.rs` — the MySQL wire packets and the
    loopback database proxy's per-connection state.
  - `admin_auth.rs` — the admin-route guard.
  - `embed.rs`, `file_embed.rs` — the texts of the two embedded-engine
    servers.
- `app/` — the server around the library: configuration loading, process
  supervision, sockets, HTTP routes, the token bucket, the proxy's I/O.
- `tests/` — tests of the library on concrete values.
