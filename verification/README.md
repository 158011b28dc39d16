# scadm_core

The verified core of `scadm`, the command line client, and `scadmd`, the
daemon that installs, updates, starts and stops a self-hosted
schueler-connect server.

- `src/` is the library, verified with Verus: the wire framing between client
  and daemon (`conn`), the frames (`frame`, `status`, `error`), decimal text
  (`numtext`), semantic versions (`version`, over the `semver` crate), the
  installation slots, the choice of the release to install and the steps of
  updating, switching, starting and stopping the server (`installation`), the
  daemon's handling of requests (`daemon`), and the client's decisions
  (`commands`).
- `app/` holds what performs I/O: files and FIFOs, HTTP, npm processes,
  signals, the tokio runtime, daemonizing and the command line. It runs the
  library's step functions and feeds their results back.
- `tests/` exercises the library on concrete values.
