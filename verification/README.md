# mas_cli

`auto-mas-cli` controls an AUTO-MAS backend from the command line:
`backend status|start|stop`, `queue list` and `queue start --queue-id <id>`,
with text or `--json` output.

The crate is a Verus library with a thin executable around it.

- `src/` holds everything the CLI decides, with contracts proved by Verus:
  - `session`, `flow`, `machine`: a command run as a state machine. `flow` states
    each step as a spec function; `machine` implements it and proves it equal.
    The machine asks for one request at a time (read the environment, inspect
    paths, send an HTTP request, spawn the backend, ...) and is answered with a
    reply.
  - `laws`: properties of every run, such as that only `backend stop` or a queue
    command's temporary backend is ever asked to close, that `backend status`
    exits with 0, and that a `--json` run prints exactly one JSON value.
  - `api`, `output`, `queue_output`, `errors`, `json`: backend replies, the JSON
    envelopes and text lines printed, and the error categories.
  - `runtime`: application root and Python discovery, path joining, the
    administrator relaunch command, the backend spawn plan.
  - `installer`: the user `PATH` edits of the `mas` command installer, with
    their round-trip laws.
  - `updater`: version comparison and the self-update plan.
  - `text`: the string operations the rest is written with.
- `app/` parses the command line with clap and answers the machine's requests
  with real I/O (files, processes, reqwest, serde_json).
- `tests/` run the library on concrete inputs, including whole command runs.
