# lianli_control

The logic of the Lian Li Linux control helper, verified with Verus: installing and switching service
modes, recovering an interrupted switch, moving media between accounts and boxes, and inspecting the
runtime of the daemon.

- `src/` is the library. Every item is verified. It performs no I/O: what the system says comes in as
  plain values, and work that alternates with the system (running a helper, switching modes,
  publishing media, setting up a box) is a machine whose step says what to do next. The functions and
  steps state in their contracts what they decide and with which words they refuse; the public proof
  functions state what holds across them.
- `tests/` runs the library on concrete values.
- `app/` is the command line around it: it runs processes, reads files, prints reports, and lists,
  reviews and removes managed media. The ownership lock of the daemon is named by
  `LIANLI_DAEMON_LOCK`.

Calls into `sha2`, `serde_json`, `libc` and a few functions of the standard library stand behind
items whose contracts Verus takes on trust. Each says so in its documentation: see `digest`, `json`,
`ownership`, `command` and `text`.
