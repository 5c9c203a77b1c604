# c9watch

The core of c9watch, a monitor for the running sessions of a command line coding
agent. It is written in Rust and verified with Verus.

- `src/proc.rs`: whether a process is alive, a snapshot of the process table, and the
  search for an executable.
- `src/path.rs`: paths as opaque values.
- `src/session/`: detected sessions, detection backends, and the merging of what two
  backends find.
- `src/settings.rs`: the settings, what is loaded where none are stored, and the steps
  that store them.
- `src/web_server/`: the remote-access gate, static files, the protocol's messages and
  the course of one connection.
- `app/`: the shell around the core, with the system calls, the files and the sockets.
- `tests/`: tests of the core.

The name of the agent's command is a parameter wherever it is needed: the command is
started under it, and the settings stand below a hidden directory of that name.
