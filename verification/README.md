# linear-cli

A command-line client for the Linear issue tracker, written in Verus.

- `src/` is the verified library: value objects and entities with their
  validation, the decision logic of every use case (authentication, issues,
  projects, teams) as step functions that take the outcome of each network,
  keychain or disk operation as an event, the shaping of API requests and the
  reading of API answers, and the command-line checks and messages that need no
  terminal. Each public function states its result in its contract.
- `app/` is the `linear` binary: argument parsing, HTTP, the keychain and the
  credentials file, floats (project progress, issue estimates) and printing.
- `tests/` exercise the library on concrete values.

Calls into `chrono` (reading dates) and a few `std` string and path functions
stand behind small trusted wrappers whose contracts name their results.
