# openxgauthenticator

Logs a user into a Sophos XG firewall and keeps the session alive.

- `src/` is the library, verified with Verus: configuration formats and their
  defaults, credential entry, user agents, the standalone program's requests and
  the judgment of the firewall's replies, and the two retry loops (command line
  and desktop) as state machines, with the laws they keep proved as proof functions.
- `app/` is the program around it: one binary whose first argument picks
  `standalone`, `cli` (the default) or `gui`. It reads and writes the
  configuration files, prompts for credentials, talks to the firewall (directly
  or through `libopenxg`), sleeps, and draws the desktop window.
- `tests/` runs the library on concrete values.
