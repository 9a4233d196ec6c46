# audit_viewer

A terminal viewer for the audit trail of a chat engine: recent messages, errors,
messages held for review, logs and modules, each on a tab of its own.

- `src/` is the library, verified with Verus. `engine` holds the envelopes, the
  waiting for answers and the handling of live messages; `refresh` the queries
  and what their answers change; `json` the documents; `model` the data; `tui`
  the tabs and keys; `layout` and `draw` the screen; `clock` and `text` what the
  others need of time and text.
- `tests/` runs the library.
- `app/` is the program around it: the socket, the timers and the terminal. It
  needs the engine's client crate, `cockatiel_client`.

What rests on other crates is marked in the sources: the JSON parser
(`serde_json`), the layout solver (`ratatui`) and the system clock.
