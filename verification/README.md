# conclave

The client logic of Conclave, an end-to-end encrypted group messenger built
on MLS, written in Verus. The library's own functions are proved against
their contracts; the few calls into std and into the uuid, chrono and hex
crates go through small trusted wrappers whose contracts are taken as given
(they are marked `#[verifier::external_body]`).

## Layout

- `src/` — the verified library:
  - `command.rs`, `tui/commands.rs`, `repl.rs`: command parsing and the help
    registry;
  - `editor.rs`, `cli/input.rs`, `tui/input.rs`, `cli/keys.rs`: the line
    editor and key handling, with laws on history and word editing;
  - `cli/render.rs`, `tui/render.rs`: screen layout (widths, rows, cursor,
    status line, colours);
  - `cli/plan.rs`, `tui/plan.rs`: what each command needs before a request
    is made; `cli/outcomes.rs`, `cli/commands.rs`, `cli/events.rs`,
    `cli/replies.rs`, `cli/state.rs`, `tui/state.rs`: what the outcome of a
    request or a server event does to the state and which messages it shows;
  - `state.rs`, `tofu.rs`, `duration.rs`, `api.rs`, `config.rs`,
    `operations.rs`, `mls.rs`, `ids.rs`, `text.rs`: rooms, trust on first
    use, expiry durations, server URLs, sessions, MLS results and group IDs,
    UUIDs and text.
- `tests/` — tests of the library on concrete values.
- `app/` — the program around it: terminal I/O, configuration files, the
  message database, desktop notifications and the MLS calls into mls-rs.
  This build has no server connection: the server's protocol definitions
  are not part of this repository, so every command that needs the server
  answers with an error, and only local commands (switching and closing
  rooms, help, editing) work.
