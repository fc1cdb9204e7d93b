# janus

The core of Janus, a plain-text issue tracker with terminal interfaces,
written in Verus: ticket types and identifiers, search and ranking, and the
state machines behind the issue browser and the remote-sync interface, each
with its contract proved.

- `src/` — the verified library. `types`, `utils`, `text`, `error`, `hooks`
  and `remote` hold the ticket model and its text forms; `tui/` holds the
  interfaces' state: key maps, reducers, navigation, search, and the key
  handlers, which return what the caller must do (an operation to run, a
  fetch to start) instead of doing it.
- `app/` — what the library leaves to its caller: key events of the
  terminal library, the YAML front matter, the editor process, terminal
  suspension, and reading the environment and standard input.
- `tests/` — tests of the library on concrete values.
