# simplex_tui

A terminal client for SimpleX Chat. It drives the official SimpleX Chat library, whose
protocol, storage and networking stay in that library, and shows conversations, profiles and
settings in the terminal.

The crate is written in Verus. `src/` is the verified library:

- `json`, `text`, `seqs`: the JSON values and texts the core exchanges, with their views.
- `codec`: reading and writing JSON text with `serde_json`, behind two trusted wrappers whose
  results are named; the reply reader and the command line builder are verified on top of them.
- `model`: reading the core's replies and events (profiles, chats, messages, files, reactions,
  servers, features) into typed values; each reader is specified over the reply's JSON view.
- `client`, `requests`, `worker`: the rules of the command language: command lines and
  documents, edits of profiles, preferences and server lists, download names, link checks.
- `driver`: the worker between moves: it takes nothing but answers while its start is under
  way, and a command or an event of the core only when no flow waits.
- `flow`, `steps`: the worker as a state machine. Each command or core event starts a flow; each
  step says what it needs next (a call to the core, a directory, a probe of a path) and reports
  events. `flow` states every move as a spec function, `steps` carries them out.
- `state`, `events`, `actions`, `keys`, `mouse`, `cache`, `messages`, `prefs`: the interface's
  state and how worker events, keys, clicks and pastes change it.
- `layout`, `window`: bubble sizes, which messages a conversation shows, and its scroll bar.
- `config`: the data directories and the session between interface and worker.

`app/` is the program around it: loading the native library, the worker thread that performs
what flows need, the preferences file, and drawing with ratatui. `tests/` runs the library on
concrete values.

Two collections differ from what a plain Rust program would use, because vstd cannot state
their contents here:

- The message cache is a `Vec` of conversations with distinct keys, kept as a type invariant,
  not a `HashMap` keyed by the conversation. vstd specifies `HashMap` only for keys whose
  hashing it models (the integer types, `bool` and boxes of them); for a `String` key, or a
  struct of this crate, its contract holds only after an `assume`, which this crate does not use.
- The SMP server list is built by inserting each address at its sorted place unless it is
  already there, not by `sort` and `dedup` on a `Vec<String>`: vstd gives no contract to
  sorting strings.
