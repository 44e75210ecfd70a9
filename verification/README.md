# turn_failure_handler

Failure handling for the turns of a coding agent, verified with Verus.

When a model request fails, the agent may go on with the same turn: it follows instructions that
the user has configured for the thread, is told what failed, and is told which tool calls of the
turn have a recorded output. The crate decides when that happens, how often, and what the model is
told. It also decides on requests to unload a thread.

- `src/` is the verified library. Every function states in its contract what it returns; the public
  proof functions state what holds across functions, such as that a handler which was written is
  the one that is read back (on a model of the table, see below), that a turn goes on no more often
  than its handler allows, and that a summary keeps to its limit of bytes.
- `app/` runs the library on a SQLite database and inside a host: it executes the statements that
  the library hands out, parses and writes JSON, and awaits.
- `tests/` runs the library, with a SQLite database where one is needed.

Outside the proofs stand:

- `serde_json`'s judgement on what is JSON (`src/json.rs`), the system clock (`src/store.rs`), and
  what is left in a slice iterator (`src/summary.rs`);
- that SQLite does with the statements what the model of the table in `src/table.rs` has them do;
- what the host does to its sets of threads, of which `src/requests.rs` states what it takes.
