# brainwires_cli

The logic of the Brainwires terminal interface and its agent tools, written
in Verus. The functions in `src/` carry contracts that Verus proves; the
few that call the standard library for Unicode case mapping, path
components and string pushes are trusted wrappers, each with a doc comment
saying what its contract claims.

- `src/` — the verified library: key handling of the main view and of the
  dialogs and views whose state it holds (`key_actions`, `main_view`,
  `viewers`, `events`, `paste`, `find_replace_keys`), the main loop's
  decisions (`main_loop`), the interface commands (`commands`), the
  approval and sudo password dialogs, plan mode, the file explorer, the Git view (status parsing, commands
  and their outcomes), the help and hotkey content, key bindings, clarifying
  questions, the memory notes and their index, the process monitor's line
  buffer, the tool definitions and replies of the agent-pool, task-manager
  and question tools, and session bookkeeping. Laws that relate several
  operations stand as `pub proof fn lemma_*` next to the functions they
  speak of.
- `app/` — plain Rust around the library: reading the terminal, running
  git and watched processes, the file system, JSON, the console prompt and
  the widget library's hotkey dialog, and the main loop (`app/run.rs`)
  that asks the library what each event means and carries it out; the
  modes whose state lives beyond the library (the sub-agent viewer,
  reverse search, the session picker, the editor, the ask-user prompt) are
  handed to the embedding program, and for the
  find/replace dialog and the clarifying questions it applies the library's
  decision to the state that program keeps.
- `tests/` — tests run against the compiled library.

Verify with `verus` on `src/lib.rs` (crate type `lib`).
