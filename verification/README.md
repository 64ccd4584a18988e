# c2s_setup

The verified core of the C2S lab workstation setup tool, a terminal
dashboard that installs EDA tools (Xilinx, Cadence, Silvaco, CADRE) on the
lab's RHEL 8 machines and tracks the installation.

- `src/` is the library, written and proved with Verus:
  - `text` — trimming, searching, splitting and decimal numbers over characters;
  - `state` — the persisted `KEY=VALUE` state, its file format and parser;
  - `config` — the machine configuration, phases and log lines;
  - `app` — the dashboard's state machine (keys in, actions out);
  - `dependency` — resolving a missing library to packages via `dnf provides`;
  - `network`, `validation` — the diagnostics' state and output readers;
  - `tools`, `users` — installer and account decisions;
  - `layout`, `details` — the texts the dashboard shows;
  - `flows` — the step-by-step decisions of account set-up and the Cadence installers.
- `app/` is the terminal program around it: terminal, clock, files, processes and
  background tasks.
- `tests/` exercises the library on concrete values.

## Collections

The installation state is a `StateMap` (a `Vec` of key/value pairs whose
keys are unique, kept in insertion order) rather than a
`HashMap<String, String>`, and the packages found for a dependency are a
`Vec` without repeats (in the order first seen) rather than a
`HashSet<String>`. vstd specifies `HashMap` and `HashSet` only for key types
known to obey its key model (`obeys_key_model`), which it establishes for
integers, `bool` and `char` but not for `String`; with `String` keys the
contents of such a map cannot be stated, so neither "a saved key reads back"
nor "the state file reads back as the state" could be proved through it.
The invariants of the two replacements (unique keys; no repeated package)
are what the hashed collections guaranteed. Both also give a fixed order:
the state file and the `dnf install` arguments no longer depend on hash
order.

`sort_names` orders the Cadence archives by name with a verified insertion
sort, because vstd gives no specification for `slice::sort`.
