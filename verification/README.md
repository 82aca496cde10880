# dedcom

The core of a multi-panel file commander that finds duplicates on a ZFS pool and clears them:
panels and their marks, the plan and its confirmation, the triage board, background moves, the
wizard's screens. Everything under `src/` is verified with Verus.

- `src/` holds the library. A keystroke or an answer from outside changes the state; work that has
  to be done outside is put into the outbox as an `Effect`; a screen is drawn as a list of widgets
  on a `Canvas`.
- `app/` is the ordinary Rust around it: the terminal, the file system, the workers, and the
  drawing of a canvas with ratatui.
- `tests/` runs the library, the screens among it on a test terminal.
