# crabmander

A twin-pane terminal file manager in the spirit of Norton Commander, whose
behaviour is written as a library verified with Verus.

## Layout

- `src/` — the verified library. `AppState::update` takes one action (a key
  the user pressed, or the answer of some work that finished) and returns the
  new state together with the effects the host has to carry out; its contract
  (`step`) says, for every action, what changes and which effects come out.
  The panels (listing, filtering, sorting, marking, directory sizes), the git
  view, the dialogs, the context menu, quick-cd, the recent-directory list, the
  key map and the texts and geometry of the screen each live in a module of
  their own, with their laws as proof functions (`laws.rs` gathers those that
  span several operations).
- `app/` — the program around it: the terminal, the event loop, and the work
  that touches the world (file system, git through `git2`, archives,
  `udisksctl`, `lsblk`, a file watcher). It hands the library plain values and
  performs the effects the library returns.
- `tests/` — tests of the library on concrete values.
