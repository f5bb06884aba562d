# grit

Git Review In Terminal: a terminal checklist for reviewing the files changed
between two refs, with review progress kept across sessions.

## Layout

- `src/` is the library, written in Verus. Every function there carries a
  contract, and the contracts are proved: parsing `git diff --raw` and
  `--numstat` output, merging saved review progress into a fresh diff, the
  checklist, ANSI colour translation, configuration checks, themes, worktree
  rules, the key, mouse and layout rules of the interface, and the decisions
  of its event loop (`run_loop`: what each input does, when to save, refresh,
  copy or recompute the previews). The
  properties that span several functions stand as `law_*` proof functions.
- `tests/` runs the library on concrete values.
- `app/` is the program around it: argument parsing, running `git`, reading and
  writing the configuration and session files, drawing the terminal, and the
  background diff worker. Its event loop reads input, asks `run_loop` what to do,
  and does it.
