# sfav

A terminal launcher for saved shell commands. Commands live in a TOML file;
the launcher lists them, filters them as you type (a case-insensitive
substring match over name, command and notes), and hands the selected one to
`$SHELL -c`.

Layout:

- `src/` is the verified library (Verus): the launcher state and its
  operations (`app`), what each input event does (`event`), color settings
  (`theme`), the configuration types (`config`), the configuration path
  (`cli`), the table rows, notes popup and popup placement (`ui`), and the
  character-level text helpers they use (`text`).
- `app/` is the terminal program: argument and environment reading, TOML
  loading, drawing with ratatui, the crossterm event loop, and running
  commands.
- `tests/` runs the library on concrete values.
