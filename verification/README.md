# lsz

A terminal file browser with notes, bookmarks and previews, whose logic is a Verus-verified
library.

- `src/` is the library. Verus verifies all of it, and every public function has a contract:
  - `cli/`: argument parsing and the help page;
  - `config/`, `domain/`: key bindings, entries, notes, bookmarks and the preview model;
  - `surfaces/tui/app/`: the browser as a state machine (`reduce` from state and action to
    state and effects; key input to actions), with its laws in `laws.rs`;
  - `surfaces/`: the status line, the pane arrangement, the detail card and the plain listing;
  - `infra/`: the preview cache, file classification, `LS_COLORS`, MIME sniffing, syntax
    resolution and code highlighting, and the preview providers (text, markdown, archive,
    PDF, image);
  - `archive.rs`, `imagepreview.rs`, `pdfpreview.rs`, `lscolors.rs`, `analyzer.rs`: stand-alone
    file inspection (grouped archive summaries, image and PDF facts, the fuller `LS_COLORS`
    pattern language, a security report);
  - `text.rs`, `lexing.rs`, `units.rs`, `paths.rs`, `sorting.rs`: the string, number and path
    operations the rest is stated over.
- `app/` is the program around it: command line dispatch, the SQLite store, the terminal
  loop and drawing, the retuning of theme colours, and everything that reads files or runs
  tools.
- `tests/` runs the library on concrete values.

Outside code that the library calls (std's path, case-mapping and whitespace functions,
`unicode-width`, `lru`, `syntect`, `ratatui`'s layout) is reached through small wrappers whose contracts are stated, not
proved; each carries a doc comment saying what it claims.
