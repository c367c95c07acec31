# cliprust

A clipboard history keeper. A background service watches the system
clipboard, records new text, file references (`file://...`) and images in an
SQLite history, and puts a recorded entry back on the clipboard on request; a
small window lists the history, pages through it, searches it and pins
entries: it sends the service a `TogglePin` command, which the service
carries out by flipping the entry's pin status. The service carries out
`Copy`, `Clear` and `TogglePin`, and has no answer to any other command.

- `src/` is the verified library (Verus): content types and the command
  parser, text fingerprints (SHA-256 in hexadecimal), the formatters and
  extractors that decide what is recorded and how it is restored, the
  registry that keeps each formatter's memory of what it recorded last, the
  history list's paging model, and the command dispatch of the background
  processes. PNG encoding and decoding (the `image` crate), SHA-256 (`sha2`)
  and bidirectional text layout (`unicode-bidi`) are called through small
  trusted wrappers whose contracts name their results.
- `app/` is the program around it: the clipboard (`arboard`), the database
  (`rusqlite`), the Unix socket with JSON commands (`serde_json`), and the
  window (`eframe`).
- `tests/` exercises the library on concrete values.
