# realtime_lint

A lint that reports calls from functions marked realtime to code that is not
marked realtime, with its decisions verified in Verus.

- `src/` is the verified library: the marker texts and how attribute lists are
  read back (`marker.rs`); the attribute macros as token transformations, with
  `syn` parsing and printing behind trusted wrappers (`attr_macros.rs`); the
  lint's state and its handling of functions, `let` statements and calls
  (`lint.rs`); the variable table (`var_table.rs`); the message prefix
  (`timestamp.rs`); the text operations they rest on (`text.rs`); and
  properties that span them (`laws.rs`).
- `app/` holds what runs inside the compiler: the entry points of the
  attribute macros, the lint pass that turns the compiler's syntax tree into
  the library's events, and the sample functions the lint is run on. It needs
  a nightly compiler with `rustc-dev`.
- `tests/` runs the library on the sample scenarios.
