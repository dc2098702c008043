# classql

A natural-language query language for course schedules (`prof is smith and
monday`), compiled to SQL over a SQLite course database, with the rules of a
keyboard-driven terminal interface around it. The library is written in Verus:
its functions carry contracts that Verus proves. The few calls into outside
code (the `regex` crate, and std's `String::push` and case
conversion) sit in small `#[verifier::external_body]` wrappers whose contracts
are trusted, each saying in its doc comment what it claims.

## Layout

- `src/text.rs` — string and number helpers shared by the modules (UTF-8 spans,
  decimal text, trimming, searching), each with its contract.
- `src/dsl/` — the query language: `token` (kinds and patterns), `lexer`,
  `parser` (recursive descent; every routine is stated as a spec function that
  the executable parser is proved to compute), `semantic` (checks on values),
  `codegen` (SQL generation, kept to the school and term the user selected),
  `params` (turning the generated SQL into a
  parameterized query: user values become `?` placeholders and are bound
  separately) and `compiler` (the pipeline and tab completion).
  `words` holds the word lists offered in messages and completions.
- `src/compiler/` — a keyword front end of the same language whose tokens carry
  their text: tokens, lexer, parser and a compiler that stops after parsing.
- `src/data/` — database records and how they are shown (`display`: the
  lines of a class section in a results cell, its meetings sorted by day),
  the database and synchronisation settings.
- `src/tui/` — errors and their messages, interface state, themes, the save
  file format of schedules, `nav`: the keyboard rules of the interface
  (moving through results, pickers, the guide and the calendar, completing the
  query, naming a schedule), and `step`: the interface as a state machine, one
  step from a state and a key (or a compilation's outcome) to the next state
  and the action to carry out, with the settings pickers, the theme and the
  cart.
- `app/` — the command-line program: argument handling, the loop of the
  interactive interface (reading keys, carrying out the actions `step` asks
  for), running the generated SQL with `rusqlite`, reading and writing save
  files, synchronisation.
- `tests/` — tests of the library through its public interface.

Laws of the library are public proof functions named `lemma_*`, next to the
functions they speak of.
