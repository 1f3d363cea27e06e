# bmb

Parts of the BMB compiler whose behaviour is stated and proved with Verus:
compile errors and warnings, `@derive` attribute handling, diagnostic
patterns, and the generation of textual LLVM IR from MIR.

## Layout

- `src/error.rs`: `CompileError` and `CompileWarning`, their messages and
  display text.
- `src/report.rs`: the titles and machine-readable lines of error and
  warning reports; an error's line carries the suggestions of the
  diagnostic patterns that apply to it.
- `src/derive.rs`: the traits named by `@derive(...)` attributes.
- `src/diagnostics/`: hints matched against compile errors.
- `src/ast.rs`, `src/mir.rs`: the syntax and MIR values the rest reads.
- `src/text.rs`: string building and decimal rendering with their models.
- `src/codegen/`: the LLVM IR generator. `program.rs` states what a whole
  module's text is; `function.rs` states the text of functions, blocks and
  instructions, with one module per family of instructions (`instructions`,
  `calls`, `builtins`, `vectors`, `bytes`, `memory`, `arrays`,
  `aggregates`, `concurrency`, `select`, `terminator`), and the analyses
  they rest on (`analysis`, `returned`, `escape`, `strings`, `names`).
  `stub.rs` is the generator used where LLVM is not available.
- `app/`: printing reports with `ariadne`, error types with
  `std::error::Error`, and the host's target triple.
- `tests/`: executable tests of the library.

Every function in `src/` is verified except two trusted wrappers of std,
whose contracts are believed: `text::push_char` (`String::push`) and
`diagnostics::to_lowercase` (`str::to_lowercase`, whose result is named by
the spec function `lowercase`). The text each emitting function appends is
stated by a spec function, most of them named after the instruction with a
`_text` suffix.
