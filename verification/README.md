# compiler

The front end of the Light language, verified with Verus, and `lightc`, the
program that compiles Light modules with LLVM.

## Layout

- `src/` — the verified library (`compiler`):
  - `lexer.rs`: the lexer, with the token grammar stated as spec functions
    (`lex_source`); tokens carry their line and column.
  - `parser/`: the recursive-descent parser. `grammar.rs` and
    `statement_grammar.rs` state what each parsing function returns (the
    tree and the error messages), `expression_parser.rs`,
    `statement_parser.rs` and `type_parser.rs` are proved against them;
    `visitors.rs` holds the syntax tree and its spec view; `ast_printer.rs`
    prints a tree; `ast_clone.rs` copies one.
  - `type_system/`: the type checker. `typing.rs` states the typing rules
    over the spec view (`typed_stmts`), the checker in
    `type_check*.rs` is proved to follow them, and the laws of the checker
    (a declared variable is found, a name or struct cannot be declared twice,
    `break` needs a loop) are proof functions there.
  - `desugar/`: `for` loops rewritten as `while` loops, and the import
    resolver that turns what imported modules export into declarations.
  - `lowering.rs`: the LLVM types, linkage and instructions (signed integer
    arithmetic and comparisons, ordered float comparisons) that the code
    generator uses for Light types and operations.
  - `value_type.rs`, `text.rs`: Light types and the text helpers.
- `tests/` — the tests of the library.
- `app/` — `lightc`: command line, file reading, import loading, LLVM code
  generation with inkwell, object files, linking, and an interactive mode
  (`--repl`).
