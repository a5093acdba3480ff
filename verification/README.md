# ForSM

A standalone Forth interpreter/compiler for WebAssembly, bootstrapped from
Rust. The library lays out a Forth dictionary in the linear memory of a WASI
module: native words are WebAssembly functions reached through the function
table, colon words are threaded lists of execution tokens. The minimal
interpreter it builds is just powerful enough to include every file of
`./src/prelude`, which define the rest of its functionality.

The library is written in Verus: every function states its behaviour in
`requires`/`ensures` clauses over a mathematical model of the module and the
dictionary, and Verus proves the code against them.

## Layout

- `src/wasm.rs`, `src/assembler.rs`, `src/lowering.rs`: a plain model of the
  WebAssembly instructions and module being built, and its assembly into a
  binary with parity-wasm (imports first, then defined functions).
- `src/semantics.rs`: what the emitted WebAssembly computes (operands,
  locals, globals, linear memory, calls, `if`/`else`); `src/bootstrapper/words.rs`
  proves, over it, what the current compiler's words do to the Forth data
  stack (`DUP`, `SWAP`, `ROT`, `/MOD`, `FM/MOD`, `D+`, ...).
- `src/layout.rs`, `src/tokens.rs`: little-endian cells, 4-byte alignment,
  and the table of execution tokens by name.
- `src/bootstrapper/`: the current compiler (`compiler.rs`), the laws of its
  dictionary image (`dictionary.rs`) and the words of the minimal interpreter
  (`bootstrapped_interpreter.rs`). `compile_interpreter` in `src/lib.rs`
  builds the whole WASI module.
- `src/compiler.rs` with `src/bootstrapped_interpreter.rs`, and
  `src/generator.rs` with `src/interpreter.rs` and `src/parser.rs`: the two
  earlier compilers and the interpreter words built with them.
- `app/`: the program that reads the prelude directory and writes
  `./bin/forsm.wasm`, and wasmer runtimes for the compiled modules.
- `tests/`: the compiled modules run under an embedded WebAssembly engine.

## Running it

```bash
# Compile the minimal interpreter to ./bin/forsm.wasm
cargo run

# Run it with any WASI implementation; e.g. with wasmer
wasmer --dir=. ./bin/forsm.wasm
```

The first preopened directory must be this directory; the interpreter loads
its own source code from `./src/prelude`.
