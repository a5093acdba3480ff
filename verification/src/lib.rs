//! A Forth compiler that targets WebAssembly: it lays out a Forth dictionary
//! in the linear memory of a WASI module, with native words written in
//! WebAssembly and colon words threaded through execution tokens, and builds
//! a minimal interpreter that loads the rest of its definitions from prelude
//! files when it starts.
//!
//! [`bootstrapper`] holds the current compiler and interpreter;
//! [`compiler`] with [`bootstrapped_interpreter`], and [`generator`] with
//! [`interpreter`] and [`parser`], hold the two earlier ones.
use vstd::prelude::*;

pub mod wasm;
pub mod semantics;
pub mod lowering;
pub mod assembler;
pub mod tokens;
pub mod layout;
pub mod bootstrapper;
pub mod compiler;
pub mod bootstrapped_interpreter;
pub mod generator;
pub mod interpreter;
pub mod parser;

use crate::assembler::AssembleError;
use crate::bootstrapper::bootstrapped_interpreter::{
    build, includes_prelude, interpreter_words_defined, wasi_functions, with_interpreter_words, with_start,
    WASI_MODULE,
};
use crate::bootstrapper::compiler::{default_compiler, empty_compiler, finished, grows, ColonValue, Compiler, CompilerSpec};
use crate::lowering::wasm_binary;

verus! {

/// Compiles the minimal interpreter into a WASI module whose `_start`
/// includes each of `prelude_files` (names within the prelude directory) in
/// order; the module exports only `_start`.
pub fn compile_interpreter(prelude_files: &Vec<String>) -> (r: Result<Vec<u8>, AssembleError>)
    requires
        prelude_files@.len() <= usize::MAX / 2,
    ensures
        exists|program: Seq<ColonValue>|
            {
                &&& includes_prelude(program, prelude_files@)
                &&& match r {
                    Ok(bytes) => wasm_binary(interpreter_module(program).assembler.sections()) == Some(bytes@),
                    Err(_) => wasm_binary(interpreter_module(program).assembler.sections()) is None,
                }
            },
{
    let mut compiler = Compiler::default();
    let ghost c0 = compiler@;
    build(&mut compiler, prelude_files);
    let ghost program = choose|program: Seq<ColonValue>|
        {
            &&& grows(c0, with_interpreter_words(c0))
            &&& interpreter_words_defined(with_interpreter_words(c0))
            &&& includes_prelude(program, prelude_files@)
            &&& compiler@ == with_start(with_interpreter_words(c0), program)
        };
    let r = compiler.compile();
    assert(includes_prelude(program, prelude_files@));
    r
}

/// The finished interpreter whose `_start` runs `program`: the core words,
/// the words of the minimal interpreter, then `_start`.
pub open spec fn interpreter_module(program: Seq<ColonValue>) -> CompilerSpec {
    finished(with_start(with_interpreter_words(default_compiler()), program))
}

/// Law (WASI imports): the interpreter's module imports exactly the WASI
/// functions `wasi_functions`, in order, each from `wasi_snapshot_preview1`,
/// and no other function.
pub proof fn lemma_interpreter_module_imports(program: Seq<ColonValue>)
    ensures
        interpreter_module(program).assembler.imports.len() == wasi_functions().len(),
        forall|i: int|
            0 <= i < wasi_functions().len() ==> (#[trigger] interpreter_module(program).assembler.imports[i]).module
                == WASI_MODULE@ && interpreter_module(program).assembler.imports[i].field == wasi_functions()[i],
{
    broadcast use crate::bootstrapper::compiler::lemma_entry_keeps_imports;
    crate::bootstrapper::compiler::lemma_core_words_keep_imports(empty_compiler());
    let c = with_interpreter_words(default_compiler());
    crate::bootstrapper::bootstrapped_interpreter::lemma_interpreter_imports(default_compiler());
    crate::bootstrapper::dictionary::lemma_finished_keeps_imports(with_start(c, program));
    assert(with_start(c, program).assembler.imports == c.assembler.imports);
    assert forall|i: int| 0 <= i < wasi_functions().len() implies (#[trigger] interpreter_module(program).assembler.imports[i]).module
        == WASI_MODULE@ && interpreter_module(program).assembler.imports[i].field == wasi_functions()[i] by {
        assert(c.assembler.imports[0 + i] == c.assembler.imports[i]);
    }
}

} // verus!
