//! The words of the minimal Forth interpreter: error handling, WASI-based
//! input and output, a parser for the input buffer, and an outer interpreter
//! that looks words up in the dictionary, runs or compiles them, and parses
//! numbers. Its entry point `_start` includes every prelude file in turn.
use vstd::prelude::*;
use vstd::string::StringExecFns;
use crate::bootstrapper::compiler::{
    core_words_defined, grows, lemma_core_words_kept, ready_to_finish, colon_words_defined,
    total_bytes, header_size, lemma_total_bytes_bound, colon_code, stack_words_defined, memory_words_defined,
    execution_words_defined, math_words_defined, word_key, arithmetic_words_defined, bit_logic_words_defined,
    comparison_words_defined, lemma_math_words_kept, ColonValue, Compiler, CompilerSpec, ParamType,
};
use crate::bootstrapper::compiler::ColonValue::{Branch, Lit, QBranch, StringLit, XT};
use crate::bootstrapper::compiler::ParamType::{I32, I64};
use crate::layout::{add32, le32};

verus! {

/// The module every WASI import comes from.
pub const WASI_MODULE: &'static str = "wasi_snapshot_preview1";

/// The directory, relative to the first preopened directory, that holds the
/// prelude files `_start` includes.
pub const PRELUDE_DIR: &'static str = "src/prelude/";

/// The error handling words are defined.
#[verifier::opaque]
pub open spec fn error_words_defined(c: CompilerSpec) -> bool {
    &&& c.defines("PROC-EXIT")
    &&& c.defines("THROW")
}

/// The words calling WASI functions are defined.
#[verifier::opaque]
pub open spec fn wasi_words_defined(c: CompilerSpec) -> bool {
    &&& c.defines("ARGS-GET")
    &&& c.defines("ARGS-SIZES-GET")
    &&& c.defines("FD-READ")
    &&& c.defines("FD-WRITE")
    &&& c.defines("PATH-OPEN")
    &&& c.defines("FD-CLOSE")
    &&& c.defines("FD-PRESTAT-GET")
    &&& c.defines("FD-PRESTAT-DIR-NAME")
    &&& c.defines("FD-FDSTAT-GET")
}

/// The words reading input are defined.
#[verifier::opaque]
pub open spec fn input_words_defined(c: CompilerSpec) -> bool {
    &&& c.defines("INBUF")
    &&& c.defines(">INBUF")
    &&& c.defines("#INBUF")
    &&& c.defines("IOVEC")
    &&& c.defines("CIOVEC")
    &&& c.defines(">SOURCE-ID")
    &&& c.defines("SOURCE-ID")
    &&& c.defines("LOAD-INPUT-CHUNK")
    &&& c.defines("INBUF-EMPTY?")
    &&& c.defines("EOF")
    &&& c.defines("READ-INPUT-CHAR")
    &&& c.defines("IS-TERM?")
    &&& c.defines("ACCEPT")
}

/// The words writing output and opening files are defined.
#[verifier::opaque]
pub open spec fn output_words_defined(c: CompilerSpec) -> bool {
    &&& c.defines("EMIT-BUFFER")
    &&& c.defines("BYTES-WRITTEN")
    &&& c.defines("EMIT")
    &&& c.defines("TYPE")
    &&& c.defines("INIT-DIR-FD")
    &&& c.defines(">FD")
    &&& c.defines("OPEN-FILE")
}

/// The input and output words are defined.
#[verifier::opaque]
pub open spec fn io_words_defined(c: CompilerSpec) -> bool {
    &&& wasi_words_defined(c)
    &&& input_words_defined(c)
    &&& output_words_defined(c)
}

/// The words of the parser are defined.
#[verifier::opaque]
pub open spec fn parser_words_defined(c: CompilerSpec) -> bool {
    &&& c.defines(">IN")
    &&& c.defines("TIB")
    &&& c.defines("TIB-MAX")
    &&& c.defines("#TIB")
    &&& c.defines("REFILL")
    &&& c.defines("SOURCE")
    &&& c.defines("PARSING?")
    &&& c.defines("'IN")
    &&& c.defines("IN@")
    &&& c.defines("1+IN!")
    &&& c.defines("PARSE")
    &&& c.defines("PARSE-NAME")
    &&& c.defines("UPCHAR")
    &&& c.defines("BASE")
    &&& c.defines("?DIGIT")
    &&& c.defines("?NUMBER")
}

/// The words working on dictionary entries are defined.
#[verifier::opaque]
pub open spec fn name_words_defined(c: CompilerSpec) -> bool {
    &&& c.defines("STR-UPPER-EQ?")
    &&& c.defines("ALIGNED")
    &&& c.defines("NAME>U")
    &&& c.defines("NAME>STRING")
    &&& c.defines("NAME>BACKWORD")
    &&& c.defines("NAME>IMMEDIATE?")
    &&& c.defines("NAME>TRAMPOLINED?")
    &&& c.defines("+NAME>IMMEDIATE?")
    &&& c.defines("+NAME>TRAMPOLINED?")
    &&& c.defines("+NAME>HIDDEN?")
    &&& c.defines("-NAME>HIDDEN?")
    &&& c.defines("NAME>XT")
    &&& c.defines("FIND-NAME")
}

/// The words of the outer interpreter are defined.
#[verifier::opaque]
pub open spec fn outer_words_defined(c: CompilerSpec) -> bool {
    &&& c.defines("STATE")
    &&& c.defines("COMPILING?")
    &&& c.defines(",")
    &&& c.defines("C,")
    &&& c.defines("COMPILE-LITERAL")
    &&& c.defines("INTERPRET-NAME")
    &&& c.defines("COMPILE-NAME")
    &&& c.defines("INTERPRET")
    &&& c.defines("INCLUDED")
}

/// Every word of the interpreter but `_start` is defined.
#[verifier::opaque]
pub open spec fn interpreter_words_defined(c: CompilerSpec) -> bool {
    &&& core_words_defined(c)
    &&& error_words_defined(c)
    &&& io_words_defined(c)
    &&& parser_words_defined(c)
    &&& name_words_defined(c)
    &&& outer_words_defined(c)
}

/// What `a` defines of the interpreter's words, `b` still defines when it
/// grows from `a`.
pub proof fn lemma_interpreter_words_kept(a: CompilerSpec, b: CompilerSpec)
    requires
        grows(a, b),
    ensures
        error_words_defined(a) ==> error_words_defined(b),
        wasi_words_defined(a) ==> wasi_words_defined(b),
        input_words_defined(a) ==> input_words_defined(b),
        output_words_defined(a) ==> output_words_defined(b),
        io_words_defined(a) ==> io_words_defined(b),
        parser_words_defined(a) ==> parser_words_defined(b),
        name_words_defined(a) ==> name_words_defined(b),
        outer_words_defined(a) ==> outer_words_defined(b),
        interpreter_words_defined(a) ==> interpreter_words_defined(b),
{
    reveal(error_words_defined);
    reveal(wasi_words_defined);
    reveal(input_words_defined);
    reveal(output_words_defined);
    reveal(io_words_defined);
    reveal(parser_words_defined);
    reveal(name_words_defined);
    reveal(outer_words_defined);
    lemma_core_words_kept(a, b);
    reveal(interpreter_words_defined);
}

/// `grows` is transitive.
pub proof fn lemma_grows_trans(a: CompilerSpec, b: CompilerSpec, c: CompilerSpec)
    requires
        grows(a, b),
        grows(b, c),
    ensures
        grows(a, c),
{
}

/// Every core word is defined, each group revealed.
proof fn lemma_core_words(c: CompilerSpec)
    requires
        core_words_defined(c),
    ensures
        stack_words_defined(c),
        memory_words_defined(c),
        execution_words_defined(c),
        math_words_defined(c),
        arithmetic_words_defined(c),
        bit_logic_words_defined(c),
        comparison_words_defined(c),
        c.defines("CP"),
        c.defines("LATEST"),
{
    reveal(core_words_defined);
    reveal(math_words_defined);
}

/// Defines `name` as a word calling the WASI function `field`.
fn define_wasi_word(
    compiler: &mut Compiler,
    name: &str,
    field: &str,
    params: Vec<ParamType>,
    results: Vec<ParamType>,
)
    requires
        old(compiler).wf(),
        params@.len() <= 16,
        results@.len() <= 16,
    ensures
        final(compiler).wf(),
        final(compiler)@.defines(name),
        grows(old(compiler)@, final(compiler)@),
        final(compiler)@.export_all == old(compiler)@.export_all,
        final(compiler)@ == old(compiler)@.with_imported_word(name@, WASI_MODULE@, field@, params@, results@),
{
    proof {
        lemma_total_bytes_bound(params@);
        lemma_total_bytes_bound(results@);
    }
    compiler.define_imported_word(name, WASI_MODULE, field, params, results);
}

/// The compiler after defining the error handling words: `PROC-EXIT`, imported
/// from WASI, and `THROW`.
#[verifier::opaque]
pub open spec fn with_error_words(c: CompilerSpec) -> CompilerSpec {
    let c = c.with_imported_word("PROC-EXIT"@, WASI_MODULE@, "proc_exit"@, [I32]@, seq![]);
    let c = c.with_colon_word("THROW", [XT("?DUP"), QBranch(4), XT("PROC-EXIT")]@);
    c
}

/// Defines `PROC-EXIT` and `THROW`, which exits the process with a nonzero
/// error code.
fn build_error_handling(compiler: &mut Compiler)
    requires
        old(compiler).wf(),
        core_words_defined(old(compiler)@),
    ensures
        final(compiler)@ == with_error_words(old(compiler)@),
        final(compiler).wf(),
        grows(old(compiler)@, final(compiler)@),
        final(compiler)@.export_all == old(compiler)@.export_all,
        error_words_defined(final(compiler)@),
{
    reveal(with_error_words);
    proof {
        lemma_core_words(compiler@);
        reveal(stack_words_defined);
        reveal(execution_words_defined);
    }
    define_wasi_word(compiler, "PROC-EXIT", "proc_exit", vec![I32], vec![]);
    // exit the process if the error is nonzero ( err -- )
    compiler.define_colon_word("THROW", vec![XT("?DUP"), QBranch(4), XT("PROC-EXIT")]);
    proof {
        reveal(error_words_defined);
    }
}

/// The compiler after defining the words that call WASI functions, each
/// imported from `wasi_snapshot_preview1`.
#[verifier::opaque]
pub open spec fn with_wasi_words(c: CompilerSpec) -> CompilerSpec {
    let c = c.with_imported_word("ARGS-GET"@, WASI_MODULE@, "args_get"@, [I32, I32]@, [I32]@);
    let c = c.with_imported_word("ARGS-SIZES-GET"@, WASI_MODULE@, "args_sizes_get"@, [I32, I32]@, [
        I32,
    ]@);
    let c = c.with_imported_word("FD-READ"@, WASI_MODULE@, "fd_read"@, [I32, I32, I32, I32]@, [
        I32,
    ]@);
    let c = c.with_imported_word("FD-WRITE"@, WASI_MODULE@, "fd_write"@, [I32, I32, I32, I32]@, [
        I32,
    ]@);
    let c = c.with_imported_word(
        "PATH-OPEN"@, WASI_MODULE@, "path_open"@, [I32, I32, I32, I32, I32, I64, I64, I32, I32]@, [I32]@,
    );
    let c = c.with_imported_word("FD-CLOSE"@, WASI_MODULE@, "fd_close"@, [I32]@, [I32]@);
    let c = c.with_imported_word("FD-PRESTAT-GET"@, WASI_MODULE@, "fd_prestat_get"@, [I32, I32]@, [
        I32,
    ]@);
    let c = c.with_imported_word(
        "FD-PRESTAT-DIR-NAME"@, WASI_MODULE@, "fd_prestat_dir_name"@, [I32, I32, I32]@, [I32]@,
    );
    let c = c.with_imported_word("FD-FDSTAT-GET"@, WASI_MODULE@, "fd_fdstat_get"@, [I32, I32]@, [
        I32,
    ]@);
    c
}

/// Defines the words calling WASI functions.
fn build_wasi_words(compiler: &mut Compiler)
    requires
        old(compiler).wf(),
    ensures
        final(compiler)@ == with_wasi_words(old(compiler)@),
        final(compiler).wf(),
        grows(old(compiler)@, final(compiler)@),
        final(compiler)@.export_all == old(compiler)@.export_all,
        wasi_words_defined(final(compiler)@),
{
    reveal(with_wasi_words);
    // read arguments into a buffer
    // ( >argv >argv-buf -- err )
    define_wasi_word(compiler, "ARGS-GET", "args_get", vec![I32, I32], vec![I32]);
    // find the size of the buffer needed for ARGS-GET
    // ( >argc >argv-buf-size -- err )
    define_wasi_word(compiler, "ARGS-SIZES-GET", "args_sizes_get", vec![I32, I32], vec![I32]);
    // read from an FD into a buffer
    // ( fid iovec-arr iovec-len >bytes-read -- err )
    define_wasi_word(compiler, "FD-READ", "fd_read", vec![I32, I32, I32, I32], vec![I32]);
    // write from a buffer to an FD
    // ( fid ciovec-arr ciovec-len >bytes-written -- err )
    define_wasi_word(compiler, "FD-WRITE", "fd_write", vec![I32, I32, I32, I32], vec![I32]);
    // open a file by (relative) path
    // ( fid dirflags path-addr path-u oflags drights-base drights-inheriting fdflags >fid -- err )
    define_wasi_word(
        compiler,
        "PATH-OPEN",
        "path_open",
        vec![I32, I32, I32, I32, I32, I64, I64, I32, I32],
        vec![I32],
    );
    // close a file descriptor
    // ( fid -- err )
    define_wasi_word(compiler, "FD-CLOSE", "fd_close", vec![I32], vec![I32]);
    // get stats of a given preopened directory ( fid >stat -- err )
    define_wasi_word(compiler, "FD-PRESTAT-GET", "fd_prestat_get", vec![I32, I32], vec![I32]);
    // get the name of a given preopened directory ( fid >name size -- err )
    define_wasi_word(
        compiler,
        "FD-PRESTAT-DIR-NAME",
        "fd_prestat_dir_name",
        vec![I32, I32, I32],
        vec![I32],
    );
    // get information about an open file descriptor ( fid >fdstat -- err )
    define_wasi_word(compiler, "FD-FDSTAT-GET", "fd_fdstat_get", vec![I32, I32], vec![I32]);
    proof {
        reveal(wasi_words_defined);
    }
}

/// The compiler after defining the input words.
#[verifier::opaque]
pub open spec fn with_input_words(c: CompilerSpec) -> CompilerSpec {
    let c = c.with_constant("INBUF"@, 0x100i32);
    let c = c.with_variable(">INBUF"@, 0i32);
    let c = c.with_variable("#INBUF"@, 0i32);
    let c = c.with_constant("IOVEC"@, 0xf8i32);
    let c = c.with_constant("CIOVEC"@, 0xf0i32);
    let c = c.with_variable(">SOURCE-ID"@, 0i32);
    let c = c.with_colon_word("SOURCE-ID", [XT(">SOURCE-ID"), XT("@")]@);
    let c = c.with_colon_word("LOAD-INPUT-CHUNK", [
        XT("INBUF"), XT("IOVEC"), XT("!"), Lit(1024), XT("IOVEC"), Lit(4), XT("+"), XT("!"),
        XT("SOURCE-ID"), XT("IOVEC"), Lit(1), XT("#INBUF"), XT("FD-READ"), XT("THROW"), Lit(0),
        XT(">INBUF"), XT("!"),
    ]@);
    let c = c.with_colon_word("INBUF-EMPTY?", [
        XT(">INBUF"), XT("@"), XT("#INBUF"), XT("@"), XT("="),
    ]@);
    let c = c.with_constant("EOF"@, -1i32);
    let c = c.with_colon_word("READ-INPUT-CHAR", [
        XT("INBUF-EMPTY?"), QBranch(24), XT("LOAD-INPUT-CHUNK"), XT("INBUF-EMPTY?"), QBranch(8),
        XT("EOF"), XT("EXIT"), XT("INBUF"), XT(">INBUF"), XT("@"), XT("+"), XT("C@"), Lit(1),
        XT(">INBUF"), XT("+!"),
    ]@);
    let c = c.with_colon_word("IS-TERM?", [
        XT("DUP"), Lit(13), XT("="), XT("SWAP"), Lit(10), XT("="), XT("OR"),
    ]@);
    let c = c.with_colon_word("ACCEPT", [
        XT("DUP"), XT("=0"), QBranch(16), XT("2DROP"), Lit(0), XT("EXIT"), XT("DUP"), XT(">R"),
        XT("READ-INPUT-CHAR"), XT("DUP"), XT("EOF"), XT("<>"), XT("OVER"), XT("IS-TERM?"),
        XT("AND"), QBranch(12), XT("DROP"), Branch(-48i32), XT("DUP"), XT("EOF"), XT("<>"), XT("OVER"),
        XT("IS-TERM?"), XT("=0"), XT("AND"), QBranch(64), XT("ROT"), XT("SWAP"), XT("OVER"),
        XT("C!"), XT("1+"), XT("SWAP"), XT("1-"), XT("DUP"), QBranch(12), XT("READ-INPUT-CHAR"),
        Branch(4), XT("EOF"), Branch(-100i32), XT("DROP"), XT("NIP"), XT("R>"), XT("SWAP"), XT("-"),
    ]@);
    c
}

/// Defines the input buffer and the words reading input into it.
#[verifier::rlimit(50)]
fn build_input_words(compiler: &mut Compiler)
    requires
        old(compiler).wf(),
        core_words_defined(old(compiler)@),
        error_words_defined(old(compiler)@),
        wasi_words_defined(old(compiler)@),
    ensures
        final(compiler)@ == with_input_words(old(compiler)@),
        final(compiler).wf(),
        grows(old(compiler)@, final(compiler)@),
        final(compiler)@.export_all == old(compiler)@.export_all,
        input_words_defined(final(compiler)@),
{
    reveal(with_input_words);
    proof {
        lemma_core_words(compiler@);
        reveal(stack_words_defined);
        reveal(memory_words_defined);
        reveal(execution_words_defined);
        reveal(arithmetic_words_defined);
        reveal(bit_logic_words_defined);
        reveal(comparison_words_defined);
        reveal(error_words_defined);
        reveal(wasi_words_defined);
    }
    compiler.define_constant_word("INBUF", 0x100);
    compiler.define_variable_word(">INBUF", 0);
    compiler.define_variable_word("#INBUF", 0);

    // iovec/ciovec are variables, the constants are just their addresses
    compiler.define_constant_word("IOVEC", 0xf8);
    compiler.define_constant_word("CIOVEC", 0xf0);

    compiler.define_variable_word(">SOURCE-ID", 0);
    compiler.define_colon_word("SOURCE-ID", vec![XT(">SOURCE-ID"), XT("@")]);

    // read a chunk of stdin into the file buffer ( -- )
    compiler.define_colon_word(
        "LOAD-INPUT-CHUNK",
        vec![
            // Prepare the iovec to read 1024 bytes into stdinbuf
            XT("INBUF"), XT("IOVEC"), XT("!"),
            Lit(1024), XT("IOVEC"), Lit(4), XT("+"), XT("!"),
            // try to read 1024 bytes
            XT("SOURCE-ID"), XT("IOVEC"), Lit(1), XT("#INBUF"), XT("FD-READ"), XT("THROW"),
            // reset stdinbuf pointer
            Lit(0), XT(">INBUF"), XT("!"),
        ],
    );

    compiler.define_colon_word(
        "INBUF-EMPTY?",
        vec![XT(">INBUF"), XT("@"), XT("#INBUF"), XT("@"), XT("=")],
    );

    compiler.define_constant_word("EOF", -1);
    // ( -- c|EOF )
    compiler.define_colon_word(
        "READ-INPUT-CHAR",
        vec![
            XT("INBUF-EMPTY?"), QBranch(24),
            XT("LOAD-INPUT-CHUNK"), // read into the stdin buffer if we need to
            XT("INBUF-EMPTY?"), QBranch(8),
            XT("EOF"), XT("EXIT"), // If stdin is STILL empty after loading a chunk, it's really empty
            XT("INBUF"), XT(">INBUF"), XT("@"), XT("+"), XT("C@"), // return the first character from the buffer
            Lit(1), XT(">INBUF"), XT("+!"), // advance the buffer pointer
        ],
    );

    // is this character a line terminator? ( c -- ? )
    compiler.define_colon_word(
        "IS-TERM?",
        vec![
            XT("DUP"), Lit(13), XT("="),
            XT("SWAP"), Lit(10), XT("="), XT("OR"),
        ],
    );

    // ( c-addr u -- n )
    compiler.define_colon_word(
        "ACCEPT",
        vec![
            XT("DUP"), XT("=0"), QBranch(16), // if someone is not asking for chars
            XT("2DROP"), Lit(0), XT("EXIT"), // return early

            XT("DUP"), XT(">R"), // hold onto the original requested length for later

            // start of loop ( c-addr u )
            XT("READ-INPUT-CHAR"),
            XT("DUP"), XT("EOF"), XT("<>"), // while we haven't hit the end of the file
            XT("OVER"), XT("IS-TERM?"), XT("AND"), // and we're reading newlines
            QBranch(12),
            XT("DROP"), // discard the character
            Branch(-48),

            // start of loop ( c-addr u c|eof )
            XT("DUP"), XT("EOF"), XT("<>"), // while we haven't hit EOF
            XT("OVER"), XT("IS-TERM?"), XT("=0"), XT("AND"), // and we haven't hit newlines
            QBranch(64),
            XT("ROT"), XT("SWAP"), XT("OVER"), XT("C!"), // write to the buffer
            XT("1+"), XT("SWAP"), XT("1-"), // increment the buffer
            XT("DUP"), QBranch(12), XT("READ-INPUT-CHAR"), Branch(4), XT("EOF"), // grab the next char (or EOF if we're done)
            Branch(-100),

            XT("DROP"), // drop the final newline/EOF we read
            XT("NIP"), XT("R>"), XT("SWAP"), XT("-"), // return the char count
        ],
    );
    proof {
        reveal(input_words_defined);
    }
}

/// The compiler after defining the output and file words.
#[verifier::opaque]
pub open spec fn with_output_words(c: CompilerSpec) -> CompilerSpec {
    let c = c.with_variable("EMIT-BUFFER"@, 0i32);
    let c = c.with_variable("BYTES-WRITTEN"@, 0i32);
    let c = c.with_colon_word("EMIT", [
        XT("EMIT-BUFFER"), XT("!"), XT("EMIT-BUFFER"), XT("CIOVEC"), XT("!"), Lit(1), XT("CIOVEC"),
        Lit(4), XT("+"), XT("!"), Lit(1), XT("CIOVEC"), Lit(1), XT("BYTES-WRITTEN"), XT("FD-WRITE"),
        XT("THROW"),
    ]@);
    let c = c.with_colon_word("TYPE", [
        XT("SWAP"), XT("CIOVEC"), XT("!"), XT("?DUP"), XT(">0"), QBranch(88), XT("DUP"),
        XT("CIOVEC"), Lit(4), XT("+"), XT("!"), Lit(1), XT("CIOVEC"), Lit(1), XT("BYTES-WRITTEN"),
        XT("FD-WRITE"), XT("THROW"), XT("BYTES-WRITTEN"), XT("@"), XT("DUP"), XT("CIOVEC"),
        XT("+!"), XT("-"), Branch(-104i32),
    ]@);
    let c = c.with_constant("INIT-DIR-FD"@, 4i32);
    let c = c.with_variable(">FD"@, 0i32);
    let c = c.with_colon_word("OPEN-FILE", [
        XT("DROP"), XT("INIT-DIR-FD"), Lit(0), XT("2SWAP"), Lit(0), Lit(0x1fffffff), Lit(0),
        Lit(0x1fffffff), Lit(0), Lit(0), XT(">FD"), XT("PATH-OPEN"), XT(">FD"), XT("@"), XT("SWAP"),
    ]@);
    c
}

/// Defines the words writing output and opening files.
#[verifier::rlimit(50)]
fn build_output_words(compiler: &mut Compiler)
    requires
        old(compiler).wf(),
        core_words_defined(old(compiler)@),
        error_words_defined(old(compiler)@),
        wasi_words_defined(old(compiler)@),
        input_words_defined(old(compiler)@),
    ensures
        final(compiler)@ == with_output_words(old(compiler)@),
        final(compiler).wf(),
        grows(old(compiler)@, final(compiler)@),
        final(compiler)@.export_all == old(compiler)@.export_all,
        output_words_defined(final(compiler)@),
{
    reveal(with_output_words);
    proof {
        lemma_core_words(compiler@);
        reveal(stack_words_defined);
        reveal(memory_words_defined);
        reveal(execution_words_defined);
        reveal(arithmetic_words_defined);
        reveal(bit_logic_words_defined);
        reveal(comparison_words_defined);
        reveal(error_words_defined);
        reveal(wasi_words_defined);
        reveal(input_words_defined);
    }
    // using a variable as a 1-byte buffer holding the character to EMIT
    compiler.define_variable_word("EMIT-BUFFER", 0);
    compiler.define_variable_word("BYTES-WRITTEN", 0);

    // ( c -- )
    compiler.define_colon_word(
        "EMIT",
        vec![
            XT("EMIT-BUFFER"), XT("!"), // store the character in a buffer
            XT("EMIT-BUFFER"), XT("CIOVEC"), XT("!"), // set up the ciovec
            Lit(1), XT("CIOVEC"), Lit(4), XT("+"), XT("!"),
            Lit(1), XT("CIOVEC"), Lit(1), XT("BYTES-WRITTEN"), XT("FD-WRITE"), XT("THROW"),
        ],
    );

    // ( c-addr u -- )
    compiler.define_colon_word(
        "TYPE",
        vec![
            // store the buffer in our ciovec
            XT("SWAP"), XT("CIOVEC"), XT("!"),
            // start of loop
            XT("?DUP"), XT(">0"), QBranch(88), // while we have bytes to write..
            // try to write U bytes to the file
            XT("DUP"), XT("CIOVEC"), Lit(4), XT("+"), XT("!"),
            Lit(1), XT("CIOVEC"), Lit(1), XT("BYTES-WRITTEN"), XT("FD-WRITE"), XT("THROW"),
            XT("BYTES-WRITTEN"), XT("@"),
            // however many bytes we write, inc the buffer by that much
            XT("DUP"), XT("CIOVEC"), XT("+!"),
            // subtract BYTES-WRITTEN from what's left to write
            XT("-"),
            // and start again
            Branch(-104),
            // we're done!
        ],
    );

    compiler.define_constant_word("INIT-DIR-FD", 4);
    compiler.define_variable_word(">FD", 0);

    // ( c-addr u fam -- fileid err )
    compiler.define_colon_word(
        "OPEN-FILE",
        vec![
            XT("DROP"), // ignore fam for now, just implementing reads
            XT("INIT-DIR-FD"), Lit(0), XT("2SWAP"),
            Lit(0), Lit(0x1fffffff), Lit(0), Lit(0x1fffffff), Lit(0), // give ourselves full rights
            Lit(0), XT(">FD"),
            XT("PATH-OPEN"), // finally actually call this function
            XT(">FD"), XT("@"), XT("SWAP"),
        ],
    );
    proof {
        reveal(output_words_defined);
    }
}

/// The compiler after defining the input and output words.
pub open spec fn with_io_words(c: CompilerSpec) -> CompilerSpec {
    with_output_words(with_input_words(with_wasi_words(c)))
}

/// Defines the input and output words: the WASI calls, the input buffer and
/// the words reading from it, and the words writing output and opening files.
fn build_io(compiler: &mut Compiler)
    requires
        old(compiler).wf(),
        core_words_defined(old(compiler)@),
        error_words_defined(old(compiler)@),
    ensures
        final(compiler).wf(),
        grows(old(compiler)@, final(compiler)@),
        final(compiler)@.export_all == old(compiler)@.export_all,
        io_words_defined(final(compiler)@),
        final(compiler)@ == with_io_words(old(compiler)@),
{
    let ghost c0 = compiler@;
    build_wasi_words(compiler);
    let ghost c1 = compiler@;
    proof {
        lemma_core_words_kept(c0, c1);
        lemma_interpreter_words_kept(c0, c1);
    }
    build_input_words(compiler);
    let ghost c2 = compiler@;
    proof {
        lemma_core_words_kept(c1, c2);
        lemma_interpreter_words_kept(c1, c2);
    }
    build_output_words(compiler);
    proof {
        lemma_interpreter_words_kept(c1, compiler@);
        lemma_interpreter_words_kept(c2, compiler@);
        reveal(io_words_defined);
    }
}

/// The compiler after defining the parser: the terminal input buffer,
/// refilling it, parsing words, digits and numbers.
#[verifier::opaque]
pub open spec fn with_parser_words(c: CompilerSpec) -> CompilerSpec {
    let c = c.with_variable(">IN"@, 0i32);
    let c = c.with_constant("TIB"@, 0x10i32);
    let c = c.with_constant("TIB-MAX"@, 0xc0i32);
    let c = c.with_variable("#TIB"@, 0i32);
    let c = c.with_colon_word("REFILL", [
        Lit(0), XT(">IN"), XT("!"), XT("TIB"), XT("TIB-MAX"), XT("ACCEPT"), XT("DUP"), XT("#TIB"),
        XT("!"), XT("<>0"),
    ]@);
    let c = c.with_colon_word("SOURCE", [XT("TIB"), XT("#TIB"), XT("@")]@);
    let c = c.with_colon_word("PARSING?", [XT(">IN"), XT("@"), XT("SOURCE"), XT("NIP"), XT("<>")]@);
    let c = c.with_colon_word("'IN", [XT(">IN"), XT("@"), XT("SOURCE"), XT("DROP"), XT("+")]@);
    let c = c.with_colon_word("IN@", [XT("'IN"), XT("C@")]@);
    let c = c.with_colon_word("1+IN!", [Lit(1), XT(">IN"), XT("+!")]@);
    let c = c.with_colon_word("PARSE", [
        XT("'IN"), XT("SWAP"), XT("PARSING?"), XT("OVER"), XT("IN@"), XT("<>"), XT("AND"),
        QBranch(12), XT("1+IN!"), Branch(-40i32), XT("'IN"), XT("SWAP"), XT("PARSING?"), XT("OVER"),
        XT("IN@"), XT("="), XT("AND"), QBranch(12), XT("1+IN!"), Branch(-40i32), XT("DROP"),
        XT("OVER"), XT("-"),
    ]@);
    let c = c.with_colon_word("PARSE-NAME", [
        XT("PARSING?"), Lit(32), XT("IN@"), XT("="), XT("AND"), QBranch(12), XT("1+IN!"),
        Branch(-44i32), Lit(32), XT("PARSE"),
    ]@);
    let c = c.with_colon_word("UPCHAR", [
        XT("DUP"), Lit(97 /* a */), XT(">="), XT("OVER"), Lit(122 /* z */), XT("<="), XT("AND"),
        QBranch(12), Lit(32), XT("-"),
    ]@);
    let c = c.with_variable("BASE"@, 10i32);
    let c = c.with_colon_word("?DIGIT", [
        XT("UPCHAR"), XT("DUP"), Lit(48), XT(">="), XT("OVER"), Lit(57), XT("<="), XT("AND"),
        QBranch(20), Lit(48), XT("-"), Branch(76), XT("DUP"), Lit(65), XT(">="), XT("OVER"),
        Lit(90), XT("<="), XT("AND"), QBranch(12), Lit(55), XT("-"), Branch(12), XT("DROP"),
        XT("FALSE"), XT("EXIT"), XT("DUP"), XT("BASE"), XT("@"), XT(">="), QBranch(16), XT("DROP"),
        XT("FALSE"), Branch(4), XT("TRUE"),
    ]@);
    let c = c.with_colon_word("?NUMBER", [
        XT("DUP"), XT("=0"), QBranch(12), XT("2DROP"), XT("FALSE"), XT("EXIT"), XT("OVER"),
        XT("C@"), Lit(45), XT("="), XT("DUP"), XT(">R"), QBranch(16), XT("1-"), XT("SWAP"),
        XT("1+"), XT("SWAP"), XT("DUP"), XT("=0"), QBranch(12), XT("2DROP"), XT("FALSE"),
        XT("EXIT"), XT("OVER"), XT("+"), XT(">R"), Lit(0), XT("SWAP"), XT("DUP"), XT("C@"),
        XT("?DIGIT"), XT("=0"), QBranch(24), XT("R>"), XT("R>"), XT("2DROP"), XT("2DROP"),
        XT("FALSE"), XT("EXIT"), XT("ROT"), XT("BASE"), XT("@"), XT("*"), XT("+"), XT("SWAP"),
        XT("1+"), XT("DUP"), XT("R@"), XT("="), QBranch(-96i32), XT("DROP"), XT("R>"), XT("DROP"),
        XT("R>"), QBranch(16), Lit(0), XT("SWAP"), XT("-"), XT("TRUE"),
    ]@);
    c
}

/// Defines the parser: the terminal input buffer, refilling it from the
/// input, parsing delimited words out of it, and parsing digits and numbers
/// in the current `BASE`.
#[verifier::rlimit(50)]
fn build_parser(compiler: &mut Compiler)
    requires
        old(compiler).wf(),
        core_words_defined(old(compiler)@),
        io_words_defined(old(compiler)@),
    ensures
        final(compiler)@ == with_parser_words(old(compiler)@),
        final(compiler).wf(),
        grows(old(compiler)@, final(compiler)@),
        final(compiler)@.export_all == old(compiler)@.export_all,
        parser_words_defined(final(compiler)@),
{
    reveal(with_parser_words);
    proof {
        lemma_core_words(compiler@);
        reveal(stack_words_defined);
        reveal(memory_words_defined);
        reveal(execution_words_defined);
        reveal(arithmetic_words_defined);
        reveal(bit_logic_words_defined);
        reveal(comparison_words_defined);
        reveal(io_words_defined);
        reveal(input_words_defined);
    }
    compiler.define_variable_word(">IN", 0);

    compiler.define_constant_word("TIB", 0x10);
    compiler.define_constant_word("TIB-MAX", 0xc0);
    compiler.define_variable_word("#TIB", 0);

    // refill TIB from stdin, return whether stdin is empty
    // ( -- ? )
    compiler.define_colon_word(
        "REFILL",
        vec![
            Lit(0), XT(">IN"), XT("!"), // Reset >IN
            XT("TIB"), XT("TIB-MAX"), XT("ACCEPT"), // Read a line
            XT("DUP"), XT("#TIB"), XT("!"), // store the new length of TIB
            XT("<>0"), // return if it's nonzero
        ],
    );

    // current address and length of the input buffer ( -- c-addr u )
    compiler.define_colon_word("SOURCE", vec![XT("TIB"), XT("#TIB"), XT("@")]);

    // is there anything to parse ( -- ? )
    compiler.define_colon_word(
        "PARSING?",
        vec![XT(">IN"), XT("@"), XT("SOURCE"), XT("NIP"), XT("<>")],
    );

    // get the address of the head of the parse area ( -- addr )
    compiler.define_colon_word(
        "'IN",
        vec![XT(">IN"), XT("@"), XT("SOURCE"), XT("DROP"), XT("+")],
    );

    // get first character in the parse area ( -- c )
    compiler.define_colon_word("IN@", vec![XT("'IN"), XT("C@")]);

    // Increment the head of the parse area ( -- )
    compiler.define_colon_word("1+IN!", vec![Lit(1), XT(">IN"), XT("+!")]);

    // Parse from the input buffer until we see a delimiter ( c -- c-addr u )
    compiler.define_colon_word(
        "PARSE",
        vec![
            // store the current parse location on the stack, it's word start
            XT("'IN"), XT("SWAP"),
            // parse until we see char-to-ignore or we're done
            XT("PARSING?"),
            XT("OVER"), XT("IN@"), XT("<>"),
            XT("AND"), QBranch(12),
            XT("1+IN!"),
            Branch(-40),
            // store the current parse location on the stack, it's word end
            XT("'IN"), XT("SWAP"),
            // consume ending delimiters
            XT("PARSING?"),
            XT("OVER"), XT("IN@"), XT("="),
            XT("AND"), QBranch(12),
            XT("1+IN!"),
            Branch(-40),
            // Get char-to-ignore off the stack, turn word end into a length
            XT("DROP"), XT("OVER"), XT("-"),
        ],
    );

    // Parse a word from the input buffer ( -- c-addr u )
    compiler.define_colon_word(
        "PARSE-NAME",
        vec![
            // ignore leading spaces
            XT("PARSING?"),
            Lit(32), XT("IN@"), XT("="),
            XT("AND"), QBranch(12),
            XT("1+IN!"),
            Branch(-44),
            // we are at the head of our word! parse the rest normally
            Lit(32), XT("PARSE"),
        ],
    );

    // Capitalize a character ( c -- C )
    compiler.define_colon_word(
        "UPCHAR",
        vec![
            XT("DUP"), Lit(97 /* a */), XT(">="),
            XT("OVER"), Lit(122 /* z */), XT("<="), XT("AND"),
            QBranch(12),
            Lit(32), XT("-"),
        ],
    );

    compiler.define_variable_word("BASE", 10);

    // try to parse a digit ( c -- n -1 | 0 )
    compiler.define_colon_word(
        "?DIGIT",
        vec![
            XT("UPCHAR"), // parse hex as uppercase

            XT("DUP"), Lit(48), XT(">="),
            XT("OVER"), Lit(57), XT("<="), XT("AND"),
            QBranch(20), // if [0-9]
            Lit(48), XT("-"), // subtract '0'

            Branch(76), // else
            XT("DUP"), Lit(65), XT(">="),
            XT("OVER"), Lit(90), XT("<="), XT("AND"),
            QBranch(12), // if [A-Z]
            Lit(55), XT("-"), // subtract 'A', add 10

            Branch(12), // else
            XT("DROP"), XT("FALSE"), XT("EXIT"), // not a digit
            // end if

            XT("DUP"), XT("BASE"), XT("@"), XT(">="),
            QBranch(16), // if this isn't a valid digit in the current base
            XT("DROP"), XT("FALSE"),
            Branch(4), // else
            XT("TRUE"),
        ],
    );

    // Try parsing a string as a number ( c-addr u -- n -1 | 0 )
    compiler.define_colon_word(
        "?NUMBER",
        vec![
            XT("DUP"), XT("=0"),
            QBranch(12), // if the string is empty, it's not a number
            XT("2DROP"), XT("FALSE"), XT("EXIT"),

            XT("OVER"), XT("C@"), Lit(45), XT("="), // does it start with -?
            XT("DUP"), XT(">R"), // store whether it does on the return stack
            QBranch(16), // if it does, skip past the -
            XT("1-"), XT("SWAP"), XT("1+"), XT("SWAP"),

            XT("DUP"), XT("=0"),
            QBranch(12), // if we're out of characters NOW it's also not a number
            XT("2DROP"), XT("FALSE"), XT("EXIT"),

            XT("OVER"), XT("+"), XT(">R"), // store our final str-address in the return stack
            Lit(0), // store our running summation on the stack
            XT("SWAP"),

            // start loop ( n c-addr )
            XT("DUP"), XT("C@"), XT("?DIGIT"), XT("=0"),
            QBranch(24), // if the next char is NOT a digit
            XT("R>"), XT("R>"), XT("2DROP"), XT("2DROP"), // clean the stack
            XT("FALSE"), XT("EXIT"), // and get outta here
            // end if

            XT("ROT"), XT("BASE"), XT("@"), XT("*"), XT("+"), XT("SWAP"), // add digit to running total
            XT("1+"), // increment address
            XT("DUP"), XT("R@"), XT("="), // if we're out of input,
            QBranch(-96), // back to start of loop

            XT("DROP"), // we're done with the input string
            XT("R>"), XT("DROP"), // we're done with the target string

            // negate it if we have to, add TRUE, and we're good
            XT("R>"), QBranch(16),
            Lit(0), XT("SWAP"), XT("-"),
            XT("TRUE"),
        ],
    );
    proof {
        reveal(parser_words_defined);
    }
}

/// The compiler after defining the words that look names up in the dictionary.
#[verifier::opaque]
pub open spec fn with_name_words(c: CompilerSpec) -> CompilerSpec {
    let c = c.with_colon_word("STR-UPPER-EQ?", [
        XT("ROT"), XT("SWAP"), XT("OVER"), XT("<>"), QBranch(16), XT("2DROP"), XT("DROP"),
        XT("FALSE"), XT("EXIT"), XT("?DUP"), QBranch(96), XT(">R"), XT("OVER"), XT("C@"),
        XT("UPCHAR"), XT("OVER"), XT("C@"), XT("<>"), QBranch(28), XT("R>"), XT("2DROP"),
        XT("DROP"), XT("FALSE"), XT("EXIT"), Branch(24), XT("SWAP"), XT("1+"), XT("SWAP"), XT("1+"),
        XT("R>"), XT("1-"), Branch(-108i32), XT("2DROP"), XT("TRUE"),
    ]@);
    let c = c.with_colon_word("ALIGNED", [Lit(3), XT("+"), Lit(-4i32), XT("AND")]@);
    let c = c.with_colon_word("NAME>U", [XT("C@"), Lit(31), XT("AND")]@);
    let c = c.with_colon_word("NAME>STRING", [XT("DUP"), XT("1+"), XT("SWAP"), XT("NAME>U")]@);
    let c = c.with_colon_word("NAME>BACKWORD", [
        XT("DUP"), XT("NAME>U"), XT("1+"), XT("+"), XT("ALIGNED"), XT("@"),
    ]@);
    let c = c.with_colon_word("NAME>IMMEDIATE?", [XT("C@"), Lit(128), XT("AND"), XT("<>0")]@);
    let c = c.with_colon_word("NAME>TRAMPOLINED?", [XT("C@"), Lit(64), XT("AND"), XT("<>0")]@);
    let c = c.with_colon_word("+NAME>IMMEDIATE?", [Lit(128), XT("SWAP"), XT("CSET")]@);
    let c = c.with_colon_word("+NAME>TRAMPOLINED?", [Lit(64), XT("SWAP"), XT("CSET")]@);
    let c = c.with_colon_word("+NAME>HIDDEN?", [Lit(32768), XT("SWAP"), XT("CSET")]@);
    let c = c.with_colon_word("-NAME>HIDDEN?", [Lit(32768), XT("SWAP"), XT("CRESET")]@);
    let c = c.with_colon_word("NAME>XT", [
        XT("DUP"), XT("NAME>U"), XT("+"), Lit(5), XT("+"), XT("ALIGNED"),
    ]@);
    let c = c.with_colon_word("FIND-NAME", [
        XT("LATEST"), XT("@"), XT("DUP"), XT("=0"), QBranch(16), XT("2DROP"), XT("DROP"),
        XT("FALSE"), XT("EXIT"), XT(">R"), XT("2DUP"), XT("R@"), XT("NAME>STRING"),
        XT("STR-UPPER-EQ?"), QBranch(20), XT("2DROP"), XT("R>"), XT("EXIT"), Branch(8), XT("R>"),
        XT("NAME>BACKWORD"), Branch(-96i32),
    ]@);
    c
}

/// Defines the words working on dictionary entries: case-insensitive name
/// comparison, reading an entry's name, link, flags and execution token, and
/// looking a name up from the latest entry back.
#[verifier::rlimit(50)]
fn build_name_words(compiler: &mut Compiler)
    requires
        old(compiler).wf(),
        core_words_defined(old(compiler)@),
        parser_words_defined(old(compiler)@),
    ensures
        final(compiler)@ == with_name_words(old(compiler)@),
        final(compiler).wf(),
        grows(old(compiler)@, final(compiler)@),
        final(compiler)@.export_all == old(compiler)@.export_all,
        name_words_defined(final(compiler)@),
{
    reveal(with_name_words);
    proof {
        lemma_core_words(compiler@);
        reveal(stack_words_defined);
        reveal(memory_words_defined);
        reveal(execution_words_defined);
        reveal(arithmetic_words_defined);
        reveal(bit_logic_words_defined);
        reveal(comparison_words_defined);
        reveal(parser_words_defined);
    }
    // Case-insensitive string equality against a known-capital string
    // ( c-addr1 u1 C-ADDR U2 -- ? )
    compiler.define_colon_word(
        "STR-UPPER-EQ?",
        vec![
            XT("ROT"), XT("SWAP"), // ( c-addr1 c-addr2 u1 u2 )
            XT("OVER"), XT("<>"), QBranch(16), // If lengths mismatch, return now
            XT("2DROP"), XT("DROP"), XT("FALSE"), XT("EXIT"),
            // then

            // stack is now ( c-addr1 c-addr2 u )
            // start of loop
            XT("?DUP"), QBranch(96), // if length is 0, break outta the loop

            XT(">R"), // push length into return stack
            XT("OVER"), XT("C@"), XT("UPCHAR"), XT("OVER"), XT("C@"), XT("<>"), // are chars not-equal?
            QBranch(28), // if
            XT("R>"), XT("2DROP"), XT("DROP"), //fix the stacks
            XT("FALSE"), XT("EXIT"), // return false
            Branch(24), // else
            XT("SWAP"), XT("1+"), XT("SWAP"), XT("1+"), // increment pointers
            XT("R>"), XT("1-"), // get the count out of the return stack and decremented
            // then

            Branch(-108), // end of loop

            XT("2DROP"), XT("TRUE"), // if we made it this far we win!
        ],
    );

    // Given an address, return the next aligned address ( addr -- addr )
    compiler.define_colon_word("ALIGNED", vec![Lit(3), XT("+"), Lit(-4), XT("AND")]);

    // Given a name token, get its length ( nt -- u )
    compiler.define_colon_word("NAME>U", vec![XT("C@"), Lit(31), XT("AND")]);

    // Given a name token, get the name ( nt -- c-addr u )
    compiler.define_colon_word(
        "NAME>STRING",
        vec![
            XT("DUP"), XT("1+"), // start of the name is 1 byte after the head
            XT("SWAP"), XT("NAME>U"),
        ],
    );

    // given a name token, get the name token before it ( nt -- nt | 0 )
    compiler.define_colon_word(
        "NAME>BACKWORD",
        vec![
            XT("DUP"), XT("NAME>U"), // get word length
            XT("1+"), XT("+"), // backword is 1 + len bytes into the def
            XT("ALIGNED"),
            XT("@"),
        ],
    );

    // given a name token, does that token point to an immediate word? ( nt -- ? )
    compiler.define_colon_word(
        "NAME>IMMEDIATE?",
        vec![XT("C@"), Lit(128), XT("AND"), XT("<>0")],
    );
    // given a name token, is that token trampolined to a host word? ( nt -- ? )
    compiler.define_colon_word(
        "NAME>TRAMPOLINED?",
        vec![XT("C@"), Lit(64), XT("AND"), XT("<>0")],
    );
    compiler.define_colon_word("+NAME>IMMEDIATE?", vec![Lit(128), XT("SWAP"), XT("CSET")]);
    compiler.define_colon_word("+NAME>TRAMPOLINED?", vec![Lit(64), XT("SWAP"), XT("CSET")]);
    // The "hidden bit" is the high bit of the first character of the identifier.
    // This is always safe to use (even words with a 0-length name will have padding here),
    // and automatically causes string equality checks for ASCII input to fail.
    compiler.define_colon_word("+NAME>HIDDEN?", vec![Lit(32768), XT("SWAP"), XT("CSET")]);
    compiler.define_colon_word("-NAME>HIDDEN?", vec![Lit(32768), XT("SWAP"), XT("CRESET")]);

    // given a name token, get the execution token ( nt -- xt )
    // xt is 1 + len + 4 bytes in to the definition, plus alignment
    compiler.define_colon_word(
        "NAME>XT",
        vec![
            XT("DUP"),
            XT("NAME>U"),
            XT("+"),
            Lit(5),
            XT("+"),
            XT("ALIGNED"),
        ],
    );

    // Find the address of some word ( c-addr u -- nt | 0 )
    compiler.define_colon_word(
        "FIND-NAME",
        vec![
            XT("LATEST"), XT("@"), // start at the end of the dictionary

            // start of loop
            XT("DUP"), XT("=0"), // if we've found null
            QBranch(16), // give up
            XT("2DROP"), XT("DROP"), // flush the stack
            XT("FALSE"), XT("EXIT"), // and exit with haste and falseness

            XT(">R"), XT("2DUP"), // set up copies of c-addr and u
            XT("R@"), XT("NAME>STRING"), // and extract the name from the nt
            XT("STR-UPPER-EQ?"), // Are they equal?

            QBranch(20), // this IS it chief!
            XT("2DROP"), // get rid of c-addr and u
            XT("R>"), XT("EXIT"), // return the address of the word
            Branch(8), // this ain't it chief
            XT("R>"), XT("NAME>BACKWORD"), // go to the previous def
            Branch(-96), // end of loop
        ],
    );
    proof {
        reveal(name_words_defined);
    }
}

/// The compiler after defining the outer interpreter words.
#[verifier::opaque]
pub open spec fn with_outer_words(c: CompilerSpec) -> CompilerSpec {
    let c = c.with_variable("STATE"@, 0i32);
    let c = c.with_colon_word("COMPILING?", [XT("STATE"), XT("@")]@);
    let c = c.with_colon_word(",", [XT("CP"), XT("@"), XT("!"), Lit(4), XT("CP"), XT("+!")]@);
    let c = c.with_colon_word("C,", [XT("CP"), XT("@"), XT("C!"), Lit(1), XT("CP"), XT("+!")]@);
    let c = c.with_colon_word("COMPILE-LITERAL", [XT("LIT"), XT("LIT"), XT(","), XT(",")]@);
    let c = c.with_colon_word("INTERPRET-NAME", [XT("NAME>XT"), XT("EXECUTE")]@);
    let c = c.with_colon_word("COMPILE-NAME", [
        XT("DUP"), XT("NAME>XT"), XT("SWAP"), XT("NAME>IMMEDIATE?"), QBranch(12), XT("EXECUTE"),
        Branch(4), XT(","),
    ]@);
    let c = c.with_colon_word("INTERPRET", [
        XT("PARSE-NAME"), XT("DUP"), XT("=0"), QBranch(8), XT("2DROP"), XT("EXIT"), XT("2DUP"),
        XT("FIND-NAME"), XT("?DUP"), QBranch(44), XT("NIP"), XT("NIP"), XT("COMPILING?"),
        QBranch(12), XT("COMPILE-NAME"), Branch(4), XT("INTERPRET-NAME"), Branch(48), XT("?NUMBER"),
        QBranch(24), XT("COMPILING?"), QBranch(4), XT("COMPILE-LITERAL"), Branch(12), Lit(-1i32),
        XT("THROW"), Branch(-148i32),
    ]@);
    let c = c.with_colon_word("INCLUDED", [
        XT("SOURCE-ID"), XT("THROW"), Lit(0), XT("OPEN-FILE"), XT("THROW"), XT(">SOURCE-ID"),
        XT("!"), XT("REFILL"), QBranch(12), XT("INTERPRET"), Branch(-24i32), XT("SOURCE-ID"),
        XT("FD-CLOSE"), XT("THROW"), Lit(0), XT(">SOURCE-ID"), XT("!"),
    ]@);
    c
}

/// Defines the outer interpreter: compiling into the dictionary, running or
/// compiling each parsed word, and including a file.
#[verifier::rlimit(50)]
fn build_outer_words(compiler: &mut Compiler)
    requires
        old(compiler).wf(),
        core_words_defined(old(compiler)@),
        error_words_defined(old(compiler)@),
        io_words_defined(old(compiler)@),
        parser_words_defined(old(compiler)@),
        name_words_defined(old(compiler)@),
    ensures
        final(compiler)@ == with_outer_words(old(compiler)@),
        final(compiler).wf(),
        grows(old(compiler)@, final(compiler)@),
        final(compiler)@.export_all == old(compiler)@.export_all,
        outer_words_defined(final(compiler)@),
{
    reveal(with_outer_words);
    proof {
        lemma_core_words(compiler@);
        reveal(stack_words_defined);
        reveal(memory_words_defined);
        reveal(execution_words_defined);
        reveal(comparison_words_defined);
        reveal(error_words_defined);
        reveal(io_words_defined);
        reveal(input_words_defined);
        reveal(output_words_defined);
        reveal(wasi_words_defined);
        reveal(parser_words_defined);
        reveal(name_words_defined);
    }
    compiler.define_variable_word("STATE", 0);
    compiler.define_colon_word("COMPILING?", vec![XT("STATE"), XT("@")]);

    // append a cell to the end of the dictionary( n -- )
    compiler.define_colon_word(
        ",",
        vec![
            XT("CP"), XT("@"), XT("!"), // save value at end of dictionary
            Lit(4), XT("CP"), XT("+!"), // shift end of dictionary over
        ],
    );

    // append a byte to the end of the dictionary ( n -- )
    compiler.define_colon_word(
        "C,",
        vec![
            XT("CP"), XT("@"), XT("C!"), // save value at end of dictionary
            Lit(1), XT("CP"), XT("+!"), // shift end of dictionary over
        ],
    );

    // append a compiled literal to the end of the dictionary ( n -- )
    compiler.define_colon_word(
        "COMPILE-LITERAL",
        vec![XT("LIT"), XT("LIT"), XT(","), XT(",")],
    );

    // Perform interpretation semantics for a word ( nt -- )
    compiler.define_colon_word("INTERPRET-NAME", vec![XT("NAME>XT"), XT("EXECUTE")]);

    // Perform compilation semantics for a word ( nt -- )
    compiler.define_colon_word(
        "COMPILE-NAME",
        vec![
            XT("DUP"), XT("NAME>XT"), // get the word's XT
            XT("SWAP"), XT("NAME>IMMEDIATE?"), // is the word immediate?
            QBranch(12),   // if so,
            XT("EXECUTE"), // run it right away
            Branch(4),     // else,
            XT(","),       // bake it in
        ],
    );

    // execute words in a loop until the input buffer empties ( -- )
    compiler.define_colon_word(
        "INTERPRET",
        vec![
            // start of loop
            XT("PARSE-NAME"), // parse a space-delimited word from input

            XT("DUP"), XT("=0"),
            QBranch(8), // if the word is 0-length, we're done!
            XT("2DROP"), XT("EXIT"),

            XT("2DUP"), XT("FIND-NAME"), // look it up in the dictionary
            XT("?DUP"),

            QBranch(44), // if we found the word in the dictionary,
            XT("NIP"), XT("NIP"), // clean the name out of the stack, we're done with it
            XT("COMPILING?"),
            QBranch(12),
            XT("COMPILE-NAME"),
            Branch(4),
            XT("INTERPRET-NAME"),

            Branch(48), // if we did not find the word,
            XT("?NUMBER"), // maybe it's a number?
            QBranch(24),  // if so, either bake the value in or leave it on the stack
            XT("COMPILING?"),
            QBranch(4),
            XT("COMPILE-LITERAL"),
            Branch(12), // if not, error and exit
            Lit(-1), XT("THROW"),

            Branch(-148), // end of loop
        ],
    );

    // include a file by path ( c-addr u -- )
    compiler.define_colon_word(
        "INCLUDED",
        vec![
            XT("SOURCE-ID"), XT("THROW"),         // for now, can't load 2 files at once
            Lit(0), XT("OPEN-FILE"), XT("THROW"), // actually open the file
            XT(">SOURCE-ID"), XT("!"),            // switch to the FD

            // start of execution loop
            XT("REFILL"),
            QBranch(12),     // quit if we are done
            XT("INTERPRET"), // run code
            Branch(-24),     // Good! Now do it again

            XT("SOURCE-ID"), XT("FD-CLOSE"), XT("THROW"), // close the file
            Lit(0), XT(">SOURCE-ID"), XT("!"),            // reset source
        ],
    );
    proof {
        reveal(outer_words_defined);
    }
}

/// The compiler after defining every word of the minimal interpreter but
/// `_start`: error handling, input and output, the parser, name lookup and
/// the outer interpreter.
pub open spec fn with_interpreter_words(c: CompilerSpec) -> CompilerSpec {
    with_outer_words(with_name_words(with_parser_words(with_io_words(with_error_words(c)))))
}

/// The WASI functions the interpreter imports, in order.
pub open spec fn wasi_functions() -> Seq<Seq<char>> {
    seq![
        "proc_exit"@, "args_get"@, "args_sizes_get"@, "fd_read"@, "fd_write"@, "path_open"@, "fd_close"@,
        "fd_prestat_get"@, "fd_prestat_dir_name"@, "fd_fdstat_get"@,
    ]
}

/// The words of `with_wasi_words` import the WASI functions after
/// `proc_exit`, in order.
proof fn lemma_wasi_words_imports(c: CompilerSpec)
    ensures
        ({
            let imports = with_wasi_words(c).assembler.imports;
            let n = c.assembler.imports.len() as int;
            &&& imports.len() == n + 9
            &&& forall|i: int| 0 <= i < n ==> #[trigger] imports[i] == c.assembler.imports[i]
            &&& forall|i: int| 0 <= i < 9 ==> (#[trigger] imports[n + i]).module == WASI_MODULE@
                && imports[n + i].field == wasi_functions()[i + 1]
        }),
{
    broadcast use
        crate::bootstrapper::compiler::lemma_entry_keeps_imports,
        crate::bootstrapper::compiler::lemma_native_word_keeps_imports,
        crate::bootstrapper::compiler::lemma_imported_word_imports;
    reveal(with_wasi_words);
}

/// The error words import `proc_exit` from WASI.
proof fn lemma_error_words_imports(c: CompilerSpec)
    ensures
        ({
            let imports = with_error_words(c).assembler.imports;
            let n = c.assembler.imports.len() as int;
            &&& imports.len() == n + 1
            &&& forall|i: int| 0 <= i < n ==> #[trigger] imports[i] == c.assembler.imports[i]
            &&& imports[n].module == WASI_MODULE@ && imports[n].field == "proc_exit"@
        }),
{
    broadcast use
        crate::bootstrapper::compiler::lemma_entry_keeps_imports,
        crate::bootstrapper::compiler::lemma_native_word_keeps_imports,
        crate::bootstrapper::compiler::lemma_imported_word_imports;
    reveal(with_error_words);
}

/// The input, output, parser, name and outer interpreter words import no
/// function.
proof fn lemma_other_words_keep_imports(c: CompilerSpec)
    ensures
        with_input_words(c).assembler.imports == c.assembler.imports,
        with_output_words(c).assembler.imports == c.assembler.imports,
        with_parser_words(c).assembler.imports == c.assembler.imports,
        with_name_words(c).assembler.imports == c.assembler.imports,
        with_outer_words(c).assembler.imports == c.assembler.imports,
{
    broadcast use
        crate::bootstrapper::compiler::lemma_entry_keeps_imports,
        crate::bootstrapper::compiler::lemma_native_word_keeps_imports;
    assert(with_input_words(c).assembler.imports == c.assembler.imports) by {
        reveal(with_input_words);
    }
    assert(with_output_words(c).assembler.imports == c.assembler.imports) by {
        reveal(with_output_words);
    }
    assert(with_parser_words(c).assembler.imports == c.assembler.imports) by {
        reveal(with_parser_words);
    }
    assert(with_name_words(c).assembler.imports == c.assembler.imports) by {
        reveal(with_name_words);
    }
    assert(with_outer_words(c).assembler.imports == c.assembler.imports) by {
        reveal(with_outer_words);
    }
}

/// The interpreter's words add imports of exactly the WASI functions
/// `wasi_functions`, in order, each from `wasi_snapshot_preview1`.
pub proof fn lemma_interpreter_imports(c: CompilerSpec)
    ensures
        ({
            let imports = with_interpreter_words(c).assembler.imports;
            let n = c.assembler.imports.len() as int;
            &&& imports.len() == n + wasi_functions().len()
            &&& forall|i: int| 0 <= i < n ==> #[trigger] imports[i] == c.assembler.imports[i]
            &&& forall|i: int|
                0 <= i < wasi_functions().len() ==> (#[trigger] imports[n + i]).module == WASI_MODULE@
                    && imports[n + i].field == wasi_functions()[i]
        }),
{
    let n = c.assembler.imports.len() as int;
    let c1 = with_error_words(c);
    lemma_error_words_imports(c);
    let c2 = with_wasi_words(c1);
    lemma_wasi_words_imports(c1);
    lemma_other_words_keep_imports(c2);
    let c3 = with_io_words(c1);
    lemma_other_words_keep_imports(with_input_words(c2));
    let c4 = with_parser_words(c3);
    lemma_other_words_keep_imports(c3);
    let c5 = with_name_words(c4);
    lemma_other_words_keep_imports(c4);
    lemma_other_words_keep_imports(c5);
    let c6 = with_outer_words(c5);
    assert(c6.assembler.imports == c2.assembler.imports);
    assert forall|i: int| 0 <= i < n implies #[trigger] c6.assembler.imports[i] == c.assembler.imports[i] by {
        assert(c2.assembler.imports[i] == c1.assembler.imports[i]);
    }
    assert forall|i: int| 0 <= i < wasi_functions().len() implies (#[trigger] c6.assembler.imports[n + i]).module
        == WASI_MODULE@ && c6.assembler.imports[n + i].field == wasi_functions()[i] by {
        if i == 0 {
            assert(c2.assembler.imports[n] == c1.assembler.imports[n]);
        } else {
            assert(c2.assembler.imports[(n + 1) + (i - 1)].field == wasi_functions()[(i - 1) + 1]);
            assert((n + 1) + (i - 1) == n + i);
        }
    }
}

/// `program` includes each of `files`, in order, from the prelude
/// directory: the path of the file as a string literal, then `INCLUDED`.
pub open spec fn includes_prelude(program: Seq<ColonValue>, files: Seq<String>) -> bool {
    &&& program.len() == 2 * files.len()
    &&& forall|i: int|
        0 <= i < files.len() ==> {
            &&& is_string_literal(program[2 * i], PRELUDE_DIR@ + (#[trigger] files[i])@)
            &&& program[2 * i + 1] == ColonValue::XT("INCLUDED")
        }
}

/// `v` is a string literal holding `text`.
pub open spec fn is_string_literal(v: ColonValue, text: Seq<char>) -> bool {
    match v {
        ColonValue::StringLit(s) => s@ == text,
        _ => false,
    }
}

/// The state after defining `_start` as the colon word running `program`.
pub open spec fn with_start(c: CompilerSpec, program: Seq<ColonValue>) -> CompilerSpec {
    c.with_colon_word("_start", program)
}

/// Defines `_start`, the entry point of the WASI module, as the colon word
/// that includes every file of `prelude_files` (names within the prelude
/// directory), in order.
pub fn define_start(compiler: &mut Compiler, prelude_files: &Vec<String>)
    requires
        old(compiler).wf(),
        core_words_defined(old(compiler)@),
        old(compiler)@.defines("INCLUDED"),
        prelude_files@.len() <= usize::MAX / 2,
    ensures
        final(compiler).wf(),
        grows(old(compiler)@, final(compiler)@),
        final(compiler)@.export_all == old(compiler)@.export_all,
        final(compiler)@.defines("_start"),
        exists|program: Seq<ColonValue>|
            includes_prelude(program, prelude_files@) && final(compiler)@ == with_start(
                old(compiler)@,
                program,
            ),
{
    let mut program: Vec<ColonValue> = Vec::new();
    let mut i: usize = 0;
    while i < prelude_files.len()
        invariant
            i <= prelude_files@.len(),
            prelude_files@.len() <= usize::MAX / 2,
            includes_prelude(program@, prelude_files@.take(i as int)),
            forall|j: int|
                0 <= j < program@.len() ==> (#[trigger] program@[j] is StringLit || program@[j]
                    == ColonValue::XT("INCLUDED")),
        decreases prelude_files@.len() - i,
    {
        let mut path = PRELUDE_DIR.to_owned();
        path.append(prelude_files[i].as_str());
        let ghost before = program@;
        program.push(StringLit(path));
        program.push(XT("INCLUDED"));
        proof {
            let files = prelude_files@.take(i + 1);
            assert forall|k: int| 0 <= k < files.len() implies {
                &&& is_string_literal(program@[2 * k], PRELUDE_DIR@ + (#[trigger] files[k])@)
                &&& program@[2 * k + 1] == ColonValue::XT("INCLUDED")
            } by {
                if k < i {
                    assert(files[k] == prelude_files@.take(i as int)[k]);
                    assert(program@[2 * k] == before[2 * k]);
                    assert(program@[2 * k + 1] == before[2 * k + 1]);
                } else {
                    assert(files[k] == prelude_files@[i as int]);
                }
            }
            assert(program@.len() == 2 * files.len());
            assert(includes_prelude(program@, files));
        }
        i = i + 1;
    }
    assert(prelude_files@.take(i as int) =~= prelude_files@);
    proof {
        reveal(core_words_defined);
        reveal(execution_words_defined);
    }
    compiler.define_colon_word("_start", program);
}

/// Defines the outer interpreter and `_start`, which includes every file of
/// `prelude_files` from the prelude directory.
fn build_interpreter(compiler: &mut Compiler, prelude_files: &Vec<String>)
    requires
        old(compiler).wf(),
        core_words_defined(old(compiler)@),
        error_words_defined(old(compiler)@),
        io_words_defined(old(compiler)@),
        parser_words_defined(old(compiler)@),
        prelude_files@.len() <= usize::MAX / 2,
    ensures
        final(compiler).wf(),
        grows(old(compiler)@, final(compiler)@),
        final(compiler)@.export_all == old(compiler)@.export_all,
        final(compiler)@.defines("_start"),
        exists|mid: CompilerSpec, program: Seq<ColonValue>|
            {
                &&& grows(old(compiler)@, mid)
                &&& interpreter_words_defined(mid)
                &&& includes_prelude(program, prelude_files@)
                &&& final(compiler)@ == with_start(mid, program)
                &&& mid == with_outer_words(with_name_words(old(compiler)@))
            },
{
    let ghost c0 = compiler@;
    build_name_words(compiler);
    let ghost c1 = compiler@;
    proof {
        lemma_core_words_kept(c0, c1);
        lemma_interpreter_words_kept(c0, c1);
    }
    build_outer_words(compiler);
    let ghost mid = compiler@;
    proof {
        lemma_core_words_kept(c0, mid);
        lemma_interpreter_words_kept(c0, mid);
        lemma_interpreter_words_kept(c1, mid);
        reveal(outer_words_defined);
        reveal(interpreter_words_defined);
    }
    define_start(compiler, prelude_files);
    proof {
        let program = choose|program: Seq<ColonValue>|
            includes_prelude(program, prelude_files@) && compiler@ == with_start(mid, program);
        assert(includes_prelude(program, prelude_files@) && compiler@ == with_start(mid, program));
        assert(mid == with_outer_words(with_name_words(c0)));
    }
}

/// Defines the minimal interpreter on top of the core words: error handling,
/// input and output, the parser, the outer interpreter, and `_start`, which
/// includes every file of `prelude_files` (names within the prelude
/// directory) in order.
pub fn build(compiler: &mut Compiler, prelude_files: &Vec<String>)
    requires
        old(compiler).wf(),
        core_words_defined(old(compiler)@),
        prelude_files@.len() <= usize::MAX / 2,
    ensures
        final(compiler).wf(),
        grows(old(compiler)@, final(compiler)@),
        final(compiler)@.export_all == old(compiler)@.export_all,
        ready_to_finish(final(compiler)@),
        exists|program: Seq<ColonValue>|
            {
                &&& grows(old(compiler)@, with_interpreter_words(old(compiler)@))
                &&& interpreter_words_defined(with_interpreter_words(old(compiler)@))
                &&& includes_prelude(program, prelude_files@)
                &&& final(compiler)@ == with_start(with_interpreter_words(old(compiler)@), program)
            },
{
    let ghost c0 = compiler@;
    build_error_handling(compiler);
    let ghost c1 = compiler@;
    proof {
        lemma_core_words_kept(c0, c1);
    }
    build_io(compiler);
    let ghost c2 = compiler@;
    proof {
        lemma_core_words_kept(c0, c2);
        lemma_interpreter_words_kept(c1, c2);
    }
    build_parser(compiler);
    let ghost c3 = compiler@;
    proof {
        lemma_core_words_kept(c0, c3);
        lemma_interpreter_words_kept(c1, c3);
        lemma_interpreter_words_kept(c2, c3);
    }
    build_interpreter(compiler, prelude_files);
    proof {
        let (mid, program) = choose|mid: CompilerSpec, program: Seq<ColonValue>|
            {
                &&& grows(c3, mid)
                &&& interpreter_words_defined(mid)
                &&& includes_prelude(program, prelude_files@)
                &&& compiler@ == with_start(mid, program)
                &&& mid == with_outer_words(with_name_words(c3))
            };
        assert(mid == with_interpreter_words(c0));
        lemma_grows_trans(c0, c3, mid);
        lemma_core_words_kept(c0, compiler@);
        lemma_core_words(compiler@);
        reveal(execution_words_defined);
    }
}

} // verus!
