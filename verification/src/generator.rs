//! The first Forth code generator: a dictionary of unaligned entries in
//! linear memory, whose parameter and return stacks grow upward, native words
//! written in WebAssembly and colon words threaded through execution tokens.
//! The finished module exports every word through a function that runs it,
//! and the stack's push and pop functions, so a host can drive it.
//!
//! Dictionary entry layout, starting at address `a`: a length byte, the
//! name's bytes, the address of the previous entry, the code cell (a table
//! index) and then the entry's parameter bytes. The execution token of the
//! entry is the address of its code cell.
use vstd::prelude::*;
use vstd::string::StringSliceAdditionalSpecFns;
use crate::assembler::{Assembler, AssemblerSpec, AssembleError};
use crate::compiler::{entry_bytes, entry_token, header_size};
use crate::layout::{add32, le32, push_bytes, push_cell};
use crate::tokens::TokenTable;
use crate::wasm::{BlockType, DataSpec, FuncTypeSpec, Instr, ValType};
use crate::lowering::wasm_binary;

verus! {

/// One item of a colon definition.
pub enum ColonValue {
    /// Run the named word.
    XT(&'static str),
    /// Push a number.
    Lit(i32),
    /// Jump by the given number of bytes, counted from the end of this item.
    Branch(i32),
    /// Pop a flag and jump like `Branch` when it is zero.
    QBranch(i32),
}

/// Where the dictionary starts.
pub const DICTIONARY_BASE: i32 = 0x1000;

/// The initial (empty) top of the parameter stack, which grows up.
pub const PARAM_STACK_BASE: i32 = 0x00;

/// The initial (empty) top of the return stack, which grows up.
pub const RETURN_STACK_BASE: i32 = 0x80;

/// The bytes and the following dictionary address of one colon-definition
/// item placed at `cp`, where `c` supplies the execution tokens.
pub open spec fn colon_item(v: ColonValue, cp: i32, c: GeneratorSpec) -> (Seq<u8>, i32) {
    match v {
        ColonValue::XT(name) => (le32(c.token(name)), add32(cp, 4)),
        ColonValue::Lit(value) => (le32(c.token("LIT")) + le32(value), add32(cp, 8)),
        ColonValue::Branch(offset) => {
            let next = add32(cp, 8);
            (le32(c.token("BRANCH")) + le32(add32(next, offset)), next)
        },
        ColonValue::QBranch(offset) => {
            let next = add32(cp, 8);
            (le32(c.token("?BRANCH")) + le32(add32(next, offset)), next)
        },
    }
}

/// The compiled items of a colon definition whose first item is placed at `cp`.
pub open spec fn colon_code(values: Seq<ColonValue>, cp: i32, c: GeneratorSpec) -> Seq<u8>
    decreases values.len(),
{
    if values.len() == 0 {
        seq![]
    } else {
        let (bytes, next) = colon_item(values[0], cp, c);
        bytes + colon_code(values.drop_first(), next, c)
    }
}

/// Every word a colon definition refers to by name is defined, as are the
/// words its compiled form uses.
pub open spec fn colon_words_defined(values: Seq<ColonValue>, c: GeneratorSpec) -> bool {
    &&& c.defines("LIT")
    &&& c.defines("BRANCH")
    &&& c.defines("?BRANCH")
    &&& c.defines("EXIT")
    &&& forall|i: int|
        0 <= i < values.len() ==> match #[trigger] values[i] {
            ColonValue::XT(name) => c.defines(name),
            _ => true,
        }
}

/// `n` cell types.
pub open spec fn cells(n: nat) -> Seq<ValType> {
    Seq::new(n, |i: int| ValType::I32)
}

/// The stack words are defined.
#[verifier::opaque]
pub open spec fn stack_words_defined(c: GeneratorSpec) -> bool {
    &&& c.defines("DUP")
    &&& c.defines("DROP")
    &&& c.defines("SWAP")
    &&& c.defines("OVER")
    &&& c.defines("NIP")
    &&& c.defines("TUCK")
    &&& c.defines("ROT")
    &&& c.defines("-ROT")
    &&& c.defines(">R")
    &&& c.defines("R>")
    &&& c.defines("R@")
}

/// The constant and variable machinery and the memory words are defined.
#[verifier::opaque]
pub open spec fn memory_words_defined(c: GeneratorSpec) -> bool {
    &&& c.defines("(DOCON)")
    &&& c.defines("(DOVAR)")
    &&& c.defines("!")
    &&& c.defines("@")
    &&& c.defines("+!")
    &&& c.defines("C!")
    &&& c.defines("C@")
}

/// The execution words are defined.
#[verifier::opaque]
pub open spec fn execution_words_defined(c: GeneratorSpec) -> bool {
    &&& c.defines("EXECUTE")
    &&& c.defines("STOP")
    &&& c.defines("(DOCOL)")
    &&& c.defines("EXIT")
    &&& c.defines("LIT")
    &&& c.defines("BRANCH")
    &&& c.defines("?BRANCH")
}

/// The arithmetic, logic and comparison words are defined.
#[verifier::opaque]
pub open spec fn math_words_defined(c: GeneratorSpec) -> bool {
    &&& c.defines("+")
    &&& c.defines("-")
    &&& c.defines("*")
    &&& c.defines("/")
    &&& c.defines("MOD")
    &&& c.defines("MIN")
    &&& c.defines("MAX")
    &&& c.defines("1+")
    &&& c.defines("1-")
    &&& c.defines("AND")
    &&& c.defines("OR")
    &&& c.defines("FALSE")
    &&& c.defines("TRUE")
    &&& c.defines("INVERT")
    &&& c.defines("=")
    &&& c.defines("<>")
    &&& c.defines("<")
    &&& c.defines(">")
    &&& c.defines("<=")
    &&& c.defines(">=")
    &&& c.defines("=0")
    &&& c.defines("<>0")
    &&& c.defines("<0")
    &&& c.defines(">0")
}

/// The words the generator defines when it is created.
#[verifier::opaque]
pub open spec fn core_words_defined(c: GeneratorSpec) -> bool {
    &&& stack_words_defined(c)
    &&& memory_words_defined(c)
    &&& execution_words_defined(c)
    &&& math_words_defined(c)
    &&& c.defines("CP")
    &&& c.defines("LAST-WORD")
}

/// Every name `a` defines is still defined in `b`.
pub open spec fn grows(a: GeneratorSpec, b: GeneratorSpec) -> bool {
    forall|k: Seq<u8>| #[trigger] a.tokens.contains_key(k) ==> b.tokens.contains_key(k)
}

/// What `a` defines of the core words, `b` still defines when it grows from `a`.
pub proof fn lemma_core_words_kept(a: GeneratorSpec, b: GeneratorSpec)
    requires
        grows(a, b),
    ensures
        stack_words_defined(a) ==> stack_words_defined(b),
        memory_words_defined(a) ==> memory_words_defined(b),
        execution_words_defined(a) ==> execution_words_defined(b),
        math_words_defined(a) ==> math_words_defined(b),
        core_words_defined(a) ==> core_words_defined(b),
{
    reveal(stack_words_defined);
    reveal(memory_words_defined);
    reveal(execution_words_defined);
    reveal(math_words_defined);
    reveal(core_words_defined);
}

/// The code of a function that runs the word with execution token `xt`: it
/// pushes `xt`, points the instruction pointer into `RUN-WORD` (whose token is
/// `run_xt`) and starts the main loop.
pub open spec fn runner_code(push: u32, ip: u32, start: u32, xt: i32, run_xt: i32) -> Seq<Instr> {
    seq![
        Instr::I32Const(xt),
        Instr::Call(push),
        Instr::I32Const(add32(run_xt, 4)),
        Instr::SetGlobal(ip),
        Instr::Call(start),
        Instr::End,
    ]
}

/// The module after adding, for each `(name, xt)` of `words` in order, a
/// function running that word, exported as `name`.
pub open spec fn with_runners(
    a: AssemblerSpec,
    words: Seq<(Seq<char>, i32)>,
    push: u32,
    ip: u32,
    start: u32,
    run_xt: i32,
) -> AssemblerSpec
    decreases words.len(),
{
    if words.len() == 0 {
        a
    } else {
        let prev = with_runners(a, words.drop_last(), push, ip, start, run_xt);
        let word = words.last();
        prev.with_native(seq![], seq![], seq![], runner_code(push, ip, start, word.1, run_xt)).with_export(
            word.0,
            prev.next_func_id(),
        )
    }
}

/// Every word with its token, in the order first defined.
pub open spec fn all_words(c: GeneratorSpec) -> Seq<(Seq<char>, i32)> {
    Seq::new(c.labels.len(), |i: int| (c.labels[i], c.tokens[c.names[i]]))
}

/// What a generator needs before it can finish its module.
pub open spec fn ready_to_finish(c: GeneratorSpec) -> bool {
    &&& colon_words_defined(seq![ColonValue::XT("EXECUTE"), ColonValue::XT("STOP")], c)
    &&& c.defines("CP")
    &&& c.defines("LAST-WORD")
}

/// The generator after finishing its module: `RUN-WORD` (run a word, then
/// stop) is defined; the cells of `CP` and `LAST-WORD` are set to the end of
/// the dictionary and the address of its last entry; and every word gets a
/// function running it, exported under the word's name.
pub open spec fn finished(c: GeneratorSpec) -> GeneratorSpec {
    let c1 = c.with_entry(
        "RUN-WORD"@,
        c.docol,
        colon_code(
            seq![ColonValue::XT("EXECUTE"), ColonValue::XT("STOP")],
            add32(c.cp, header_size(word_key("RUN-WORD"))),
            c,
        ) + le32(c.token("EXIT")),
    );
    let a1 = c1.assembler.with_data(add32(c1.token("CP"), 4), le32(c1.cp)).with_data(
        add32(c1.token("LAST-WORD"), 4),
        le32(c1.last_word_address),
    );
    GeneratorSpec {
        assembler: with_runners(a1, all_words(c1), c.push, c.ip, c.start, c1.token("RUN-WORD")),
        ..c1
    }
}

/// The key under which the token of `name` is recorded: the bytes of the name.
#[verifier::opaque]
pub open spec fn word_key(name: &str) -> Seq<u8> {
    name.spec_bytes()
}

/// The mathematical value of a [`Generator`].
pub struct GeneratorSpec {
    pub assembler: AssemblerSpec,
    pub push: u32,
    pub pop: u32,
    pub push_r: u32,
    pub pop_r: u32,
    pub docon: u32,
    pub dovar: u32,
    pub docol: u32,
    pub start: u32,
    pub ip: u32,
    pub cp: i32,
    pub last_word_address: i32,
    pub tokens: Map<Seq<u8>, i32>,
    pub names: Seq<Seq<u8>>,
    pub labels: Seq<Seq<char>>,
}

impl GeneratorSpec {
    /// The state after adding a dictionary entry for `label` with the given
    /// code cell and parameter at the end of the dictionary.
    #[verifier::opaque]
    pub open spec fn with_entry(self, label: Seq<char>, code: u32, parameter: Seq<u8>) -> GeneratorSpec {
        let name = vstd::utf8::encode_utf8(label);
        let bytes = entry_bytes(name, self.last_word_address, code, parameter);
        GeneratorSpec {
            assembler: AssemblerSpec {
                data: self.assembler.data.push(DataSpec { offset: self.cp, bytes }),
                ..self.assembler
            },
            cp: add32(self.cp, bytes.len() as i32),
            last_word_address: self.cp,
            tokens: self.tokens.insert(name, entry_token(self.cp, name)),
            names: if self.names.contains(name) {
                self.names
            } else {
                self.names.push(name)
            },
            labels: if self.names.contains(name) {
                self.labels
            } else {
                self.labels.push(label)
            },
            ..self
        }
    }

    /// The state after adding a native word `name` whose code is a new
    /// function taking the address of its parameter, with `locals` cell locals
    /// and `instructions` followed by `end`, reached through a new slot of the
    /// function table.
    #[verifier::opaque]
    pub open spec fn with_native_word(self, name: Seq<char>, locals: nat, instructions: Seq<Instr>) -> GeneratorSpec {
        let code = self.assembler.table.len() as u32;
        GeneratorSpec { assembler: self.callable_assembler(locals, instructions), ..self }.with_entry(name, code, seq![])
    }

    /// The module after adding a native callable: a new function taking the
    /// address of its parameter, and a table slot for it.
    pub open spec fn callable_assembler(self, locals: nat, instructions: Seq<Instr>) -> AssemblerSpec {
        self.assembler.with_native(
            seq![ValType::I32],
            seq![],
            cells(locals),
            instructions.push(Instr::End),
        ).with_table_entry(self.assembler.next_func_id())
    }

    /// The state after defining `name` as a constant pushing `value`.
    pub open spec fn with_constant(self, name: Seq<char>, value: i32) -> GeneratorSpec {
        self.with_entry(name, self.docon, le32(value))
    }

    /// The state after defining `name` as a variable whose cell starts as
    /// `value`.
    pub open spec fn with_variable(self, name: Seq<char>, value: i32) -> GeneratorSpec {
        self.with_entry(name, self.dovar, le32(value))
    }

    /// The state after defining `name` as a colon word running `values` and
    /// then `EXIT`.
    pub open spec fn with_colon_word(self, name: &str, values: Seq<ColonValue>) -> GeneratorSpec {
        self.with_entry(
            name@,
            self.docol,
            colon_code(values, add32(self.cp, header_size(word_key(name))), self) + le32(self.token("EXIT")),
        )
    }

    /// The state after adding a native callable (see `callable_assembler`).
    pub open spec fn with_callable(self, locals: nat, instructions: Seq<Instr>) -> GeneratorSpec {
        GeneratorSpec { assembler: self.callable_assembler(locals, instructions), ..self }
    }

    /// The state after adding a mutable i32 global.
    pub open spec fn with_global(self, initial_value: i32) -> GeneratorSpec {
        GeneratorSpec {
            assembler: AssemblerSpec { globals: self.assembler.globals.push(initial_value), ..self.assembler },
            ..self
        }
    }

    /// The state after adding a defined function to the module.
    pub open spec fn with_function(
        self,
        params: Seq<ValType>,
        results: Seq<ValType>,
        locals: Seq<ValType>,
        body: Seq<Instr>,
    ) -> GeneratorSpec {
        GeneratorSpec { assembler: self.assembler.with_native(params, results, locals, body), ..self }
    }

    /// The state after adding a function signature to the module.
    pub open spec fn with_type(self, params: Seq<ValType>, results: Seq<ValType>) -> GeneratorSpec {
        GeneratorSpec {
            assembler: AssemblerSpec {
                types: self.assembler.types.push(FuncTypeSpec { params, results }),
                ..self.assembler
            },
            ..self
        }
    }

    /// The state after exporting function `func` as `name`.
    pub open spec fn with_export(self, name: Seq<char>, func: u32) -> GeneratorSpec {
        GeneratorSpec { assembler: self.assembler.with_export(name, func), ..self }
    }

    /// `name` has an execution token.
    pub open spec fn defines(self, name: &str) -> bool {
        self.tokens.contains_key(word_key(name))
    }

    /// The execution token of `name`.
    pub open spec fn token(self, name: &str) -> i32 {
        self.tokens[word_key(name)]
    }
}

/// Adding an entry changes only the module's data, the end of the
/// dictionary, its last entry and the token table.
pub proof fn lemma_with_entry_keeps(c: GeneratorSpec, label: Seq<char>, code: u32, parameter: Seq<u8>)
    ensures
        ({
            let r = c.with_entry(label, code, parameter);
            &&& r == (GeneratorSpec {
                assembler: r.assembler,
                cp: r.cp,
                last_word_address: r.last_word_address,
                tokens: r.tokens,
                names: r.names,
                labels: r.labels,
                ..c
            })
            &&& r.assembler == (AssemblerSpec { data: r.assembler.data, ..c.assembler })
        }),
{
    reveal(GeneratorSpec::with_entry);
}

/// The generator after defining the stacks: the parameter stack with its push
/// and pop functions (exported), the return stack, and the
/// stack-manipulation words.
#[verifier::opaque]
pub open spec fn with_stack_words(c: GeneratorSpec) -> GeneratorSpec {
    let stack = c.assembler.globals.len() as u32;
    let c = c.with_global(PARAM_STACK_BASE);
    let push = c.assembler.next_func_id();
    let c = c.with_function(seq![ValType::I32], seq![], seq![], push_code(stack));
    let pop = c.assembler.next_func_id();
    let c = c.with_function(seq![], seq![ValType::I32], seq![], pop_code(stack));
    let c = GeneratorSpec { push: push, ..c };
    let c = GeneratorSpec { pop: pop, ..c };
    let r_stack = c.assembler.globals.len() as u32;
    let c = c.with_global(RETURN_STACK_BASE);
    let push_r = c.assembler.next_func_id();
    let c = c.with_function(seq![ValType::I32], seq![], seq![], push_code(r_stack));
    let pop_r = c.assembler.next_func_id();
    let c = c.with_function(seq![], seq![ValType::I32], seq![], pop_code(r_stack));
    let c = GeneratorSpec { push_r: push_r, ..c };
    let c = GeneratorSpec { pop_r: pop_r, ..c };
    let c = c.with_export("push"@, push);
    let c = c.with_export("pop"@, pop);
    let c = c.with_native_word("DUP"@, 0, [
        Instr::GetGlobal(stack), Instr::I32Load(2, 0), Instr::Call(push),
    ]@);
    let c = c.with_native_word("DROP"@, 0, [
        Instr::GetGlobal(stack), Instr::I32Const(4), Instr::I32Sub, Instr::SetGlobal(stack),
    ]@);
    let c = c.with_native_word("SWAP"@, 0, [
        Instr::GetGlobal(stack), Instr::I32Const(4), Instr::I32Sub, Instr::TeeLocal(0),
        Instr::GetLocal(0), Instr::I32Load(2, 0), Instr::GetLocal(0), Instr::GetLocal(0),
        Instr::I32Load(2, 4), Instr::I32Store(2, 0), Instr::I32Store(2, 4),
    ]@);
    let c = c.with_native_word("OVER"@, 0, [
        Instr::GetGlobal(stack), Instr::I32Const(4), Instr::I32Sub, Instr::I32Load(2, 0),
        Instr::Call(push),
    ]@);
    let c = c.with_native_word("NIP"@, 0, [
        Instr::GetGlobal(stack), Instr::I32Const(4), Instr::I32Sub, Instr::TeeLocal(0),
        Instr::GetLocal(0), Instr::I32Load(2, 4), Instr::I32Store(2, 0), Instr::GetLocal(0),
        Instr::SetGlobal(stack),
    ]@);
    let c = c.with_native_word("TUCK"@, 1, [
        Instr::GetGlobal(stack), Instr::I32Const(4), Instr::I32Sub, Instr::TeeLocal(0),
        Instr::I32Load(2, 4), Instr::SetLocal(1), Instr::GetLocal(0), Instr::GetLocal(0),
        Instr::I32Load(2, 0), Instr::I32Store(2, 4), Instr::GetLocal(0), Instr::GetLocal(1),
        Instr::I32Store(2, 0), Instr::GetLocal(0), Instr::GetLocal(1), Instr::I32Store(2, 8),
        Instr::GetLocal(0), Instr::I32Const(8), Instr::I32Add, Instr::SetGlobal(stack),
    ]@);
    let c = c.with_native_word("ROT"@, 0, [
        Instr::GetGlobal(stack), Instr::I32Const(8), Instr::I32Sub, Instr::TeeLocal(0),
        Instr::GetLocal(0), Instr::I32Load(2, 0), Instr::GetLocal(0), Instr::GetLocal(0),
        Instr::I32Load(2, 4), Instr::GetLocal(0), Instr::GetLocal(0), Instr::I32Load(2, 8),
        Instr::I32Store(2, 4), Instr::I32Store(2, 0), Instr::I32Store(2, 8),
    ]@);
    let c = c.with_native_word("-ROT"@, 0, [
        Instr::GetGlobal(stack), Instr::I32Const(8), Instr::I32Sub, Instr::TeeLocal(0),
        Instr::GetLocal(0), Instr::I32Load(2, 0), Instr::GetLocal(0), Instr::GetLocal(0),
        Instr::I32Load(2, 4), Instr::GetLocal(0), Instr::GetLocal(0), Instr::I32Load(2, 8),
        Instr::I32Store(2, 0), Instr::I32Store(2, 8), Instr::I32Store(2, 4),
    ]@);
    let c = c.with_native_word(">R"@, 0, [Instr::Call(pop), Instr::Call(push_r)]@);
    let c = c.with_native_word("R>"@, 0, [Instr::Call(pop_r), Instr::Call(push)]@);
    let c = c.with_native_word("R@"@, 0, [
        Instr::GetGlobal(r_stack), Instr::I32Load(2, 0), Instr::Call(push),
    ]@);
    c
}

/// The generator after defining the code fields of constants and variables
/// and the constants naming them.
#[verifier::opaque]
pub open spec fn with_constant_words(c: GeneratorSpec) -> GeneratorSpec {
    let push = c.push;
    let docon = c.assembler.table.len() as u32;
    let c = c.with_callable(0, [Instr::GetLocal(0), Instr::I32Load(2, 0), Instr::Call(push)]@);
    let c = GeneratorSpec { docon: docon, ..c };
    let c = c.with_constant("(DOCON)"@, docon as i32);
    c
}

/// The generator after defining the memory words.
#[verifier::opaque]
pub open spec fn with_variable_words(c: GeneratorSpec) -> GeneratorSpec {
    let push = c.push;
    let pop = c.pop;
    let dovar = c.assembler.table.len() as u32;
    let c = c.with_callable(0, [Instr::GetLocal(0), Instr::Call(push)]@);
    let c = GeneratorSpec { dovar: dovar, ..c };
    let c = c.with_constant("(DOVAR)"@, dovar as i32);
    let c = c.with_native_word("!"@, 0, [
        Instr::Call(pop), Instr::Call(pop), Instr::I32Store(2, 0),
    ]@);
    let c = c.with_native_word("@"@, 0, [
        Instr::Call(pop), Instr::I32Load(2, 0), Instr::Call(push),
    ]@);
    let c = c.with_native_word("+!"@, 0, [
        Instr::Call(pop), Instr::TeeLocal(0), Instr::GetLocal(0), Instr::I32Load(2, 0),
        Instr::Call(pop), Instr::I32Add, Instr::I32Store(2, 0),
    ]@);
    let c = c.with_native_word("C!"@, 0, [
        Instr::Call(pop), Instr::Call(pop), Instr::I32Store8(0, 0),
    ]@);
    let c = c.with_native_word("C@"@, 0, [
        Instr::Call(pop), Instr::I32Load8U(0, 0), Instr::Call(push),
    ]@);
    c
}

/// The generator after defining execution: the instruction pointer, the
/// `EXECUTE` dispatch through the function table, the `_start` loop, the code
/// field of colon words, and the words controlling execution.
#[verifier::opaque]
pub open spec fn with_execution_words(c: GeneratorSpec) -> GeneratorSpec {
    let push = c.push;
    let pop = c.pop;
    let push_r = c.push_r;
    let pop_r = c.pop_r;
    let ip = c.assembler.globals.len() as u32;
    let c = c.with_global(0);
    let c = GeneratorSpec { ip: ip, ..c };
    let stopped = c.assembler.globals.len() as u32;
    let c = c.with_global(0);
    let execute = c.assembler.next_func_id();
    let c = c.with_function([ValType::I32]@, seq![], seq![], [
        Instr::GetLocal(0), Instr::I32Const(4), Instr::I32Add, Instr::GetLocal(0),
        Instr::I32Load(2, 0), Instr::CallIndirect(0, 0), Instr::End,
    ]@);
    let c = c.with_native_word("EXECUTE"@, 0, [Instr::Call(pop), Instr::Call(execute)]@);
    let start = c.assembler.next_func_id();
    let c = c.with_function(seq![], seq![], seq![], [
        Instr::I32Const(0), Instr::SetGlobal(stopped), Instr::Loop(BlockType::NoResult),
        Instr::GetGlobal(ip), Instr::I32Load(2, 0), Instr::Call(execute), Instr::GetGlobal(ip),
        Instr::I32Const(4), Instr::I32Add, Instr::SetGlobal(ip), Instr::GetGlobal(stopped),
        Instr::I32Eqz, Instr::BrIf(0), Instr::End, Instr::End,
    ]@);
    let c = GeneratorSpec { start: start, ..c };
    let c = c.with_native_word("STOP"@, 0, [Instr::I32Const(-1i32), Instr::SetGlobal(stopped)]@);
    let docol = c.assembler.table.len() as u32;
    let c = c.with_callable(0, [
        Instr::GetGlobal(ip), Instr::Call(push_r), Instr::GetLocal(0), Instr::I32Const(4),
        Instr::I32Sub, Instr::SetGlobal(ip),
    ]@);
    let c = GeneratorSpec { docol: docol, ..c };
    let c = c.with_constant("(DOCOL)"@, docol as i32);
    let c = c.with_native_word("EXIT"@, 0, [Instr::Call(pop_r), Instr::SetGlobal(ip)]@);
    let c = c.with_native_word("LIT"@, 0, [
        Instr::GetGlobal(ip), Instr::I32Const(4), Instr::I32Add, Instr::TeeLocal(0),
        Instr::I32Load(2, 0), Instr::Call(push), Instr::GetLocal(0), Instr::SetGlobal(ip),
    ]@);
    let c = c.with_native_word("BRANCH"@, 0, [
        Instr::GetGlobal(ip), Instr::I32Load(2, 4), Instr::I32Const(4), Instr::I32Sub,
        Instr::SetGlobal(ip),
    ]@);
    let c = c.with_native_word("?BRANCH"@, 0, [
        Instr::Call(pop), Instr::I32Eqz, Instr::If(BlockType::Value(ValType::I32)),
        Instr::GetGlobal(ip), Instr::I32Load(2, 4), Instr::I32Const(4), Instr::I32Sub, Instr::Else,
        Instr::GetGlobal(ip), Instr::I32Const(4), Instr::I32Add, Instr::End, Instr::SetGlobal(ip),
    ]@);
    c
}

/// The generator after defining the arithmetic, logic and comparison words.
#[verifier::opaque]
pub open spec fn with_math_words(c: GeneratorSpec) -> GeneratorSpec {
    let push = c.push;
    let pop = c.pop;
    let c = c.with_native_word("+"@, 0, binary_i32_code(pop, push, Instr::I32Add));
    let c = c.with_native_word("-"@, 0, binary_i32_code(pop, push, Instr::I32Sub));
    let c = c.with_native_word("*"@, 0, binary_i32_code(pop, push, Instr::I32Mul));
    let c = c.with_native_word("/"@, 1, [
        Instr::Call(pop), Instr::TeeLocal(1), Instr::Call(pop), Instr::TeeLocal(0), Instr::I32Xor,
        Instr::I32Const(i32::MIN), Instr::I32And, Instr::If(BlockType::Value(ValType::I32)),
        Instr::GetLocal(0), Instr::GetLocal(1), Instr::I32Sub, Instr::I32Const(1),
        Instr::I32Const(-1i32), Instr::GetLocal(0), Instr::I32Const(i32::MIN), Instr::I32And,
        Instr::Select, Instr::I32Add, Instr::Else, Instr::GetLocal(0), Instr::End,
        Instr::GetLocal(1), Instr::I32DivS, Instr::Call(push),
    ]@);
    let c = c.with_native_word("MOD"@, 1, [
        Instr::Call(pop), Instr::TeeLocal(1), Instr::Call(pop), Instr::TeeLocal(0), Instr::I32Xor,
        Instr::I32Const(i32::MIN), Instr::I32And, Instr::If(BlockType::Value(ValType::I32)),
        Instr::GetLocal(0), Instr::GetLocal(1), Instr::I32RemS, Instr::GetLocal(1), Instr::I32Add,
        Instr::Else, Instr::GetLocal(0), Instr::GetLocal(1), Instr::I32RemS, Instr::End,
        Instr::Call(push),
    ]@);
    let c = c.with_native_word("MIN"@, 1, [
        Instr::Call(pop), Instr::TeeLocal(0), Instr::Call(pop), Instr::TeeLocal(1),
        Instr::GetLocal(0), Instr::GetLocal(1), Instr::I32LtS, Instr::Select, Instr::Call(push),
    ]@);
    let c = c.with_native_word("MAX"@, 1, [
        Instr::Call(pop), Instr::TeeLocal(0), Instr::Call(pop), Instr::TeeLocal(1),
        Instr::GetLocal(0), Instr::GetLocal(1), Instr::I32GtS, Instr::Select, Instr::Call(push),
    ]@);
    let c = c.with_native_word("1+"@, 0, [
        Instr::Call(pop), Instr::I32Const(1), Instr::I32Add, Instr::Call(push),
    ]@);
    let c = c.with_native_word("1-"@, 0, [
        Instr::Call(pop), Instr::I32Const(1), Instr::I32Sub, Instr::Call(push),
    ]@);
    let c = c.with_native_word("AND"@, 0, binary_i32_code(pop, push, Instr::I32And));
    let c = c.with_native_word("OR"@, 0, binary_i32_code(pop, push, Instr::I32Or));
    let c = c.with_constant("FALSE"@, 0i32);
    let c = c.with_constant("TRUE"@, -1i32);
    let c = c.with_native_word("INVERT"@, 0, [
        Instr::I32Const(-1i32), Instr::I32Const(0), Instr::Call(pop), Instr::I32Eqz, Instr::Select,
        Instr::Call(push),
    ]@);
    let c = c.with_native_word("="@, 0, binary_bool_code(pop, push, Instr::I32Eq));
    let c = c.with_native_word("<>"@, 0, binary_bool_code(pop, push, Instr::I32Ne));
    let c = c.with_native_word("<"@, 0, binary_bool_code(pop, push, Instr::I32LtS));
    let c = c.with_native_word(">"@, 0, binary_bool_code(pop, push, Instr::I32GtS));
    let c = c.with_native_word("<="@, 0, binary_bool_code(pop, push, Instr::I32LeS));
    let c = c.with_native_word(">="@, 0, binary_bool_code(pop, push, Instr::I32GeS));
    let c = c.with_native_word("=0"@, 0, [
        Instr::I32Const(0), Instr::Call(pop), Instr::I32Eqz, Instr::I32Sub, Instr::Call(push),
    ]@);
    let c = c.with_native_word("<>0"@, 0, [
        Instr::I32Const(0), Instr::Call(pop), Instr::I32Const(0), Instr::I32Ne, Instr::I32Sub,
        Instr::Call(push),
    ]@);
    let c = c.with_native_word("<0"@, 0, [
        Instr::I32Const(0), Instr::Call(pop), Instr::I32Const(0), Instr::I32LtS, Instr::I32Sub,
        Instr::Call(push),
    ]@);
    let c = c.with_native_word(">0"@, 0, [
        Instr::I32Const(0), Instr::Call(pop), Instr::I32Const(0), Instr::I32GtS, Instr::I32Sub,
        Instr::Call(push),
    ]@);
    c
}

/// The generator after defining the words every module starts with: stacks,
/// constants, memory, execution and math words, then the dictionary's
/// variables `CP` and `LAST-WORD`.
pub open spec fn with_core_words(c: GeneratorSpec) -> GeneratorSpec {
    let c = with_math_words(with_execution_words(with_variable_words(with_constant_words(with_stack_words(c)))));
    let c = c.with_variable("CP"@, 0i32);
    c.with_variable("LAST-WORD"@, 0i32)
}

/// A generator with an empty module that declares its memory, an empty
/// dictionary starting at [`DICTIONARY_BASE`], and no recorded words.
pub open spec fn empty_generator() -> GeneratorSpec {
    GeneratorSpec {
        assembler: AssemblerSpec {
            types: seq![],
            slots: seq![],
            imports: seq![],
            natives: seq![],
            table: seq![],
            globals: seq![],
            data: seq![],
            exports: seq![],
            memory: true,
        },
        push: 0,
        pop: 0,
        push_r: 0,
        pop_r: 0,
        docon: 0,
        dovar: 0,
        docol: 0,
        start: 0,
        ip: 0,
        cp: DICTIONARY_BASE,
        last_word_address: 0,
        tokens: Map::empty(),
        names: seq![],
        labels: seq![],
    }
}

/// The generator every build starts from: the core words defined in an
/// empty generator.
pub open spec fn default_generator() -> GeneratorSpec {
    with_core_words(empty_generator())
}

/// Builds a WebAssembly module holding a Forth dictionary.
pub struct Generator {
    assembler: Assembler,
    push: u32,
    pop: u32,
    push_r: u32,
    pop_r: u32,
    docon: u32,
    dovar: u32,
    docol: u32,
    start: u32,
    ip: u32,
    cp: i32,
    last_word_address: i32,
    execution_tokens: TokenTable,
}

impl View for Generator {
    type V = GeneratorSpec;

    closed spec fn view(&self) -> GeneratorSpec {
        GeneratorSpec {
            assembler: self.assembler@,
            push: self.push,
            pop: self.pop,
            push_r: self.push_r,
            pop_r: self.pop_r,
            docon: self.docon,
            dovar: self.dovar,
            docol: self.docol,
            start: self.start,
            ip: self.ip,
            cp: self.cp,
            last_word_address: self.last_word_address,
            tokens: self.execution_tokens.map(),
            names: self.execution_tokens.names(),
            labels: self.execution_tokens.labels(),
        }
    }
}

/// Code pushing a cell onto the stack whose pointer is global `stack`; the
/// pointer addresses the top cell and the stack grows up.
pub open spec fn push_code(stack: u32) -> Seq<Instr> {
    seq![
        Instr::GetGlobal(stack), Instr::I32Const(4), Instr::I32Add, Instr::SetGlobal(stack),
        Instr::GetGlobal(stack), Instr::GetLocal(0), Instr::I32Store(2, 0), Instr::End,
    ]
}

/// Code popping a cell from the stack whose pointer is global `stack`.
pub open spec fn pop_code(stack: u32) -> Seq<Instr> {
    seq![
        Instr::GetGlobal(stack), Instr::I32Load(2, 0), Instr::GetGlobal(stack), Instr::I32Const(4),
        Instr::I32Sub, Instr::SetGlobal(stack), Instr::End,
    ]
}

/// Adds the push and pop functions of the stack whose pointer is global
/// `stack` and returns their ids.
fn define_stack(assembler: &mut Assembler, stack: u32) -> (r: (u32, u32))
    ensures
        r.0 == old(assembler)@.next_func_id(),
        r.1 == old(assembler)@.with_native(seq![ValType::I32], seq![], seq![], push_code(stack)).next_func_id(),
        final(assembler)@ == old(assembler)@.with_native(seq![ValType::I32], seq![], seq![], push_code(stack))
            .with_native(seq![], seq![ValType::I32], seq![], pop_code(stack)),
{
    let push_instructions = vec![
        // increment stack pointer
        Instr::GetGlobal(stack),
        Instr::I32Const(4),
        Instr::I32Add,
        Instr::SetGlobal(stack),
        // write data
        Instr::GetGlobal(stack),
        Instr::GetLocal(0),
        Instr::I32Store(2, 0),
        Instr::End,
    ];
    assert(push_instructions@ =~= push_code(stack));
    let cell = vec![ValType::I32];
    assert(cell@ =~= seq![ValType::I32]);
    let push = assembler.add_native_func(cell, vec![], vec![], push_instructions);

    let pop_instructions = vec![
        // read data
        Instr::GetGlobal(stack),
        Instr::I32Load(2, 0),
        // decrement stack pointer
        Instr::GetGlobal(stack),
        Instr::I32Const(4),
        Instr::I32Sub,
        Instr::SetGlobal(stack),
        Instr::End,
    ];
    assert(pop_instructions@ =~= pop_code(stack));
    let cell = vec![ValType::I32];
    assert(cell@ =~= seq![ValType::I32]);
    let pop = assembler.add_native_func(vec![], cell, vec![], pop_instructions);

    (push, pop)
}

/// `n` cell types.
fn cell_types(n: usize) -> (r: Vec<ValType>)
    ensures
        r@ == cells(n as nat),
{
    let mut r: Vec<ValType> = Vec::new();
    let mut k: usize = 0;
    while k < n
        invariant
            k <= n,
            r@ == cells(k as nat),
        decreases n - k,
    {
        r.push(ValType::I32);
        k = k + 1;
        assert(r@ =~= cells(k as nat));
    }
    r
}

impl Generator {
    /// The generator's bookkeeping is consistent.
    pub closed spec fn wf(&self) -> bool {
        self.execution_tokens.wf()
    }

    /// Adds a dictionary entry for `name` with the given code cell and parameter.
    fn define_word(&mut self, name: &str, code: u32, parameter: &[u8])
        requires
            old(self).wf(),
        ensures
            final(self)@.defines(name),
            grows(old(self)@, final(self)@),
            final(self).wf(),
            final(self)@ == old(self)@.with_entry(name@, code, parameter@),
    {
        reveal(word_key);
        reveal(GeneratorSpec::with_entry);
        let old_last_word_address = self.last_word_address;
        let last_word_address = self.cp;
        let name_bytes = name.as_bytes();

        let mut data: Vec<u8> = Vec::new();
        data.push(#[verifier::truncate] (name_bytes.len() as u8));
        push_bytes(&mut data, name_bytes);
        push_cell(&mut data, old_last_word_address);
        push_cell(&mut data, code as i32);
        push_bytes(&mut data, parameter);
        assert(data@ =~= entry_bytes(name.spec_bytes(), old_last_word_address, code, parameter@));

        // record the execution token for later lookups
        let len = #[verifier::truncate] (name_bytes.len() as i32);
        let xt = last_word_address.wrapping_add(1).wrapping_add(len).wrapping_add(4);
        self.execution_tokens.insert(name, xt);

        let cp = self.cp.wrapping_add(#[verifier::truncate] (data.len() as i32));
        let ghost tokens = self@.tokens;
        self.assembler.add_data(self.cp, data);
        assert(self@.tokens == tokens);
        self.cp = cp;
        self.last_word_address = last_word_address;
    }

    /// The size of the dictionary header for `name`.
    fn header_size(name: &str) -> (r: i32)
        ensures
            r == header_size(name.spec_bytes()),
    {
        let len = #[verifier::truncate] (name.as_bytes().len() as i32);
        1i32.wrapping_add(len).wrapping_add(4).wrapping_add(4)
    }

    /// Adds a function taking the address of a word's parameter, with
    /// `locals` cell locals, and returns the table slot through which it is
    /// called.
    fn create_native_callable(&mut self, locals: usize, instructions: Vec<Instr>) -> (r: u32)
        requires
            old(self).wf(),
        ensures
            final(self)@.tokens == old(self)@.tokens,
            grows(old(self)@, final(self)@),
            final(self).wf(),
            r == old(self)@.assembler.table.len() as u32,
            final(self)@ == (GeneratorSpec {
                assembler: old(self)@.callable_assembler(locals as nat, instructions@),
                ..old(self)@
            }),
    {
        let mut instructions = instructions;
        instructions.push(Instr::End);
        let locals = cell_types(locals);
        let cell = vec![ValType::I32];
        assert(cell@ =~= seq![ValType::I32]);
        let func = self.assembler.add_native_func(cell, vec![], locals, instructions);
        self.assembler.add_table_entry(func)
    }

    /// Defines `name` as a word running the given WebAssembly code.
    fn define_native_word(&mut self, name: &str, locals: usize, instructions: Vec<Instr>)
        requires
            old(self).wf(),
        ensures
            final(self)@.defines(name),
            grows(old(self)@, final(self)@),
            final(self).wf(),
            final(self)@ == old(self)@.with_native_word(name@, locals as nat, instructions@),
    {
        reveal(GeneratorSpec::with_entry);
        reveal(GeneratorSpec::with_native_word);
        let code = self.create_native_callable(locals, instructions);
        let empty: Vec<u8> = Vec::new();
        self.define_word(name, code, empty.as_slice());
    }

    /// Defines `name` as a constant pushing `value`.
    pub fn define_constant_word(&mut self, name: &str, value: i32)
        requires
            old(self).wf(),
        ensures
            final(self)@.defines(name),
            grows(old(self)@, final(self)@),
            final(self).wf(),
            final(self)@ == old(self)@.with_entry(name@, old(self)@.docon, le32(value)),
    {
        let docon = self.docon;
        let mut bytes: Vec<u8> = Vec::new();
        push_cell(&mut bytes, value);
        self.define_word(name, docon, bytes.as_slice());
    }

    /// Defines `name` as a variable: its parameter is one cell holding
    /// `initial_value`, and running it pushes the cell's address.
    pub fn define_variable_word(&mut self, name: &str, initial_value: i32)
        requires
            old(self).wf(),
        ensures
            final(self)@.defines(name),
            grows(old(self)@, final(self)@),
            final(self).wf(),
            final(self)@ == old(self)@.with_entry(name@, old(self)@.dovar, le32(initial_value)),
    {
        let dovar = self.dovar;
        let mut bytes: Vec<u8> = Vec::new();
        push_cell(&mut bytes, initial_value);
        self.define_word(name, dovar, bytes.as_slice());
    }

    /// Defines `name` as a colon word running `values` and then `EXIT`.
    /// Jump offsets are turned into absolute addresses.
    pub fn define_colon_word(&mut self, name: &str, values: Vec<ColonValue>)
        requires
            old(self).wf(),
            colon_words_defined(values@, old(self)@),
        ensures
            final(self)@.defines(name),
            grows(old(self)@, final(self)@),
            final(self).wf(),
            final(self)@ == old(self)@.with_entry(
                name@,
                old(self)@.docol,
                colon_code(values@, add32(old(self)@.cp, header_size(word_key(name))), old(self)@)
                    + le32(old(self)@.token("EXIT")),
            ),
    {
        reveal(word_key);
        let docol = self.docol;
        let lit_xt = self.get_execution_token("LIT");
        let branch_xt = self.get_execution_token("BRANCH");
        let q_branch_xt = self.get_execution_token("?BRANCH");
        let mut bytes: Vec<u8> = Vec::new();
        // track the end of the dictionary as we go, to turn relative jumps absolute
        let start = self.cp.wrapping_add(Self::header_size(name));
        let mut cp = start;
        let ghost c = self@;
        let mut i: usize = 0;
        assert(values@.skip(0) =~= values@);
        assert(bytes@ + colon_code(values@, start, c) =~= colon_code(values@, start, c));
        while i < values.len()
            invariant
                self.wf(),
                self@ == c,
                c == old(self)@,
                colon_words_defined(values@, c),
                lit_xt == c.token("LIT"),
                branch_xt == c.token("BRANCH"),
                q_branch_xt == c.token("?BRANCH"),
                i <= values@.len(),
                bytes@ + colon_code(values@.skip(i as int), cp, c) == colon_code(values@, start, c),
            decreases values@.len() - i,
        {
            let ghost rest = values@.skip(i as int);
            assert(rest.drop_first() =~= values@.skip(i + 1));
            assert(rest[0] == values@[i as int]);
            let ghost before = bytes@;
            let ghost cp0 = cp;
            match &values[i] {
                ColonValue::XT(word) => {
                    cp = cp.wrapping_add(4);
                    let xt = self.get_execution_token(word);
                    push_cell(&mut bytes, xt);
                },
                ColonValue::Lit(value) => {
                    cp = cp.wrapping_add(8);
                    push_cell(&mut bytes, lit_xt);
                    push_cell(&mut bytes, *value);
                },
                ColonValue::Branch(offset) => {
                    cp = cp.wrapping_add(8);
                    let target = cp.wrapping_add(*offset);
                    push_cell(&mut bytes, branch_xt);
                    push_cell(&mut bytes, target);
                },
                ColonValue::QBranch(offset) => {
                    cp = cp.wrapping_add(8);
                    let target = cp.wrapping_add(*offset);
                    push_cell(&mut bytes, q_branch_xt);
                    push_cell(&mut bytes, target);
                },
            }
            proof {
                let item = colon_item(values@[i as int], cp0, c);
                assert(bytes@ =~= before + item.0);
                assert(cp == item.1);
                assert(colon_code(rest, cp0, c) == item.0 + colon_code(rest.drop_first(), item.1, c));
                assert(bytes@ + colon_code(values@.skip(i + 1), cp, c) =~= before + colon_code(rest, cp0, c));
            }
            i = i + 1;
        }
        assert(values@.skip(i as int) =~= Seq::<ColonValue>::empty());
        let exit_xt = self.get_execution_token("EXIT");
        push_cell(&mut bytes, exit_xt);
        self.define_word(name, docol, bytes.as_slice());
    }

    /// Adds a mutable i32 global and returns its index.
    fn add_global(&mut self, initial_value: i32) -> (r: u32)
        requires
            old(self).wf(),
        ensures
            final(self)@.tokens == old(self)@.tokens,
            grows(old(self)@, final(self)@),
            final(self).wf(),
            r == old(self)@.assembler.globals.len() as u32,
            final(self)@ == (GeneratorSpec {
                assembler: AssemblerSpec {
                    globals: old(self)@.assembler.globals.push(initial_value),
                    ..old(self)@.assembler
                },
                ..old(self)@
            }),
    {
        self.assembler.add_global(initial_value)
    }

    /// The execution token of `name`, which must be defined.
    fn get_execution_token(&self, name: &str) -> (r: i32)
        requires
            self.wf(),
            self@.defines(name),
        ensures
            r == self@.token(name),
    {
        reveal(word_key);
        match self.execution_tokens.get(name.as_bytes()) {
            Some(xt) => xt,
            None => {
                assert(false);
                0
            },
        }
    }
}

impl Generator {
    /// Defines the parameter and return stacks, their push and pop functions
    /// (exported for the host) and the stack words.
    fn define_stacks(&mut self)
        requires
            old(self).wf(),
        ensures
            final(self)@ == with_stack_words(old(self)@),
            final(self).wf(),
            grows(old(self)@, final(self)@),
            stack_words_defined(final(self)@),
    {
        reveal(with_stack_words);
        reveal(stack_words_defined);
        // define the normal stack
        let stack = self.add_global(PARAM_STACK_BASE);
        let ghost tokens = self@.tokens;
        let (push, pop) = define_stack(&mut self.assembler, stack);
        self.push = push;
        self.pop = pop;
        // define the return stack
        let r_stack = self.add_global(RETURN_STACK_BASE);
        let (push_r, pop_r) = define_stack(&mut self.assembler, r_stack);
        self.push_r = push_r;
        self.pop_r = pop_r;

        self.assembler.add_exported_func("push", push);
        self.assembler.add_exported_func("pop", pop);
        assert(self@.tokens == tokens);
        self.define_native_word(
            "DUP",
            0,
            vec![
                // just push the top of the stack onto itself
                Instr::GetGlobal(stack),
                Instr::I32Load(2, 0),
                Instr::Call(push),
            ],
        );
        self.define_native_word(
            "DROP",
            0,
            vec![
                // just decrement the stack pointer
                Instr::GetGlobal(stack),
                Instr::I32Const(4),
                Instr::I32Sub,
                Instr::SetGlobal(stack),
            ],
        );
        self.define_native_word(
            "SWAP",
            0,
            vec![
                // don't bother touching the stack pointer
                Instr::GetGlobal(stack),
                Instr::I32Const(4),
                Instr::I32Sub,
                Instr::TeeLocal(0),
                Instr::GetLocal(0),
                Instr::I32Load(2, 0),
                Instr::GetLocal(0),
                Instr::GetLocal(0),
                Instr::I32Load(2, 4),
                Instr::I32Store(2, 0),
                Instr::I32Store(2, 4),
            ],
        );
        self.define_native_word(
            "OVER",
            0,
            vec![
                Instr::GetGlobal(stack),
                Instr::I32Const(4),
                Instr::I32Sub,
                Instr::I32Load(2, 0),
                Instr::Call(push),
            ],
        );
        self.define_native_word(
            "NIP",
            0,
            vec![
                Instr::GetGlobal(stack),
                Instr::I32Const(4),
                Instr::I32Sub,
                Instr::TeeLocal(0), // point to head - 4
                Instr::GetLocal(0),
                Instr::I32Load(2, 4),  // retrieve value of head
                Instr::I32Store(2, 0), // store in head - 4
                Instr::GetLocal(0),
                Instr::SetGlobal(stack), // head -= 4
            ],
        );
        self.define_native_word(
            "TUCK",
            1,
            vec![
                Instr::GetGlobal(stack),
                Instr::I32Const(4),
                Instr::I32Sub,
                Instr::TeeLocal(0), // save head - 4
                Instr::I32Load(2, 4),
                Instr::SetLocal(1), // save [head]
                // start moving
                Instr::GetLocal(0),
                Instr::GetLocal(0),
                Instr::I32Load(2, 0),
                Instr::I32Store(2, 4), // store [head - 4] in head
                Instr::GetLocal(0),
                Instr::GetLocal(1),
                Instr::I32Store(2, 0), // store old [head] in head - 4
                Instr::GetLocal(0),
                Instr::GetLocal(1),
                Instr::I32Store(2, 8), // store old [head] in head + 4
                // and just increment the stack ptr and we're done
                Instr::GetLocal(0),
                Instr::I32Const(8),
                Instr::I32Add,
                Instr::SetGlobal(stack),
            ],
        );
        self.define_native_word(
            "ROT",
            0,
            vec![
                // spin your elements round and round
                Instr::GetGlobal(stack),
                Instr::I32Const(8),
                Instr::I32Sub,
                Instr::TeeLocal(0),
                Instr::GetLocal(0),
                Instr::I32Load(2, 0),
                Instr::GetLocal(0),
                Instr::GetLocal(0),
                Instr::I32Load(2, 4),
                Instr::GetLocal(0),
                Instr::GetLocal(0),
                Instr::I32Load(2, 8),
                Instr::I32Store(2, 4),
                Instr::I32Store(2, 0),
                Instr::I32Store(2, 8),
            ],
        );
        self.define_native_word(
            "-ROT",
            0,
            vec![
                // like two rots, or rot backwards
                Instr::GetGlobal(stack),
                Instr::I32Const(8),
                Instr::I32Sub,
                Instr::TeeLocal(0),
                Instr::GetLocal(0),
                Instr::I32Load(2, 0),
                Instr::GetLocal(0),
                Instr::GetLocal(0),
                Instr::I32Load(2, 4),
                Instr::GetLocal(0),
                Instr::GetLocal(0),
                Instr::I32Load(2, 8),
                Instr::I32Store(2, 0),
                Instr::I32Store(2, 8),
                Instr::I32Store(2, 4),
            ],
        );
        self.define_native_word(">R", 0, vec![Instr::Call(pop), Instr::Call(push_r)]);
        self.define_native_word("R>", 0, vec![Instr::Call(pop_r), Instr::Call(push)]);
        self.define_native_word("R@", 0, vec![Instr::GetGlobal(r_stack), Instr::I32Load(2, 0), Instr::Call(push)]);
    }

    /// Defines how constants run: pushing the cell of their parameter.
    fn define_constants(&mut self)
        requires
            old(self).wf(),
        ensures
            final(self)@ == with_constant_words(old(self)@),
            final(self).wf(),
            grows(old(self)@, final(self)@),
            final(self)@.defines("(DOCON)"),
    {
        reveal(with_constant_words);
        let push = self.push;
        let docon = self.create_native_callable(
            0,
            vec![
                // The value of our parameter is the value of the constant, just fetch and push it
                Instr::GetLocal(0),
                Instr::I32Load(2, 0),
                Instr::Call(push),
            ],
        );
        let ghost tokens = self@.tokens;
        self.docon = docon;
        assert(self@.tokens == tokens);
        self.define_constant_word("(DOCON)", docon as i32);
    }

    /// Defines how variables run (pushing the address of their parameter) and
    /// the memory words.
    fn define_variables(&mut self)
        requires
            old(self).wf(),
            old(self)@.defines("(DOCON)"),
        ensures
            final(self)@ == with_variable_words(old(self)@),
            final(self).wf(),
            grows(old(self)@, final(self)@),
            memory_words_defined(final(self)@),
    {
        reveal(with_variable_words);
        reveal(memory_words_defined);
        let push = self.push;
        let pop = self.pop;
        let dovar = self.create_native_callable(
            0,
            vec![
                // the address of our parameter IS the address of the variable, just push it
                Instr::GetLocal(0),
                Instr::Call(push),
            ],
        );
        let ghost tokens = self@.tokens;
        self.dovar = dovar;
        assert(self@.tokens == tokens);
        self.define_constant_word("(DOVAR)", dovar as i32);
        self.define_native_word("!", 0, vec![Instr::Call(pop), Instr::Call(pop), Instr::I32Store(2, 0)]);
        self.define_native_word("@", 0, vec![Instr::Call(pop), Instr::I32Load(2, 0), Instr::Call(push)]);
        self.define_native_word(
            "+!",
            0,
            vec![
                Instr::Call(pop),
                Instr::TeeLocal(0),
                Instr::GetLocal(0),
                Instr::I32Load(2, 0),
                Instr::Call(pop),
                Instr::I32Add,
                Instr::I32Store(2, 0),
            ],
        );
        self.define_native_word("C!", 0, vec![Instr::Call(pop), Instr::Call(pop), Instr::I32Store8(0, 0)]);
        self.define_native_word("C@", 0, vec![Instr::Call(pop), Instr::I32Load8U(0, 0), Instr::Call(push)]);
    }

    /// Defines the inner interpreter: `EXECUTE`, the main loop and `STOP`, how
    /// colon words run and return, literals and branches.
    fn define_execution(&mut self)
        requires
            old(self).wf(),
        ensures
            final(self)@ == with_execution_words(old(self)@),
            final(self).wf(),
            grows(old(self)@, final(self)@),
            execution_words_defined(final(self)@),
    {
        reveal(with_execution_words);
        reveal(execution_words_defined);
        let push = self.push;
        let pop = self.pop;
        let push_r = self.push_r;
        let pop_r = self.pop_r;

        let ip = self.add_global(0);
        let ghost tokens = self@.tokens;
        self.ip = ip;
        assert(self@.tokens == tokens);
        let stopped = self.add_global(0);

        // "execute" takes an XT as a parameter and runs it
        let ghost tokens = self@.tokens;
        let execute = self.assembler.add_native_func(
            vec![ValType::I32],
            vec![],
            vec![],
            vec![
                // The argument is an execution token (XT).
                // In this system, an execution token is the 32-bit address of a table index,
                // with the parameter data (if any) stored immediately after it.
                // Call the func with the address of the parameter data.
                Instr::GetLocal(0),
                Instr::I32Const(4),
                Instr::I32Add,
                Instr::GetLocal(0),
                Instr::I32Load(2, 0),
                // the first immediate of call_indirect is a type index; push is the
                // first function defined and has the right signature, so its type, 0, works
                Instr::CallIndirect(0, 0),
                Instr::End,
            ],
        );
        assert(self@.tokens == tokens);
        self.define_native_word("EXECUTE", 0, vec![Instr::Call(pop), Instr::Call(execute)]);

        // Start is the interpreter's main loop, it calls EXECUTE until the program says to stop.
        // Assuming that the caller has set IP to something reasonable first.
        let ghost tokens = self@.tokens;
        let start = self.assembler.add_native_func(
            vec![],
            vec![],
            vec![],
            vec![
                // mark that we should NOT stop yet
                Instr::I32Const(0),
                Instr::SetGlobal(stopped),
                // loop until execution is not "in progress"
                Instr::Loop(BlockType::NoResult),
                Instr::GetGlobal(ip), // IP is a pointer to an XT
                Instr::I32Load(2, 0), // Deref it to get our next XT
                Instr::Call(execute), // Run it
                Instr::GetGlobal(ip),
                Instr::I32Const(4),
                Instr::I32Add,
                Instr::SetGlobal(ip), // increment the IP
                // loop if we still have not been stopped
                Instr::GetGlobal(stopped),
                Instr::I32Eqz,
                Instr::BrIf(0),
                Instr::End,
                Instr::End,
            ],
        );
        self.start = start;
        assert(self@.tokens == tokens);
        self.define_native_word("STOP", 0, vec![Instr::I32Const(-1), Instr::SetGlobal(stopped)]);

        // DOCOL is how a colon word is executed. It just messes with the IP.
        let docol = self.create_native_callable(
            0,
            vec![
                // push IP onto the return stack
                Instr::GetGlobal(ip),
                Instr::Call(push_r),
                // Set IP to the head of our parameter
                Instr::GetLocal(0),
                Instr::I32Const(4),
                Instr::I32Sub,
                Instr::SetGlobal(ip),
            ],
        );
        let ghost tokens = self@.tokens;
        self.docol = docol;
        assert(self@.tokens == tokens);
        self.define_constant_word("(DOCOL)", docol as i32);
        // EXIT is how a colon word returns. It just restores the old IP.
        self.define_native_word(
            "EXIT",
            0,
            vec![
                // Set IP to whatever's the head of the return stack
                Instr::Call(pop_r),
                Instr::SetGlobal(ip),
            ],
        );
        self.define_native_word(
            "LIT",
            0,
            vec![
                // The instruction pointer is pointing to LIT's XT inside of a colon definition.
                // The value after that is a literal; push it.
                Instr::GetGlobal(ip),
                Instr::I32Const(4),
                Instr::I32Add,
                Instr::TeeLocal(0),
                Instr::I32Load(2, 0),
                Instr::Call(push),
                // also increment IP appropriately
                Instr::GetLocal(0),
                Instr::SetGlobal(ip),
            ],
        );
        self.define_native_word(
            "BRANCH",
            0,
            vec![
                // The instruction pointer is pointing to BRANCH's XT inside of a colon definition.
                // The value after that is a literal jump address, jump there
                Instr::GetGlobal(ip),
                Instr::I32Load(2, 4),
                Instr::I32Const(4), // Subtract 4 to account for the main loop incrementing the IP itself
                Instr::I32Sub,
                Instr::SetGlobal(ip),
            ],
        );
        self.define_native_word(
            "?BRANCH",
            0,
            vec![
                // Branch if the head of the stack is "false" (0)
                Instr::Call(pop),
                Instr::I32Eqz,
                Instr::If(BlockType::Value(ValType::I32)),
                // Jump to literal-after-the-IP - 4
                Instr::GetGlobal(ip),
                Instr::I32Load(2, 4),
                Instr::I32Const(4),
                Instr::I32Sub,
                Instr::Else, // Just jump to 4-after-the-IP
                Instr::GetGlobal(ip),
                Instr::I32Const(4),
                Instr::I32Add,
                Instr::End,
                Instr::SetGlobal(ip),
            ],
        );
    }
}

/// Code popping two cells and leaving the lower one, then the top one, on
/// the WebAssembly operand stack (local 0 holds the top one).
pub open spec fn two_args_code(pop: u32) -> Seq<Instr> {
    seq![Instr::Call(pop), Instr::SetLocal(0), Instr::Call(pop), Instr::GetLocal(0)]
}

/// Builds [`two_args_code`].
fn two_args(pop: u32) -> (r: Vec<Instr>)
    ensures
        r@ == two_args_code(pop),

{
    vec![Instr::Call(pop), Instr::SetLocal(0), Instr::Call(pop), Instr::GetLocal(0)]
}

/// Code for a binary operation on the two top cells.
pub open spec fn binary_i32_code(pop: u32, push: u32, op: Instr) -> Seq<Instr> {
    seq![Instr::Call(pop), Instr::SetLocal(0), Instr::Call(pop), Instr::GetLocal(0), op, Instr::Call(push)]
}

/// Builds [`binary_i32_code`].
fn binary_i32(pop: u32, push: u32, op: Instr) -> (r: Vec<Instr>)
    ensures
        r@ == binary_i32_code(pop, push, op),

{
    let mut res = two_args(pop);
    res.push(op);
    res.push(Instr::Call(push));
    assert(res@ =~= seq![Instr::Call(pop), Instr::SetLocal(0), Instr::Call(pop), Instr::GetLocal(0), op, Instr::Call(push)]);
    res
}

/// Code for a comparison of the two top cells, pushing a Forth flag: 0 for
/// false, -1 for true.
pub open spec fn binary_bool_code(pop: u32, push: u32, op: Instr) -> Seq<Instr> {
    seq![
        Instr::I32Const(0), Instr::Call(pop), Instr::SetLocal(0), Instr::Call(pop), Instr::GetLocal(0),
        op, Instr::I32Sub, Instr::Call(push),
    ]
}

/// Builds [`binary_bool_code`].
fn binary_bool(pop: u32, push: u32, op: Instr) -> (r: Vec<Instr>)
    ensures
        r@ == binary_bool_code(pop, push, op),

{
    let mut res = vec![Instr::I32Const(0)];
    let mut args = two_args(pop);
    res.append(&mut args);
    res.push(op);
    res.push(Instr::I32Sub);
    res.push(Instr::Call(push));
    assert(res@ =~= seq![
        Instr::I32Const(0), Instr::Call(pop), Instr::SetLocal(0), Instr::Call(pop), Instr::GetLocal(0),
        op, Instr::I32Sub, Instr::Call(push),
    ]);
    res
}

impl Generator {
    /// Defines the arithmetic, logic and comparison words and the flag
    /// constants.
    #[verifier::rlimit(50)]
    fn define_math(&mut self)
        requires
            old(self).wf(),
        ensures
            final(self)@ == with_math_words(old(self)@),
            final(self).wf(),
            grows(old(self)@, final(self)@),
            math_words_defined(final(self)@),
    {
        reveal(with_math_words);
        reveal(math_words_defined);
        let push = self.push;
        let pop = self.pop;
        self.define_native_word("+", 0, binary_i32(pop, push, Instr::I32Add));
        self.define_native_word("-", 0, binary_i32(pop, push, Instr::I32Sub));
        self.define_native_word("*", 0, binary_i32(pop, push, Instr::I32Mul));

        self.define_native_word("/", 1, vec![
            Instr::Call(pop),
            Instr::TeeLocal(1), // store dividend for later
            Instr::Call(pop),
            Instr::TeeLocal(0), // store divisor as well

            // To find the "real" divisor, check if the signs mismatch
            Instr::I32Xor,
            Instr::I32Const(i32::MIN), // 0x80000000 (high bit set)
            Instr::I32And,

            Instr::If(BlockType::Value(ValType::I32)),
            // WASM has round-towards-0 semantics, forth has round-negative.
            // So make sure that |divisor| += |dividend|-1 to compensate.
            Instr::GetLocal(0),
            Instr::GetLocal(1),
            Instr::I32Sub, // divisor -= dividend means |divisor| += |dividend|

            Instr::I32Const(1),
            Instr::I32Const(-1),
            Instr::GetLocal(0),
            Instr::I32Const(i32::MIN),
            Instr::I32And,
            Instr::Select,
            Instr::I32Add, // divisor += -sign(divisor) means |divisor| -= 1

            Instr::Else, // if divisor and dividend have matching signs, just use divisor
            Instr::GetLocal(0),
            Instr::End,

            Instr::GetLocal(1),
            Instr::I32DivS,
            Instr::Call(push),
        ]);
        self.define_native_word("MOD", 1, vec![
            Instr::Call(pop),
            Instr::TeeLocal(1), // store dividend for later
            Instr::Call(pop),
            Instr::TeeLocal(0), // store divisor as well

            // To find the "real" mod, check if the signs mismatch
            Instr::I32Xor,
            Instr::I32Const(i32::MIN), // 0x80000000 (high bit set)
            Instr::I32And,

            Instr::If(BlockType::Value(ValType::I32)),
            // WASM has round-towards-0 semantics, forth has round-negative.
            // Add the dividend to the remainder to get the mod.
            Instr::GetLocal(0),
            Instr::GetLocal(1),
            Instr::I32RemS,
            Instr::GetLocal(1),
            Instr::I32Add,

            Instr::Else, // If the signs match, the remainder IS the mod.
            Instr::GetLocal(0),
            Instr::GetLocal(1),
            Instr::I32RemS,
            Instr::End,

            Instr::Call(push),
        ]);

        self.define_native_word(
            "MIN",
            1,
            vec![
                Instr::Call(pop),
                Instr::TeeLocal(0),
                Instr::Call(pop),
                Instr::TeeLocal(1),
                Instr::GetLocal(0),
                Instr::GetLocal(1),
                Instr::I32LtS,
                Instr::Select,
                Instr::Call(push),
            ],
        );
        self.define_native_word(
            "MAX",
            1,
            vec![
                Instr::Call(pop),
                Instr::TeeLocal(0),
                Instr::Call(pop),
                Instr::TeeLocal(1),
                Instr::GetLocal(0),
                Instr::GetLocal(1),
                Instr::I32GtS,
                Instr::Select,
                Instr::Call(push),
            ],
        );

        self.define_native_word("1+", 0, vec![Instr::Call(pop), Instr::I32Const(1), Instr::I32Add, Instr::Call(push)]);
        self.define_native_word("1-", 0, vec![Instr::Call(pop), Instr::I32Const(1), Instr::I32Sub, Instr::Call(push)]);

        self.define_native_word("AND", 0, binary_i32(pop, push, Instr::I32And));
        self.define_native_word("OR", 0, binary_i32(pop, push, Instr::I32Or));

        self.define_constant_word("FALSE", 0);
        self.define_constant_word("TRUE", -1);
        self.define_native_word(
            "INVERT",
            0,
            vec![
                Instr::I32Const(-1),
                Instr::I32Const(0),
                Instr::Call(pop),
                Instr::I32Eqz,
                Instr::Select,
                Instr::Call(push),
            ],
        );

        self.define_native_word("=", 0, binary_bool(pop, push, Instr::I32Eq));
        self.define_native_word("<>", 0, binary_bool(pop, push, Instr::I32Ne));
        self.define_native_word("<", 0, binary_bool(pop, push, Instr::I32LtS));
        self.define_native_word(">", 0, binary_bool(pop, push, Instr::I32GtS));
        self.define_native_word("<=", 0, binary_bool(pop, push, Instr::I32LeS));
        self.define_native_word(">=", 0, binary_bool(pop, push, Instr::I32GeS));
        self.define_native_word(
            "=0",
            0,
            vec![Instr::I32Const(0), Instr::Call(pop), Instr::I32Eqz, Instr::I32Sub, Instr::Call(push)],
        );
        self.define_native_word(
            "<>0",
            0,
            vec![
                Instr::I32Const(0),
                Instr::Call(pop),
                Instr::I32Const(0),
                Instr::I32Ne,
                Instr::I32Sub,
                Instr::Call(push),
            ],
        );
        self.define_native_word(
            "<0",
            0,
            vec![
                Instr::I32Const(0),
                Instr::Call(pop),
                Instr::I32Const(0),
                Instr::I32LtS,
                Instr::I32Sub,
                Instr::Call(push),
            ],
        );
        self.define_native_word(
            ">0",
            0,
            vec![
                Instr::I32Const(0),
                Instr::Call(pop),
                Instr::I32Const(0),
                Instr::I32GtS,
                Instr::I32Sub,
                Instr::Call(push),
            ],
        );
    }

    /// Defines the words every module starts with: stack, memory, execution
    /// and arithmetic words, and the dictionary's own variables.
    #[verifier::rlimit(50)]
    fn initialize(self) -> (r: Self)
        requires
            self.wf(),
        ensures
            r.wf(),
            grows(self@, r@),
            core_words_defined(r@),
            r@ == with_core_words(self@),
    {
        let mut g = self;
        g.define_stacks();
        let ghost s1 = g@;
        g.define_constants();
        g.define_variables();
        let ghost s3 = g@;
        proof { lemma_core_words_kept(s1, s3); }
        g.define_execution();
        let ghost s4 = g@;
        proof { lemma_core_words_kept(s1, s4); lemma_core_words_kept(s3, s4); }
        g.define_math();
        let ghost s5 = g@;
        proof {
            lemma_core_words_kept(s1, s5);
            lemma_core_words_kept(s3, s5);
            lemma_core_words_kept(s4, s5);
        }

        // Define CP and LAST-WORD variables now
        // We don't have their real values yet, but other code needs to reference them
        g.define_variable_word("CP", 0);
        g.define_variable_word("LAST-WORD", 0);
        proof {
            lemma_core_words_kept(s5, g@);
            reveal(core_words_defined);
        }
        g
    }

    /// Finishes the module; see [`finished`].
    fn finalize(self) -> (r: Self)
        requires
            self.wf(),
            ready_to_finish(self@),
        ensures
            r@ == finished(self@),
    {
        let mut g = self;
        let ghost c0 = g@;
        // For testing purposes, define a word that just calls another word and stops.
        let run_word = vec![ColonValue::XT("EXECUTE"), ColonValue::XT("STOP")];
        assert(run_word@ =~= seq![ColonValue::XT("EXECUTE"), ColonValue::XT("STOP")]);
        g.define_colon_word("RUN-WORD", run_word);
        let ghost c1 = g@;
        proof {
            let param = colon_code(
                seq![ColonValue::XT("EXECUTE"), ColonValue::XT("STOP")],
                add32(c0.cp, header_size(word_key("RUN-WORD"))),
                c0,
            ) + le32(c0.token("EXIT"));
            assert(c1 == c0.with_entry("RUN-WORD"@, c0.docol, param));
            lemma_with_entry_keeps(c0, "RUN-WORD"@, c0.docol, param);
        }
        assert(c1.defines("CP") && c1.defines("LAST-WORD") && c1.defines("RUN-WORD"));

        // Now that we're done adding things to the dictionary,
        // set values for CP (a var containing the next address in the dictionary)
        // and LAST-WORD (a var containing the address of the final word).
        let cp_storage_address = g.get_execution_token("CP").wrapping_add(4);
        let mut cp_bytes: Vec<u8> = Vec::new();
        push_cell(&mut cp_bytes, g.cp);
        assert(cp_bytes@ =~= le32(c1.cp));
        g.assembler.add_data(cp_storage_address, cp_bytes);

        let last_word_storage_address = g.get_execution_token("LAST-WORD").wrapping_add(4);
        let mut last_word_bytes: Vec<u8> = Vec::new();
        push_cell(&mut last_word_bytes, g.last_word_address);
        assert(last_word_bytes@ =~= le32(c1.last_word_address));
        g.assembler.add_data(last_word_storage_address, last_word_bytes);
        let ghost a1 = g@.assembler;

        // For testing, export every word as a function-which-EXECUTEs-that-word
        let run_xt = g.get_execution_token("RUN-WORD");
        let ghost words = all_words(c1);
        proof {
            g.execution_tokens.lemma_labels();
            assert(words.take(0) =~= Seq::<(Seq<char>, i32)>::empty());
        }
        let count = g.execution_tokens.len();
        let mut i: usize = 0;
        while i < count
            invariant
                g.wf(),
                g@ == (GeneratorSpec { assembler: g@.assembler, ..c1 }),
                count == c1.names.len(),
                c1.labels.len() == c1.names.len(),
                words == all_words(c1),
                i <= count,
                run_xt == c1.token("RUN-WORD"),
                g@.assembler == with_runners(a1, words.take(i as int), c1.push, c1.ip, c1.start, run_xt),
            decreases count - i,
        {
            let (label, xt) = g.execution_tokens.entry(i);
            let instructions = vec![
                Instr::I32Const(xt),
                Instr::Call(g.push), // Add the function to call onto the stack
                Instr::I32Const(run_xt.wrapping_add(4)),
                Instr::SetGlobal(g.ip), // Set the IP to within the "run this" func
                Instr::Call(g.start),   // start the main loop
                Instr::End,
            ];
            assert(instructions@ =~= runner_code(c1.push, c1.ip, c1.start, xt, run_xt));
            let func = g.assembler.add_native_func(Vec::new(), Vec::new(), Vec::new(), instructions);
            g.assembler.add_exported_func(label.as_str(), func);
            proof {
                assert(words[i as int] == (c1.labels[i as int], c1.tokens[c1.names[i as int]]));
                assert(words.take(i + 1).drop_last() =~= words.take(i as int));
                assert(words.take(i + 1).last() == words[i as int]);
            }
            i = i + 1;
        }
        assert(words.take(count as int) =~= words);
        assert(a1 == c1.assembler.with_data(add32(c1.token("CP"), 4), le32(c1.cp)).with_data(
            add32(c1.token("LAST-WORD"), 4),
            le32(c1.last_word_address),
        ));
        g
    }

    /// Finishes the module (see [`finished`]) and serializes it.
    pub fn compile(self) -> (r: Result<Vec<u8>, AssembleError>)
        requires
            self.wf(),
            ready_to_finish(self@),
        ensures
            match r {
                Ok(bytes) => wasm_binary(finished(self@).assembler.sections()) == Some(bytes@),
                Err(_) => wasm_binary(finished(self@).assembler.sections()) is None,
            },
    {
        self.finalize().assembler.compile()
    }
}

impl Default for Generator {
    /// A generator whose dictionary holds the core words, starting at
    /// [`DICTIONARY_BASE`].
    fn default() -> (r: Self)
        ensures
            r.wf(),
            core_words_defined(r@),
            r@ == default_generator(),
    {
        let mut assembler = Assembler::new();
        assembler.add_memory();
        let g = Generator {
            assembler,
            push: 0,
            pop: 0,
            push_r: 0,
            pop_r: 0,
            docon: 0,
            dovar: 0,
            docol: 0,
            start: 0,
            ip: 0,
            cp: DICTIONARY_BASE,
            last_word_address: 0,
            execution_tokens: TokenTable::new(),
        };
        assert(g@ == empty_generator());
        g.initialize()
    }
}

/// Law (token table): after an entry for `label` is added, its name maps to
/// the new entry's execution token and every other name keeps its token, so
/// a redefinition shadows the earlier one.
pub proof fn lemma_entry_token(c: GeneratorSpec, label: Seq<char>, code: u32, parameter: Seq<u8>, other: Seq<u8>)
    ensures
        ({
            let name = vstd::utf8::encode_utf8(label);
            let d = c.with_entry(label, code, parameter);
            &&& d.tokens.contains_key(name)
            &&& d.tokens[name] == entry_token(c.cp, name)
            &&& d.last_word_address == c.cp
            &&& other != name ==> (d.tokens.contains_key(other) == c.tokens.contains_key(other))
            &&& other != name && c.tokens.contains_key(other) ==> d.tokens[other] == c.tokens[other]
        }),
{
    reveal(GeneratorSpec::with_entry);
}

/// Law (item placement): the compiler's running address after an item of a
/// colon definition is the item's address plus its size, so the absolute
/// jump targets it computes are counted from the end of the branch item as
/// written.
pub proof fn lemma_colon_item_size(v: ColonValue, cp: i32, c: GeneratorSpec)
    ensures
        ({
            let (bytes, next) = colon_item(v, cp, c);
            &&& next == add32(cp, bytes.len() as i32)
            &&& bytes.len() % 4 == 0
            &&& (v is Branch ==> bytes.subrange(4, 8) == le32(add32(next, v->Branch_0)))
            &&& (v is QBranch ==> bytes.subrange(4, 8) == le32(add32(next, v->QBranch_0)))
        }),
{
    vstd::bytes::lemma_auto_spec_u32_to_from_le_bytes();
    let (bytes, next) = colon_item(v, cp, c);
    match v {
        ColonValue::XT(name) => {
            assert(le32(c.token(name)).len() == 4);
        },
        ColonValue::Lit(value) => {
            assert(le32(c.token("LIT")).len() == 4);
            assert(le32(value).len() == 4);
        },
        ColonValue::Branch(offset) => {
            assert(le32(c.token("BRANCH")).len() == 4);
            assert(bytes.subrange(4, 8) =~= le32(add32(next, offset)));
        },
        ColonValue::QBranch(offset) => {
            assert(le32(c.token("?BRANCH")).len() == 4);
            assert(bytes.subrange(4, 8) =~= le32(add32(next, offset)));
        },
    }
}

/// Adding runner functions keeps the module's data, table, globals and
/// memory, and appends one export per word, under the word's name, after the
/// existing exports.
pub proof fn lemma_runners(
    a: AssemblerSpec,
    words: Seq<(Seq<char>, i32)>,
    push: u32,
    ip: u32,
    start: u32,
    run_xt: i32,
)
    ensures
        ({
            let r = with_runners(a, words, push, ip, start, run_xt);
            &&& r.data == a.data
            &&& r.table == a.table
            &&& r.globals == a.globals
            &&& r.memory == a.memory
            &&& r.exports.len() == a.exports.len() + words.len()
            &&& forall|i: int| 0 <= i < a.exports.len() ==> #[trigger] r.exports[i] == a.exports[i]
            &&& forall|i: int| 0 <= i < words.len() ==> #[trigger] r.exports[a.exports.len() + i].0 == words[i].0
        }),
    decreases words.len(),
{
    if words.len() > 0 {
        lemma_runners(a, words.drop_last(), push, ip, start, run_xt);
        let prev = with_runners(a, words.drop_last(), push, ip, start, run_xt);
        let r = with_runners(a, words, push, ip, start, run_xt);
        assert forall|i: int| 0 <= i < words.len() implies #[trigger] r.exports[a.exports.len() + i].0
            == words[i].0 by {
            if i < words.len() - 1 {
                assert(words.drop_last()[i] == words[i]);
                assert(r.exports[a.exports.len() + i] == prev.exports[a.exports.len() + i]);
            }
        }
    }
}

/// Law (finishing): finishing adds `RUN-WORD` as the last entry of the
/// dictionary; after every entry's data it writes the final end of the
/// dictionary into the cell of `CP` and the address of the last entry into
/// the cell of `LAST-WORD`; and it exports every word, in the order first
/// defined, under its name.
pub proof fn lemma_finished(c: GeneratorSpec)
    ensures
        ({
            let param = colon_code(
                seq![ColonValue::XT("EXECUTE"), ColonValue::XT("STOP")],
                add32(c.cp, header_size(word_key("RUN-WORD"))),
                c,
            ) + le32(c.token("EXIT"));
            let c1 = c.with_entry("RUN-WORD"@, c.docol, param);
            let f = finished(c);
            let base = c1.assembler.exports.len();
            let words = all_words(c1);
            &&& f.tokens == c1.tokens
            &&& f.cp == c1.cp
            &&& f.last_word_address == c.cp
            &&& f.assembler.data == c1.assembler.data.push(
                DataSpec { offset: add32(c1.token("CP"), 4), bytes: le32(c1.cp) },
            ).push(DataSpec { offset: add32(c1.token("LAST-WORD"), 4), bytes: le32(c.cp) })
            &&& f.assembler.exports.len() == base + words.len()
            &&& forall|i: int| 0 <= i < words.len() ==> #[trigger] f.assembler.exports[base + i].0 == words[i].0
        }),
{
    let param = colon_code(
        seq![ColonValue::XT("EXECUTE"), ColonValue::XT("STOP")],
        add32(c.cp, header_size(word_key("RUN-WORD"))),
        c,
    ) + le32(c.token("EXIT"));
    let c1 = c.with_entry("RUN-WORD"@, c.docol, param);
    lemma_with_entry_keeps(c, "RUN-WORD"@, c.docol, param);
    lemma_entry_token(c, "RUN-WORD"@, c.docol, param, seq![]);
    let a1 = c1.assembler.with_data(add32(c1.token("CP"), 4), le32(c1.cp)).with_data(
        add32(c1.token("LAST-WORD"), 4),
        le32(c1.last_word_address),
    );
    lemma_runners(a1, all_words(c1), c.push, c.ip, c.start, c1.token("RUN-WORD"));
}

} // verus!
