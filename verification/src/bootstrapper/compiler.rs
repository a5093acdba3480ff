//! The compiler that builds the bootstrap Forth interpreter: a dictionary of
//! words laid out in linear memory, native words written in WebAssembly, and
//! colon words threaded through execution tokens.
//!
//! Dictionary entry layout, starting at a 4-aligned address `a`:
//! a length byte, the name's bytes, zero padding up to a multiple of 4, the
//! address of the previous entry, the code cell (a table index) and then the
//! entry's parameter bytes. The execution token of the entry is the address of
//! its code cell.
use vstd::prelude::*;
use vstd::string::StringSliceAdditionalSpecFns;
use crate::assembler::{Assembler, AssemblerSpec, AssembleError, NativeSpec};
use crate::layout::{add32, aligned, align, le32, padding, push_bytes, push_cell, push_zeros, required_padding, sub32, zeros};
use crate::tokens::TokenTable;
use crate::wasm::{BlockType, DataSpec, FuncTypeSpec, ImportSpec, Instr, ValType};
use crate::lowering::wasm_binary;

verus! {

/// One item of a colon definition.
pub enum ColonValue {
    /// Run the named word.
    XT(&'static str),
    /// Push a number.
    Lit(i32),
    /// Push the address and length of a string stored inline.
    StringLit(String),
    /// Jump by the given number of bytes, counted from the end of this item.
    Branch(i32),
    /// Pop a flag and jump like `Branch` when it is zero.
    QBranch(i32),
}

/// The type of a parameter or result of an imported function.
#[derive(Clone, Copy, PartialEq, Eq, Debug, Structural)]
pub enum ParamType {
    I32,
    I64,
}

/// The bytes of a string.
pub open spec fn string_bytes(s: String) -> Seq<u8> {
    vstd::utf8::encode_utf8(s@)
}

/// The number of stack bytes a value of type `t` occupies.
pub open spec fn param_bytes(t: ParamType) -> u32 {
    match t {
        ParamType::I32 => 4,
        ParamType::I64 => 8,
    }
}

/// The WebAssembly value type of `t`.
pub open spec fn value_type(t: ParamType) -> ValType {
    match t {
        ParamType::I32 => ValType::I32,
        ParamType::I64 => ValType::I64,
    }
}

/// Code reading a value of type `t` from `offset` past the address on top
/// of the WebAssembly operand stack. A double cell is stored high cell first,
/// so its two halves are swapped after loading.
pub open spec fn load_code(t: ParamType, offset: u32) -> Seq<Instr> {
    match t {
        ParamType::I32 => seq![Instr::I32Load(2, offset)],
        ParamType::I64 => seq![Instr::I64Load(2, offset), Instr::I64Const(32), Instr::I64Rotl],
    }
}

/// Code writing a value of type `t` to `offset` past an address; the inverse
/// of [`load_code`].
pub open spec fn store_code(t: ParamType, offset: u32) -> Seq<Instr> {
    match t {
        ParamType::I32 => seq![Instr::I32Store(2, offset)],
        ParamType::I64 => seq![Instr::I64Const(32), Instr::I64Rotl, Instr::I64Store(2, offset)],
    }
}

impl ParamType {
    /// The number of stack bytes a value of this type occupies.
    pub(crate) fn bytes(&self) -> (r: u32)
        ensures
            r == param_bytes(*self),
    {
        match self {
            ParamType::I32 => 4,
            ParamType::I64 => 8,
        }
    }

    /// Appends code reading a value of this type at `offset`.
    pub(crate) fn load(&self, offset: u32, instructions: &mut Vec<Instr>)
        ensures
            final(instructions)@ == old(instructions)@ + load_code(*self, offset),
    {
        match self {
            ParamType::I32 => instructions.push(Instr::I32Load(2, offset)),
            ParamType::I64 => {
                instructions.push(Instr::I64Load(2, offset));
                instructions.push(Instr::I64Const(32));
                instructions.push(Instr::I64Rotl);
            },
        }
        assert(instructions@ =~= old(instructions)@ + load_code(*self, offset));
    }

    /// Appends code writing a value of this type at `offset`.
    pub(crate) fn store(&self, offset: u32, instructions: &mut Vec<Instr>)
        ensures
            final(instructions)@ == old(instructions)@ + store_code(*self, offset),
    {
        match self {
            ParamType::I32 => instructions.push(Instr::I32Store(2, offset)),
            ParamType::I64 => {
                instructions.push(Instr::I64Const(32));
                instructions.push(Instr::I64Rotl);
                instructions.push(Instr::I64Store(2, offset));
            },
        }
        assert(instructions@ =~= old(instructions)@ + store_code(*self, offset));
    }
}

/// Where the dictionary starts in linear memory.
pub const DICTIONARY_BASE: i32 = 0x1000;
/// Where the parameter stack starts; it grows down.
pub const PARAM_STACK_BASE: i32 = 0xef00;
/// Where the return stack starts; it grows down.
pub const RETURN_STACK_BASE: i32 = 0xf000;
/// Where the heap starts.
pub const HEAP_BASE: i32 = 0xf100;
/// The room between the dictionary base and the parameter stack.
pub const DICTIONARY_CAPACITY: i32 = 0xdf00;

/// The size of a dictionary header for `name`: length byte and name padded
/// to a multiple of 4, then the link cell and the code cell.
pub open spec fn header_size(name: Seq<u8>) -> i32 {
    add32(add32(aligned(add32(1, name.len() as i32)), 4), 4)
}

/// The bytes of a dictionary entry: length byte, name, padding, link to the
/// previous entry, code cell, parameter.
pub open spec fn entry_bytes(name: Seq<u8>, link: i32, code: u32, parameter: Seq<u8>) -> Seq<u8> {
    seq![name.len() as u8] + name + zeros(padding(add32(1, name.len() as i32)) as int) + le32(link)
        + le32(code as i32) + parameter
}

/// The execution token of an entry for `name` placed at `address`.
pub open spec fn entry_token(address: i32, name: Seq<u8>) -> i32 {
    sub32(add32(address, header_size(name)), 4)
}

/// The bytes and the following dictionary address of one colon-definition
/// item placed at `cp`, where `c` supplies the execution tokens.
///
/// A string literal is laid out as a branch over the string's bytes (padded
/// to a multiple of 4) followed by two literals pushing the address of those
/// bytes and their length.
pub open spec fn colon_item(v: ColonValue, cp: i32, c: CompilerSpec) -> (Seq<u8>, i32) {
    match v {
        ColonValue::XT(name) => (le32(c.token(name)), add32(cp, 4)),
        ColonValue::Lit(value) => (le32(c.token("LIT")) + le32(value), add32(cp, 8)),
        ColonValue::StringLit(s) => {
            let data_start = add32(cp, 8);
            let data_len = string_bytes(s).len() as i32;
            let pad = padding(data_len);
            let target = add32(add32(data_start, data_len), pad);
            (
                le32(c.token("BRANCH")) + le32(target) + string_bytes(s) + zeros(pad as int)
                    + le32(c.token("LIT")) + le32(data_start) + le32(c.token("LIT")) + le32(data_len),
                add32(target, 16),
            )
        },
        ColonValue::Branch(offset) => {
            let next = add32(cp, 8);
            (le32(c.token("BRANCH")) + le32(add32(next, offset)), next)
        },
        ColonValue::QBranch(offset) => {
            let next = add32(cp, 8);
            (le32(c.token("?BRANCH")) + le32(add32(next, offset)), next)
        },
    }
}

/// The compiled items of a colon definition whose first item is placed at `cp`.
pub open spec fn colon_code(values: Seq<ColonValue>, cp: i32, c: CompilerSpec) -> Seq<u8>
    decreases values.len(),
{
    if values.len() == 0 {
        seq![]
    } else {
        let (bytes, next) = colon_item(values[0], cp, c);
        bytes + colon_code(values.drop_first(), next, c)
    }
}

/// Every word a colon definition refers to by name is defined, as are the
/// words its compiled form uses.
pub open spec fn colon_words_defined(values: Seq<ColonValue>, c: CompilerSpec) -> bool {
    &&& c.defines("LIT")
    &&& c.defines("BRANCH")
    &&& c.defines("?BRANCH")
    &&& c.defines("EXIT")
    &&& forall|i: int|
        0 <= i < values.len() ==> match #[trigger] values[i] {
            ColonValue::XT(name) => c.defines(name),
            _ => true,
        }
}

/// The total number of stack bytes of `ts`.
pub open spec fn total_bytes(ts: Seq<ParamType>) -> nat
    decreases ts.len(),
{
    if ts.len() == 0 {
        0
    } else {
        total_bytes(ts.drop_last()) + param_bytes(ts.last()) as nat
    }
}

/// The stack offset of the `i`-th value of `ts` when the last value is on top
/// of the stack: the bytes of the values after it.
pub open spec fn stack_offset(ts: Seq<ParamType>, i: int) -> u32 {
    (total_bytes(ts) - total_bytes(ts.take(i + 1))) as u32
}

/// Code passing the first `n` parameters to an import: each is read from the
/// stack at its offset, the address of the stack head kept in local 0.
pub open spec fn params_code(params: Seq<ParamType>, n: int) -> Seq<Instr>
    decreases n,
{
    if n <= 0 {
        seq![]
    } else {
        let i = n - 1;
        let reload = if i > 0 { seq![Instr::GetLocal(0)] } else { seq![] };
        params_code(params, i) + reload + load_code(params[i], stack_offset(params, i))
    }
}

/// `take` of one more value adds that value's bytes.
pub proof fn lemma_total_bytes_take(ts: Seq<ParamType>, k: int)
    requires
        0 <= k < ts.len(),
    ensures
        total_bytes(ts.take(k + 1)) == total_bytes(ts.take(k)) + param_bytes(ts[k]),
{
    assert(ts.take(k + 1).drop_last() =~= ts.take(k));
}

/// A prefix occupies no more bytes than the whole sequence.
pub proof fn lemma_total_bytes_prefix(ts: Seq<ParamType>, k: int)
    requires
        0 <= k <= ts.len(),
    ensures
        total_bytes(ts.take(k)) <= total_bytes(ts),
    decreases ts.len() - k,
{
    if k < ts.len() {
        lemma_total_bytes_take(ts, k);
        lemma_total_bytes_prefix(ts, k + 1);
    } else {
        assert(ts.take(k) =~= ts);
    }
}

/// Law (import stack effect): the values of an import's signature sit on the
/// Forth stack in signature order, the last one on top: each value's offset
/// from the stack head is the size of the values after it, so the last one
/// is at offset 0 and the first one right below the whole group's size.
pub proof fn lemma_stack_offsets(ts: Seq<ParamType>, i: int)
    requires
        0 <= i < ts.len(),
        total_bytes(ts) <= i32::MAX,
    ensures
        stack_offset(ts, i) + param_bytes(ts[i]) + total_bytes(ts.take(i)) == total_bytes(ts),
        i == ts.len() - 1 ==> stack_offset(ts, i) == 0,
        i == 0 ==> stack_offset(ts, i) == total_bytes(ts) - param_bytes(ts[0]),
{
    lemma_total_bytes_take(ts, i);
    lemma_total_bytes_prefix(ts, i + 1);
    assert(ts.take(0) =~= Seq::<ParamType>::empty());
    assert(ts.take(ts.len() as int) =~= ts);
}

/// Each value occupies at most 8 bytes.
pub proof fn lemma_total_bytes_bound(ts: Seq<ParamType>)
    ensures
        total_bytes(ts) <= 8 * ts.len(),
    decreases ts.len(),
{
    if ts.len() > 0 {
        lemma_total_bytes_bound(ts.drop_last());
    }
}

/// The value types of `ts`, in order.
pub open spec fn value_types(ts: Seq<ParamType>) -> Seq<ValType> {
    ts.map_values(|t: ParamType| value_type(t))
}

/// The local holding a result of type `t` while it is stored.
pub open spec fn result_local(t: ParamType) -> u32 {
    match t {
        ParamType::I32 => 1,
        ParamType::I64 => 2,
    }
}

/// Code storing the last `n` results of an import (the last one first), each
/// at its offset from the new stack head in local 0.
pub open spec fn results_code(results: Seq<ParamType>, n: int) -> Seq<Instr>
    decreases n,
{
    if n <= 0 {
        seq![]
    } else {
        let i = results.len() - n;
        let t = results[i];
        results_code(results, n - 1) + seq![
            Instr::SetLocal(result_local(t)),
            Instr::GetLocal(0),
            Instr::GetLocal(result_local(t)),
        ] + store_code(t, stack_offset(results, i))
    }
}

/// The body of the native word that calls import `func` with values taken
/// from the Forth stack (whose pointer is global `stack`) and leaves its
/// results there, the stack pointer moved by the difference in size.
pub open spec fn import_call_code(
    stack: u32,
    func: u32,
    params: Seq<ParamType>,
    results: Seq<ParamType>,
) -> Seq<Instr> {
    let head = if params.len() > 0 {
        seq![Instr::GetGlobal(stack), Instr::TeeLocal(0)] + params_code(params, params.len() as int)
    } else {
        seq![]
    };
    let delta = total_bytes(params) as i32 - total_bytes(results) as i32;
    let adjust = if total_bytes(params) != total_bytes(results) {
        (if params.len() > 0 { seq![Instr::GetLocal(0)] } else { seq![Instr::GetGlobal(stack)] })
            + seq![Instr::I32Const(delta as i32), Instr::I32Add]
            + (if results.len() > 0 { seq![Instr::TeeLocal(0)] } else { seq![] })
            + seq![Instr::SetGlobal(stack)]
    } else {
        seq![]
    };
    head + seq![Instr::Call(func)] + adjust + results_code(results, results.len() as int)
}

/// The stack words are defined.
#[verifier::opaque]
pub open spec fn stack_words_defined(c: CompilerSpec) -> bool {
    &&& c.defines("DUP")
    &&& c.defines("?DUP")
    &&& c.defines("2DUP")
    &&& c.defines("DROP")
    &&& c.defines("2DROP")
    &&& c.defines("SWAP")
    &&& c.defines("2SWAP")
    &&& c.defines("OVER")
    &&& c.defines("2OVER")
    &&& c.defines("NIP")
    &&& c.defines("TUCK")
    &&& c.defines("ROT")
    &&& c.defines("-ROT")
    &&& c.defines("PICK")
    &&& c.defines("DEPTH")
    &&& c.defines(">R")
    &&& c.defines("R>")
    &&& c.defines("R@")
    &&& c.defines("R-DEPTH")
}

/// The memory words are defined.
#[verifier::opaque]
pub open spec fn memory_words_defined(c: CompilerSpec) -> bool {
    &&& c.defines("(DOCON)")
    &&& c.defines("(DOVAR)")
    &&& c.defines("!")
    &&& c.defines("@")
    &&& c.defines("+!")
    &&& c.defines("C!")
    &&& c.defines("C@")
    &&& c.defines("HEAP-BASE")
    &&& c.defines("MEMORY.SIZE")
    &&& c.defines("MEMORY.GROW")
}

/// The execution words are defined.
#[verifier::opaque]
pub open spec fn execution_words_defined(c: CompilerSpec) -> bool {
    &&& c.defines("EXECUTE")
    &&& c.defines("BYE")
    &&& c.defines("(DOCOL)")
    &&& c.defines("EXIT")
    &&& c.defines("(DODOES)")
    &&& c.defines("LIT")
    &&& c.defines("BRANCH")
    &&& c.defines("?BRANCH")
}

/// Arithmetic words are defined.
#[verifier::opaque]
pub open spec fn arithmetic_words_defined(c: CompilerSpec) -> bool {
    &&& c.defines("+")
    &&& c.defines("-")
    &&& c.defines("*")
    &&& c.defines("NEGATE")
    &&& c.defines("ABS")
    &&& c.defines("S>D")
    &&& c.defines("D>S")
    &&& c.defines("M+")
    &&& c.defines("D+")
    &&& c.defines("D-")
    &&& c.defines("DABS")
    &&& c.defines("DNEGATE")
    &&& c.defines("M*")
    &&& c.defines("UM*")
    &&& c.defines("D*")
    &&& c.defines("UD*")
    &&& c.defines("UM/MOD")
    &&& c.defines("/MOD")
    &&& c.defines("/")
    &&& c.defines("MOD")
    &&& c.defines("U/MOD")
    &&& c.defines("SM/REM")
    &&& c.defines("FM/MOD")
    &&& c.defines("UD/MOD")
}

/// Minimum, maximum, increment and bitwise words are defined.
#[verifier::opaque]
pub open spec fn bit_logic_words_defined(c: CompilerSpec) -> bool {
    &&& c.defines("MIN")
    &&& c.defines("MAX")
    &&& c.defines("DMIN")
    &&& c.defines("DMAX")
    &&& c.defines("1+")
    &&& c.defines("1-")
    &&& c.defines("INVERT")
    &&& c.defines("AND")
    &&& c.defines("OR")
    &&& c.defines("XOR")
    &&& c.defines("LSHIFT")
    &&& c.defines("RSHIFT")
    &&& c.defines("ARSHIFT")
    &&& c.defines("CSET")
    &&& c.defines("CRESET")
    &&& c.defines("CTOGGLE")
    &&& c.defines("2*")
    &&& c.defines("D2*")
    &&& c.defines("2/")
    &&& c.defines("D2/")
}

/// Flag constants and comparison words are defined.
#[verifier::opaque]
pub open spec fn comparison_words_defined(c: CompilerSpec) -> bool {
    &&& c.defines("FALSE")
    &&& c.defines("TRUE")
    &&& c.defines("=")
    &&& c.defines("D=")
    &&& c.defines("<>")
    &&& c.defines("D<>")
    &&& c.defines("<")
    &&& c.defines("U<")
    &&& c.defines("D<")
    &&& c.defines(">")
    &&& c.defines("U>")
    &&& c.defines("D>")
    &&& c.defines("<=")
    &&& c.defines("U<=")
    &&& c.defines("D<=")
    &&& c.defines(">=")
    &&& c.defines("U>=")
    &&& c.defines("D>=")
    &&& c.defines("=0")
    &&& c.defines("<>0")
    &&& c.defines("<0")
    &&& c.defines(">0")
}

/// The arithmetic and logic words are defined.
#[verifier::opaque]
pub open spec fn math_words_defined(c: CompilerSpec) -> bool {
    &&& arithmetic_words_defined(c)
    &&& bit_logic_words_defined(c)
    &&& comparison_words_defined(c)
}

/// What `a` defines of the arithmetic and logic words, `b` still defines when
/// it grows from `a`.
pub proof fn lemma_math_words_kept(a: CompilerSpec, b: CompilerSpec)
    requires
        grows(a, b),
    ensures
        arithmetic_words_defined(a) ==> arithmetic_words_defined(b),
        bit_logic_words_defined(a) ==> bit_logic_words_defined(b),
        comparison_words_defined(a) ==> comparison_words_defined(b),
        math_words_defined(a) ==> math_words_defined(b),
{
    reveal(arithmetic_words_defined);
    reveal(bit_logic_words_defined);
    reveal(comparison_words_defined);
    reveal(math_words_defined);
}

/// Every name `a` defines is still defined in `b`.
pub open spec fn grows(a: CompilerSpec, b: CompilerSpec) -> bool {
    forall|k: Seq<u8>| #[trigger] a.tokens.contains_key(k) ==> b.tokens.contains_key(k)
}

/// The code of a function that runs the word with execution token `xt`: it
/// pushes `xt`, points the instruction pointer into `RUN-WORD` (whose token is
/// `run_xt`) and starts the main loop.
pub open spec fn runner_code(push: u32, ip: u32, start: u32, xt: i32, run_xt: i32) -> Seq<Instr> {
    seq![
        Instr::I32Const(xt),
        Instr::Call(push),
        Instr::I32Const(add32(run_xt, 4)),
        Instr::SetGlobal(ip),
        Instr::Call(start),
        Instr::End,
    ]
}

/// The module after adding, for each `(name, xt)` of `words` in order, a
/// function running that word, exported as `name`.
pub open spec fn with_runners(
    a: AssemblerSpec,
    words: Seq<(Seq<char>, i32)>,
    push: u32,
    ip: u32,
    start: u32,
    run_xt: i32,
) -> AssemblerSpec
    decreases words.len(),
{
    if words.len() == 0 {
        a
    } else {
        let prev = with_runners(a, words.drop_last(), push, ip, start, run_xt);
        let word = words.last();
        prev.with_native(seq![], seq![], seq![], runner_code(push, ip, start, word.1, run_xt)).with_export(
            word.0,
            prev.next_func_id(),
        )
    }
}

/// The words a finished module exports: every word, in the order first
/// defined, when the compiler exports all words; otherwise only `_start`.
pub open spec fn exported_words(c: CompilerSpec) -> Seq<(Seq<char>, i32)> {
    if c.export_all {
        Seq::new(c.labels.len(), |i: int| (c.labels[i], c.tokens[c.names[i]]))
    } else {
        seq![("_start"@, c.token("_start"))]
    }
}

/// What a compiler needs before it can finish its module.
pub open spec fn ready_to_finish(c: CompilerSpec) -> bool {
    &&& colon_words_defined(seq![ColonValue::XT("EXECUTE"), ColonValue::XT("BYE")], c)
    &&& c.defines("EXECUTE")
    &&& c.defines("BYE")
    &&& c.defines("CP")
    &&& c.defines("LATEST")
    &&& (!c.export_all ==> c.defines("_start"))
}

/// The compiler after finishing its module: `RUN-WORD` (run a word, then
/// stop) is defined; the cells of `CP` and `LATEST` are set to the end of the
/// dictionary and the address of its last entry; the stack functions are
/// exported when all words are; and every exported word gets a function
/// running it.
pub open spec fn finished(c: CompilerSpec) -> CompilerSpec {
    let c1 = c.with_colon_word("RUN-WORD", seq![ColonValue::XT("EXECUTE"), ColonValue::XT("BYE")]);
    let a1 = c1.assembler.with_data(add32(c1.token("CP"), 4), le32(c1.cp)).with_data(
        add32(c1.token("LATEST"), 4),
        le32(c1.latest_address),
    );
    let a2 = if c.export_all {
        a1.with_export("push"@, c.push).with_export("pop"@, c.pop).with_export("push_d"@, c.push_d).with_export(
            "pop_d"@,
            c.pop_d,
        )
    } else {
        a1
    };
    CompilerSpec {
        assembler: with_runners(a2, exported_words(c1), c.push, c.ip, c.start, c1.token("RUN-WORD")),
        ..c1
    }
}

/// The words the compiler defines when it is created.
#[verifier::opaque]
pub open spec fn core_words_defined(c: CompilerSpec) -> bool {
    &&& stack_words_defined(c)
    &&& memory_words_defined(c)
    &&& execution_words_defined(c)
    &&& math_words_defined(c)
    &&& c.defines("DICT-BASE")
    &&& c.defines("DICT-CAPACITY")
    &&& c.defines("CP")
    &&& c.defines("LATEST")
}

/// What `a` defines of the core words, `b` still defines when it grows from `a`.
pub proof fn lemma_core_words_kept(a: CompilerSpec, b: CompilerSpec)
    requires
        grows(a, b),
    ensures
        stack_words_defined(a) ==> stack_words_defined(b),
        memory_words_defined(a) ==> memory_words_defined(b),
        execution_words_defined(a) ==> execution_words_defined(b),
        math_words_defined(a) ==> math_words_defined(b),
        core_words_defined(a) ==> core_words_defined(b),
{
    reveal(stack_words_defined);
    reveal(memory_words_defined);
    reveal(execution_words_defined);
    lemma_math_words_kept(a, b);
    reveal(core_words_defined);
}

/// A dictionary entry placed at a multiple of 4, with a parameter whose
/// length is a multiple of 4, ends at a multiple of 4 and has an execution
/// token that is a multiple of 4.
proof fn lemma_entry_aligned(cp: i32, name: Seq<u8>, link: i32, code: u32, parameter: Seq<u8>)
    requires
        cp % 4 == 0,
        parameter.len() % 4 == 0,
        entry_bytes(name, link, code, parameter).len() <= usize::MAX,
    ensures
        add32(cp, entry_bytes(name, link, code, parameter).len() as i32) % 4 == 0,
        entry_token(cp, name) % 4 == 0,
{
    let n = name.len() as usize;
    crate::layout::lemma_le32(link);
    crate::layout::lemma_le32(code as i32);
    crate::layout::lemma_name_field(n);
    crate::layout::lemma_padding(add32(1, name.len() as i32));
    let len = entry_bytes(name, link, code, parameter).len();
    assert(name.len() == n);
    assert(len == 1 + name.len() + padding(add32(1, name.len() as i32)) + 8 + parameter.len());
    crate::layout::lemma_advance_aligned(cp, len as usize);
    crate::layout::lemma_cell_before_aligned(cp, header_size(name));
}

/// Every compiled item of a colon definition takes a multiple of 4 bytes.
proof fn lemma_colon_item_aligned(v: ColonValue, cp: i32, c: CompilerSpec)
    requires
        v is StringLit ==> string_bytes(v->StringLit_0).len() <= usize::MAX,
    ensures
        colon_item(v, cp, c).0.len() % 4 == 0,
{
    match v {
        ColonValue::XT(name) => {
            crate::layout::lemma_le32(c.token(name));
        },
        ColonValue::Lit(value) => {
            crate::layout::lemma_le32(c.token("LIT"));
            crate::layout::lemma_le32(value);
        },
        ColonValue::StringLit(s) => {
            let len = string_bytes(s).len();
            let data_start = add32(cp, 8);
            let pad = padding(len as i32);
            let target = add32(add32(data_start, len as i32), pad);
            crate::layout::lemma_len_cast_mod4(len as usize);
            crate::layout::lemma_padding(len as i32);
            crate::layout::lemma_le32(c.token("BRANCH"));
            crate::layout::lemma_le32(target);
            crate::layout::lemma_le32(c.token("LIT"));
            crate::layout::lemma_le32(data_start);
            crate::layout::lemma_le32(len as i32);
        },
        ColonValue::Branch(offset) => {
            crate::layout::lemma_le32(c.token("BRANCH"));
            crate::layout::lemma_le32(add32(add32(cp, 8), offset));
        },
        ColonValue::QBranch(offset) => {
            crate::layout::lemma_le32(c.token("?BRANCH"));
            crate::layout::lemma_le32(add32(add32(cp, 8), offset));
        },
    }
}

/// The key under which the token of `name` is recorded: the bytes of the name.
#[verifier::opaque]
pub open spec fn word_key(name: &str) -> Seq<u8> {
    name.spec_bytes()
}

/// The mathematical value of a [`Compiler`].
pub struct CompilerSpec {
    pub assembler: AssemblerSpec,
    pub stack: u32,
    pub push: u32,
    pub pop: u32,
    pub push_d: u32,
    pub pop_d: u32,
    pub push_r: u32,
    pub pop_r: u32,
    pub docon: u32,
    pub dovar: u32,
    pub docol: u32,
    pub start: u32,
    pub ip: u32,
    pub cp: i32,
    pub latest_address: i32,
    pub tokens: Map<Seq<u8>, i32>,
    pub names: Seq<Seq<u8>>,
    pub labels: Seq<Seq<char>>,
    pub export_all: bool,
    /// The code given to each native word, by name: the instructions its
    /// function runs before `end`.
    pub codes: Map<Seq<char>, Seq<Instr>>,
    /// The program given to each colon word, by name: what it runs before
    /// `EXIT`.
    pub colons: Map<Seq<char>, Seq<ColonValue>>,
}

impl CompilerSpec {
    /// The state after adding a dictionary entry for `name` with the given code
    /// cell and parameter at the end of the dictionary.
    #[verifier::opaque]
    pub open spec fn with_entry(self, label: Seq<char>, code: u32, parameter: Seq<u8>) -> CompilerSpec {
        let name = vstd::utf8::encode_utf8(label);
        let bytes = entry_bytes(name, self.latest_address, code, parameter);
        CompilerSpec {
            assembler: AssemblerSpec {
                data: self.assembler.data.push(DataSpec { offset: self.cp, bytes }),
                ..self.assembler
            },
            cp: add32(self.cp, bytes.len() as i32),
            latest_address: self.cp,
            tokens: self.tokens.insert(name, entry_token(self.cp, name)),
            names: if self.names.contains(name) {
                self.names
            } else {
                self.names.push(name)
            },
            labels: if self.names.contains(name) {
                self.labels
            } else {
                self.labels.push(label)
            },
            ..self
        }
    }

    /// The state after adding a native word `name` whose code is a new function
    /// taking the address of its parameter and an immediate, with the given
    /// locals and `instructions` followed by `end`, reached through a new slot
    /// of the function table.
    #[verifier::opaque]
    pub open spec fn with_native_word(self, name: Seq<char>, locals: Seq<ValType>, instructions: Seq<Instr>) -> CompilerSpec {
        let code = self.assembler.table.len() as u32;
        CompilerSpec {
            assembler: self.callable_assembler(locals, instructions),
            codes: self.codes.insert(name, instructions),
            ..self
        }.with_entry(name, code, seq![])
    }

    /// The module after adding a native callable: a new function taking the
    /// address of its parameter and an immediate, and a table slot for it.
    pub open spec fn callable_assembler(self, locals: Seq<ValType>, instructions: Seq<Instr>) -> AssemblerSpec {
        self.assembler.with_native(
            seq![ValType::I32, ValType::I32],
            seq![],
            locals,
            instructions.push(Instr::End),
        ).with_table_entry(self.assembler.next_func_id())
    }

    /// The state after defining `name` as a native word that calls the function
    /// imported as `module`.`field` with the given parameter and result types.
    #[verifier::opaque]
    pub open spec fn with_imported_word(
        self,
        name: Seq<char>,
        module: Seq<char>,
        field: Seq<char>,
        params: Seq<ParamType>,
        results: Seq<ParamType>,
    ) -> CompilerSpec {
        let func = self.assembler.next_func_id();
        let imported = CompilerSpec {
            assembler: self.assembler.with_import(module, field, value_types(params), value_types(results)),
            ..self
        };
        let locals = if results.len() == 0 { seq![] } else { seq![ValType::I64] };
        imported.with_native_word(name, locals, import_call_code(self.stack, func, params, results))
    }

    /// The state after defining `name` as a constant pushing `value`.
    pub open spec fn with_constant(self, name: Seq<char>, value: i32) -> CompilerSpec {
        self.with_entry(name, self.docon, le32(value))
    }

    /// The state after defining `name` as a variable whose cell starts as
    /// `value`.
    pub open spec fn with_variable(self, name: Seq<char>, value: i32) -> CompilerSpec {
        self.with_entry(name, self.dovar, le32(value))
    }

    /// The state after defining `name` as a colon word running `values` and
    /// then `EXIT`.
    pub open spec fn with_colon_word(self, name: &str, values: Seq<ColonValue>) -> CompilerSpec {
        CompilerSpec {
            colons: self.colons.insert(name@, values),
            ..self.with_entry(
                name@,
                self.docol,
                colon_code(values, add32(self.cp, header_size(word_key(name))), self) + le32(self.token("EXIT")),
            )
        }
    }

    /// The state after adding a native callable (see `callable_assembler`).
    pub open spec fn with_callable(self, locals: Seq<ValType>, instructions: Seq<Instr>) -> CompilerSpec {
        CompilerSpec { assembler: self.callable_assembler(locals, instructions), ..self }
    }

    /// The state after adding a mutable i32 global.
    pub open spec fn with_global(self, initial_value: i32) -> CompilerSpec {
        CompilerSpec {
            assembler: AssemblerSpec { globals: self.assembler.globals.push(initial_value), ..self.assembler },
            ..self
        }
    }

    /// The state after adding a defined function to the module.
    pub open spec fn with_function(
        self,
        params: Seq<ValType>,
        results: Seq<ValType>,
        locals: Seq<ValType>,
        body: Seq<Instr>,
    ) -> CompilerSpec {
        CompilerSpec { assembler: self.assembler.with_native(params, results, locals, body), ..self }
    }

    /// The state after adding a function signature to the module.
    pub open spec fn with_type(self, params: Seq<ValType>, results: Seq<ValType>) -> CompilerSpec {
        CompilerSpec {
            assembler: AssemblerSpec {
                types: self.assembler.types.push(FuncTypeSpec { params, results }),
                ..self.assembler
            },
            ..self
        }
    }

    /// `name` has an execution token.
    pub open spec fn defines(self, name: &str) -> bool {
        self.tokens.contains_key(word_key(name))
    }

    /// The execution token of `name`.
    pub open spec fn token(self, name: &str) -> i32 {
        self.tokens[word_key(name)]
    }
}

/// Adding an entry changes only the module's data, the end of the
/// dictionary, its last entry and the token table.
pub proof fn lemma_with_entry_keeps(c: CompilerSpec, label: Seq<char>, code: u32, parameter: Seq<u8>)
    ensures
        ({
            let r = c.with_entry(label, code, parameter);
            &&& r == (CompilerSpec {
                assembler: r.assembler,
                cp: r.cp,
                latest_address: r.latest_address,
                tokens: r.tokens,
                names: r.names,
                labels: r.labels,
                ..c
            })
            &&& r.assembler == (AssemblerSpec { data: r.assembler.data, ..c.assembler })
        }),
{
    reveal(CompilerSpec::with_entry);
}

/// The compiler after defining the comparison words: `FALSE`, `TRUE`, and
/// the signed, unsigned and double-cell comparisons pushing Forth flags.
#[verifier::opaque]
pub open spec fn with_comparison_words(c: CompilerSpec) -> CompilerSpec {
    let push = c.push;
    let pop = c.pop;
    let push_d = c.push_d;
    let pop_d = c.pop_d;
    let c = c.with_constant("FALSE"@, 0i32);
    let c = c.with_constant("TRUE"@, -1i32);
    let c = c.with_native_word("="@, seq![], binary_i32_bool_code(pop, push, Instr::I32Eq));
    let c = c.with_native_word(
        "D="@, [ValType::I64]@, binary_i64_bool_code(pop_d, push, Instr::I64Eq),
    );
    let c = c.with_native_word("<>"@, seq![], binary_i32_bool_code(pop, push, Instr::I32Ne));
    let c = c.with_native_word(
        "D<>"@, [ValType::I64]@, binary_i64_bool_code(pop_d, push, Instr::I64Ne),
    );
    let c = c.with_native_word("<"@, seq![], binary_i32_bool_code(pop, push, Instr::I32LtS));
    let c = c.with_native_word("U<"@, seq![], binary_i32_bool_code(pop, push, Instr::I32LtU));
    let c = c.with_native_word(
        "D<"@, [ValType::I64]@, binary_i64_bool_code(pop_d, push, Instr::I64LtS),
    );
    let c = c.with_native_word(">"@, seq![], binary_i32_bool_code(pop, push, Instr::I32GtS));
    let c = c.with_native_word("U>"@, seq![], binary_i32_bool_code(pop, push, Instr::I32GtU));
    let c = c.with_native_word(
        "D>"@, [ValType::I64]@, binary_i64_bool_code(pop_d, push, Instr::I64GtS),
    );
    let c = c.with_native_word("<="@, seq![], binary_i32_bool_code(pop, push, Instr::I32LeS));
    let c = c.with_native_word("U<="@, seq![], binary_i32_bool_code(pop, push, Instr::I32LeU));
    let c = c.with_native_word(
        "D<="@, [ValType::I64]@, binary_i64_bool_code(pop_d, push, Instr::I64LeS),
    );
    let c = c.with_native_word(">="@, seq![], binary_i32_bool_code(pop, push, Instr::I32GeS));
    let c = c.with_native_word("U>="@, seq![], binary_i32_bool_code(pop, push, Instr::I32GeU));
    let c = c.with_native_word(
        "D>="@, [ValType::I64]@, binary_i64_bool_code(pop_d, push, Instr::I64GeS),
    );
    let c = c.with_native_word("=0"@, seq![], [
        Instr::I32Const(0), Instr::Call(pop), Instr::I32Eqz, Instr::I32Sub, Instr::Call(push),
    ]@);
    let c = c.with_native_word("<>0"@, seq![], [
        Instr::I32Const(0), Instr::Call(pop), Instr::I32Const(0), Instr::I32Ne, Instr::I32Sub,
        Instr::Call(push),
    ]@);
    let c = c.with_native_word("<0"@, seq![], [
        Instr::I32Const(0), Instr::Call(pop), Instr::I32Const(0), Instr::I32LtS, Instr::I32Sub,
        Instr::Call(push),
    ]@);
    let c = c.with_native_word(">0"@, seq![], [
        Instr::I32Const(0), Instr::Call(pop), Instr::I32Const(0), Instr::I32GtS, Instr::I32Sub,
        Instr::Call(push),
    ]@);
    c
}

/// The code of `DUP`: push the cell at the stack pointer.
pub open spec fn dup_code(stack: u32, push: u32) -> Seq<Instr> {
    [Instr::GetGlobal(stack), Instr::I32Load(2, 0), Instr::Call(push)]@
}

/// The code of `DROP`: move the stack pointer up a cell.
pub open spec fn drop_code(stack: u32) -> Seq<Instr> {
    [
        Instr::GetGlobal(stack), Instr::I32Const(4), Instr::I32Add, Instr::SetGlobal(stack),
    ]@
}

/// The code of `SWAP`: exchange the top two cells in place.
pub open spec fn swap_code(stack: u32) -> Seq<Instr> {
    [
        Instr::GetGlobal(stack), Instr::TeeLocal(0), Instr::GetLocal(0), Instr::I32Load(2, 0),
        Instr::GetLocal(0), Instr::GetLocal(0), Instr::I32Load(2, 4), Instr::I32Store(2, 0),
        Instr::I32Store(2, 4),
    ]@
}

/// The code of `OVER`: copy the second cell on top.
pub open spec fn over_code(stack: u32) -> Seq<Instr> {
    [
        Instr::GetGlobal(stack), Instr::I32Const(4), Instr::I32Sub, Instr::TeeLocal(0),
        Instr::SetGlobal(stack), Instr::GetLocal(0), Instr::GetLocal(0), Instr::I32Load(2, 8),
        Instr::I32Store(2, 0),
    ]@
}

/// The code of `NIP`: move the top cell over the second and drop it.
pub open spec fn nip_code(stack: u32) -> Seq<Instr> {
    [
        Instr::GetGlobal(stack), Instr::TeeLocal(0), Instr::GetLocal(0), Instr::I32Load(2, 0),
        Instr::I32Store(2, 4), Instr::GetLocal(0), Instr::I32Const(4), Instr::I32Add,
        Instr::SetGlobal(stack),
    ]@
}

/// The code of `ROT`: rotate the third cell to the top.
pub open spec fn rot_code(stack: u32) -> Seq<Instr> {
    [
        Instr::GetGlobal(stack), Instr::TeeLocal(0), Instr::GetLocal(0), Instr::I32Load(2, 0),
        Instr::GetLocal(0), Instr::GetLocal(0), Instr::I32Load(2, 4), Instr::GetLocal(0),
        Instr::GetLocal(0), Instr::I32Load(2, 8), Instr::I32Store(2, 0), Instr::I32Store(2, 8),
        Instr::I32Store(2, 4),
    ]@
}

/// The code of `-ROT`: rotate the top cell to the third place.
pub open spec fn minus_rot_code(stack: u32) -> Seq<Instr> {
    [
        Instr::GetGlobal(stack), Instr::TeeLocal(0), Instr::GetLocal(0), Instr::I32Load(2, 0),
        Instr::GetLocal(0), Instr::GetLocal(0), Instr::I32Load(2, 4), Instr::GetLocal(0),
        Instr::GetLocal(0), Instr::I32Load(2, 8), Instr::I32Store(2, 4), Instr::I32Store(2, 0),
        Instr::I32Store(2, 8),
    ]@
}

/// The code of `?DUP`: push the top cell again when it is not zero.
pub open spec fn qdup_code(stack: u32, push: u32) -> Seq<Instr> {
    [
        Instr::GetGlobal(stack), Instr::I32Load(2, 0), Instr::TeeLocal(0),
        Instr::If(BlockType::NoResult), Instr::GetLocal(0), Instr::Call(push), Instr::End,
    ]@
}

/// Code pushing a double cell onto the stack whose pointer is global
/// `stack`: the value's high half ends on top, its low half below.
pub open spec fn push_d_code(stack: u32) -> Seq<Instr> {
    [
        Instr::GetGlobal(stack), Instr::I32Const(8), Instr::I32Sub, Instr::SetGlobal(stack),
        Instr::GetGlobal(stack), Instr::GetLocal(0), Instr::I64Const(32), Instr::I64Rotl,
        Instr::I64Store(3, 0), Instr::End,
    ]@
}

/// Code popping a double cell from the stack whose pointer is global
/// `stack`.
pub open spec fn pop_d_code(stack: u32) -> Seq<Instr> {
    [
        Instr::GetGlobal(stack), Instr::I64Load(3, 0), Instr::I64Const(32), Instr::I64Rotl,
        Instr::GetGlobal(stack), Instr::I32Const(8), Instr::I32Add, Instr::SetGlobal(stack),
        Instr::End,
    ]@
}

/// The compiler after adding the stacks: the parameter stack (global
/// `stack`) with its cell and double-cell push and pop functions, and the
/// return stack with its push and pop functions.
#[verifier::opaque]
pub open spec fn with_stack_functions(c: CompilerSpec) -> CompilerSpec {
    let stack = c.assembler.globals.len() as u32;
    let c = c.with_global(PARAM_STACK_BASE);
    let push = c.assembler.next_func_id();
    let c = c.with_function(seq![ValType::I32], seq![], seq![], push_code(stack));
    let pop = c.assembler.next_func_id();
    let c = c.with_function(seq![], seq![ValType::I32], seq![], pop_code(stack));
    let c = CompilerSpec { stack: stack, ..c };
    let c = CompilerSpec { push: push, ..c };
    let c = CompilerSpec { pop: pop, ..c };
    let push_d = c.assembler.next_func_id();
    let c = c.with_function([ValType::I64]@, seq![], seq![], push_d_code(stack));
    let pop_d = c.assembler.next_func_id();
    let c = c.with_function(seq![], [ValType::I64]@, seq![], pop_d_code(stack));
    let c = CompilerSpec { push_d: push_d, ..c };
    let c = CompilerSpec { pop_d: pop_d, ..c };
    let r_stack = c.assembler.globals.len() as u32;
    let c = c.with_global(RETURN_STACK_BASE);
    let push_r = c.assembler.next_func_id();
    let c = c.with_function(seq![ValType::I32], seq![], seq![], push_code(r_stack));
    let pop_r = c.assembler.next_func_id();
    let c = c.with_function(seq![], seq![ValType::I32], seq![], pop_code(r_stack));
    let c = CompilerSpec { push_r: push_r, ..c };
    let c = CompilerSpec { pop_r: pop_r, ..c };
    c
}

/// The compiler after defining the stack-manipulation words on the stacks
/// `with_stack_functions` added; `r_stack` is the return stack's global.
#[verifier::opaque]
pub open spec fn with_stack_word_defs(c: CompilerSpec, r_stack: u32) -> CompilerSpec {
    let stack = c.stack;
    let push = c.push;
    let pop = c.pop;
    let push_d = c.push_d;
    let pop_d = c.pop_d;
    let push_r = c.push_r;
    let pop_r = c.pop_r;
    let c = c.with_native_word("DUP"@, seq![], dup_code(stack, push));
    let c = c.with_native_word("?DUP"@, seq![], qdup_code(stack, push));
    let c = c.with_native_word("2DUP"@, seq![], [
        Instr::GetGlobal(stack), Instr::I32Const(8), Instr::I32Sub, Instr::TeeLocal(0),
        Instr::SetGlobal(stack), Instr::GetLocal(0), Instr::GetLocal(0), Instr::I64Load(3, 8),
        Instr::I64Store(3, 0),
    ]@);
    let c = c.with_native_word("DROP"@, seq![], drop_code(stack));
    let c = c.with_native_word("2DROP"@, seq![], [
        Instr::GetGlobal(stack), Instr::I32Const(8), Instr::I32Add, Instr::SetGlobal(stack),
    ]@);
    let c = c.with_native_word("SWAP"@, seq![], swap_code(stack));
    let c = c.with_native_word("2SWAP"@, seq![], [
        Instr::GetGlobal(stack), Instr::TeeLocal(0), Instr::GetLocal(0), Instr::I64Load(3, 0),
        Instr::GetLocal(0), Instr::GetLocal(0), Instr::I64Load(3, 8), Instr::I64Store(3, 0),
        Instr::I64Store(3, 8),
    ]@);
    let c = c.with_native_word("OVER"@, seq![], over_code(stack));
    let c = c.with_native_word("2OVER"@, seq![], [
        Instr::GetGlobal(stack), Instr::I32Const(8), Instr::I32Sub, Instr::TeeLocal(0),
        Instr::SetGlobal(stack), Instr::GetLocal(0), Instr::GetLocal(0), Instr::I64Load(2, 16),
        Instr::I64Store(2, 0),
    ]@);
    let c = c.with_native_word("NIP"@, seq![], nip_code(stack));
    let c = c.with_native_word("TUCK"@, seq![], [
        Instr::GetGlobal(stack), Instr::I32Const(4), Instr::I32Sub, Instr::TeeLocal(0),
        Instr::I32Load(2, 4), Instr::SetLocal(1), Instr::GetLocal(0), Instr::GetLocal(0),
        Instr::I32Load(2, 8), Instr::I32Store(2, 4), Instr::GetLocal(0), Instr::GetLocal(1),
        Instr::I32Store(2, 8), Instr::GetLocal(0), Instr::GetLocal(1), Instr::I32Store(2, 0),
        Instr::GetLocal(0), Instr::SetGlobal(stack),
    ]@);
    let c = c.with_native_word("ROT"@, seq![], rot_code(stack));
    let c = c.with_native_word("-ROT"@, seq![], minus_rot_code(stack));
    let c = c.with_native_word("PICK"@, seq![], [
        Instr::GetGlobal(stack), Instr::TeeLocal(0), Instr::GetLocal(0), Instr::I32Load(2, 0),
        Instr::I32Const(1), Instr::I32Add, Instr::I32Const(2), Instr::I32Shl, Instr::GetLocal(0),
        Instr::I32Add, Instr::I32Load(2, 0), Instr::I32Store(2, 0),
    ]@);
    let c = c.with_native_word("DEPTH"@, seq![], [
        Instr::I32Const(PARAM_STACK_BASE), Instr::GetGlobal(stack), Instr::I32Sub,
        Instr::I32Const(2), Instr::I32ShrU, Instr::Call(push),
    ]@);
    let c = c.with_native_word(">R"@, seq![], [Instr::Call(pop), Instr::Call(push_r)]@);
    let c = c.with_native_word("R>"@, seq![], [Instr::Call(pop_r), Instr::Call(push)]@);
    let c = c.with_native_word("R@"@, seq![], [
        Instr::GetGlobal(r_stack), Instr::I32Load(2, 0), Instr::Call(push),
    ]@);
    let c = c.with_native_word("R-DEPTH"@, seq![], [
        Instr::I32Const(RETURN_STACK_BASE), Instr::GetGlobal(r_stack), Instr::I32Sub,
        Instr::I32Const(2), Instr::I32ShrU, Instr::Call(push),
    ]@);
    c
}

/// The compiler after defining the stacks: the parameter stack (global
/// `stack`) with its cell and double-cell push and pop functions, the return
/// stack with its push and pop functions, and the stack-manipulation words.
pub open spec fn with_stack_words(c: CompilerSpec) -> CompilerSpec {
    with_stack_word_defs(with_stack_functions(c), (c.assembler.globals.len() + 1) as u32)
}

/// The compiler after defining the memory words: the code fields of constants
/// and variables, `HEAP-BASE`, and the words reading and writing cells, double
/// cells and bytes.
#[verifier::opaque]
pub open spec fn with_memory_words(c: CompilerSpec) -> CompilerSpec {
    let push = c.push;
    let pop = c.pop;
    let docon = c.assembler.table.len() as u32;
    let c = c.with_callable(seq![], [Instr::GetLocal(0), Instr::I32Load(2, 0), Instr::Call(push)]@);
    let c = CompilerSpec { docon: docon, ..c };
    let c = c.with_constant("(DOCON)"@, (docon as i32));
    let dovar = c.assembler.table.len() as u32;
    let c = c.with_callable(seq![], [Instr::GetLocal(0), Instr::Call(push)]@);
    let c = CompilerSpec { dovar: dovar, ..c };
    let c = c.with_constant("(DOVAR)"@, (dovar as i32));
    let c = c.with_native_word("!"@, seq![], [
        Instr::Call(pop), Instr::Call(pop), Instr::I32Store(2, 0),
    ]@);
    let c = c.with_native_word("@"@, seq![], [
        Instr::Call(pop), Instr::I32Load(2, 0), Instr::Call(push),
    ]@);
    let c = c.with_native_word("+!"@, seq![], [
        Instr::Call(pop), Instr::TeeLocal(0), Instr::GetLocal(0), Instr::I32Load(2, 0),
        Instr::Call(pop), Instr::I32Add, Instr::I32Store(2, 0),
    ]@);
    let c = c.with_native_word("C!"@, seq![], [
        Instr::Call(pop), Instr::Call(pop), Instr::I32Store8(0, 0),
    ]@);
    let c = c.with_native_word("C@"@, seq![], [
        Instr::Call(pop), Instr::I32Load8U(0, 0), Instr::Call(push),
    ]@);
    let c = c.with_constant("HEAP-BASE"@, HEAP_BASE);
    let c = c.with_native_word("MEMORY.SIZE"@, seq![], [
        Instr::CurrentMemory(0), Instr::Call(push),
    ]@);
    let c = c.with_native_word("MEMORY.GROW"@, seq![], [
        Instr::Call(pop), Instr::GrowMemory(0), Instr::Call(push),
    ]@);
    c
}

/// The compiler after defining execution: the instruction pointer, the
/// `EXECUTE` dispatch through the function table, the `_start` loop, the code
/// fields of colon words and `DOES>`, and the words controlling execution.
#[verifier::opaque]
pub open spec fn with_execution_words(c: CompilerSpec) -> CompilerSpec {
    let push = c.push;
    let pop = c.pop;
    let push_r = c.push_r;
    let pop_r = c.pop_r;
    let ip = c.assembler.globals.len() as u32;
    let c = c.with_global(0);
    let c = CompilerSpec { ip: ip, ..c };
    let stopped = c.assembler.globals.len() as u32;
    let c = c.with_global(0);
    let callable_sig = c.assembler.types.len() as u32;
    let c = c.with_type([ValType::I32, ValType::I32]@, seq![]);
    let execute = c.assembler.next_func_id();
    let c = c.with_function([ValType::I32]@, seq![], [ValType::I32]@, [
        Instr::GetLocal(0), Instr::I32Const(4), Instr::I32Add, Instr::GetLocal(0),
        Instr::I32Load(2, 0), Instr::TeeLocal(1), Instr::I32Const(8), Instr::I32ShrU,
        Instr::GetLocal(1), Instr::I32Const(255), Instr::I32And,
        Instr::CallIndirect(callable_sig, 0), Instr::End,
    ]@);
    let c = c.with_native_word("EXECUTE"@, seq![], [Instr::Call(pop), Instr::Call(execute)]@);
    let start = c.assembler.next_func_id();
    let c = c.with_function(seq![], seq![], seq![], [
        Instr::I32Const(0), Instr::SetGlobal(stopped), Instr::Loop(BlockType::NoResult),
        Instr::GetGlobal(ip), Instr::I32Load(2, 0), Instr::Call(execute), Instr::GetGlobal(ip),
        Instr::I32Const(4), Instr::I32Add, Instr::SetGlobal(ip), Instr::GetGlobal(stopped),
        Instr::I32Eqz, Instr::BrIf(0), Instr::End, Instr::End,
    ]@);
    let c = CompilerSpec { start: start, ..c };
    let c = c.with_native_word("BYE"@, seq![], [Instr::I32Const(-1i32), Instr::SetGlobal(stopped)]@);
    let docol = c.assembler.table.len() as u32;
    let c = c.with_callable(seq![], [
        Instr::GetGlobal(ip), Instr::Call(push_r), Instr::GetLocal(0), Instr::I32Const(4),
        Instr::I32Sub, Instr::SetGlobal(ip),
    ]@);
    let c = CompilerSpec { docol: docol, ..c };
    let c = c.with_constant("(DOCOL)"@, (docol as i32));
    let c = c.with_native_word("EXIT"@, seq![], [Instr::Call(pop_r), Instr::SetGlobal(ip)]@);
    let dodoes = c.assembler.table.len() as u32;
    let c = c.with_callable(seq![], [
        Instr::GetLocal(0), Instr::Call(push), Instr::GetGlobal(ip), Instr::Call(push_r),
        Instr::GetLocal(1), Instr::I32Const(4), Instr::I32Sub, Instr::SetGlobal(ip),
    ]@);
    let c = c.with_constant("(DODOES)"@, (dodoes as i32));
    let c = c.with_native_word("LIT"@, seq![], [
        Instr::GetGlobal(ip), Instr::I32Const(4), Instr::I32Add, Instr::TeeLocal(0),
        Instr::I32Load(2, 0), Instr::Call(push), Instr::GetLocal(0), Instr::SetGlobal(ip),
    ]@);
    let c = c.with_native_word("BRANCH"@, seq![], [
        Instr::GetGlobal(ip), Instr::I32Load(2, 4), Instr::I32Const(4), Instr::I32Sub,
        Instr::SetGlobal(ip),
    ]@);
    let c = c.with_native_word("?BRANCH"@, seq![], [
        Instr::Call(pop), Instr::I32Eqz, Instr::If(BlockType::Value(ValType::I32)),
        Instr::GetGlobal(ip), Instr::I32Load(2, 4), Instr::I32Const(4), Instr::I32Sub, Instr::Else,
        Instr::GetGlobal(ip), Instr::I32Const(4), Instr::I32Add, Instr::End, Instr::SetGlobal(ip),
    ]@);
    c
}

/// The code of `NEGATE`: subtract the top cell from 0.
pub open spec fn negate_code(push: u32, pop: u32) -> Seq<Instr> {
    [
        Instr::I32Const(0), Instr::Call(pop), Instr::I32Sub, Instr::Call(push),
    ]@
}

/// The code of `ABS`: `(x ^ s) - s` where `s` is the sign of `x` spread over all bits.
pub open spec fn abs_code(push: u32, pop: u32) -> Seq<Instr> {
    [
        Instr::Call(pop), Instr::TeeLocal(0), Instr::I32Const(31), Instr::I32ShrS,
        Instr::TeeLocal(1), Instr::GetLocal(0), Instr::I32Xor, Instr::GetLocal(1), Instr::I32Sub,
        Instr::Call(push),
    ]@
}

/// The code of `SM/REM`: truncated division of a double cell by a cell.
pub open spec fn sm_rem_code(push: u32, pop: u32, pop_d: u32) -> Seq<Instr> {
    [
        Instr::Call(pop), Instr::I64ExtendSI32, Instr::SetLocal(3), Instr::Call(pop_d),
        Instr::TeeLocal(2), Instr::GetLocal(3), Instr::I64RemS, Instr::I32WrapI64,
        Instr::Call(push), Instr::GetLocal(2), Instr::GetLocal(3), Instr::I64DivS,
        Instr::I32WrapI64, Instr::Call(push),
    ]@
}

/// The code of `UD/MOD`: unsigned division of a double cell by a cell.
pub open spec fn ud_mod_code(push: u32, pop: u32, push_d: u32, pop_d: u32) -> Seq<Instr> {
    [
        Instr::Call(pop), Instr::I64ExtendSI32, Instr::SetLocal(3), Instr::Call(pop_d),
        Instr::TeeLocal(2), Instr::GetLocal(3), Instr::I64RemU, Instr::I32WrapI64,
        Instr::Call(push), Instr::GetLocal(2), Instr::GetLocal(3), Instr::I64DivU,
        Instr::Call(push_d),
    ]@
}

/// The code of `FM/MOD`: truncated division of a double cell by a cell,
/// corrected toward negative infinity where the signs differ and the
/// remainder is not zero.
pub open spec fn fm_mod_code(push: u32, pop: u32, pop_d: u32) -> Seq<Instr> {
    [
        Instr::Call(pop), Instr::I64ExtendSI32, Instr::SetLocal(3), Instr::Call(pop_d),
        Instr::TeeLocal(2), Instr::GetLocal(3), Instr::I64DivS, Instr::SetLocal(4),
        Instr::GetLocal(2), Instr::GetLocal(3), Instr::I64RemS, Instr::SetLocal(5),
        Instr::GetLocal(5), Instr::GetLocal(3), Instr::I64Const(0), Instr::GetLocal(2),
        Instr::GetLocal(3), Instr::I64Xor, Instr::I64Const(0), Instr::I64LtS, Instr::GetLocal(5),
        Instr::I64Const(0), Instr::I64Ne, Instr::I32And, Instr::TeeLocal(0), Instr::Select,
        Instr::I64Add, Instr::I32WrapI64, Instr::Call(push), Instr::GetLocal(4), Instr::I64Const(1),
        Instr::I64Const(0), Instr::GetLocal(0), Instr::Select, Instr::I64Sub, Instr::I32WrapI64,
        Instr::Call(push),
    ]@
}

/// The code of `/MOD`: truncated quotient and remainder, corrected toward
/// negative infinity where the signs differ and the remainder is not zero.
pub open spec fn divmod_code(pop: u32, push: u32) -> Seq<Instr> {
    [
        Instr::Call(pop), Instr::SetLocal(2), Instr::Call(pop), Instr::TeeLocal(1),
        Instr::GetLocal(2), Instr::I32DivS, Instr::SetLocal(3), Instr::GetLocal(1),
        Instr::GetLocal(2), Instr::I32RemS, Instr::SetLocal(4), Instr::GetLocal(4),
        Instr::GetLocal(2), Instr::I32Const(0), Instr::GetLocal(1), Instr::GetLocal(2),
        Instr::I32Xor, Instr::I32Const(0), Instr::I32LtS, Instr::GetLocal(4), Instr::I32Const(0),
        Instr::I32Ne, Instr::I32And, Instr::TeeLocal(0), Instr::Select, Instr::I32Add,
        Instr::Call(push), Instr::GetLocal(3), Instr::I32Const(1), Instr::I32Const(0),
        Instr::GetLocal(0), Instr::Select, Instr::I32Sub, Instr::Call(push),
    ]@
}

/// The compiler after defining the arithmetic words on cells and double
/// cells.
#[verifier::opaque]
pub open spec fn with_arithmetic_words(c: CompilerSpec) -> CompilerSpec {
    let push = c.push;
    let pop = c.pop;
    let push_d = c.push_d;
    let pop_d = c.pop_d;
    let c = c.with_native_word("+"@, seq![], binary_i32_code(pop, push, Instr::I32Add));
    let c = c.with_native_word("-"@, seq![], binary_i32_code(pop, push, Instr::I32Sub));
    let c = c.with_native_word("*"@, seq![], binary_i32_code(pop, push, Instr::I32Mul));
    let c = c.with_native_word("NEGATE"@, seq![], negate_code(push, pop));
    let c = c.with_native_word("ABS"@, seq![], abs_code(push, pop));
    let c = c.with_native_word("S>D"@, seq![], [
        Instr::Call(pop), Instr::I64ExtendSI32, Instr::Call(push_d),
    ]@);
    let c = c.with_native_word("D>S"@, seq![], [
        Instr::Call(pop_d), Instr::I32WrapI64, Instr::Call(push),
    ]@);
    let c = c.with_native_word("M+"@, seq![], [
        Instr::Call(pop), Instr::I64ExtendSI32, Instr::Call(pop_d), Instr::I64Add,
        Instr::Call(push_d),
    ]@);
    let c = c.with_native_word(
        "D+"@, [ValType::I64]@, binary_i64_code(pop_d, push_d, Instr::I64Add),
    );
    let c = c.with_native_word(
        "D-"@, [ValType::I64]@, binary_i64_code(pop_d, push_d, Instr::I64Sub),
    );
    let c = c.with_native_word("DABS"@, [ValType::I64, ValType::I64]@, [
        Instr::Call(pop_d), Instr::TeeLocal(2), Instr::I64Const(63), Instr::I64ShrS,
        Instr::TeeLocal(3), Instr::GetLocal(2), Instr::I64Xor, Instr::GetLocal(3), Instr::I64Sub,
        Instr::Call(push_d),
    ]@);
    let c = c.with_native_word("DNEGATE"@, seq![], [
        Instr::I64Const(0), Instr::Call(pop_d), Instr::I64Sub, Instr::Call(push_d),
    ]@);
    let c = c.with_native_word("M*"@, seq![], [
        Instr::Call(pop), Instr::SetLocal(0), Instr::Call(pop), Instr::I64ExtendSI32,
        Instr::GetLocal(0), Instr::I64ExtendSI32, Instr::I64Mul, Instr::Call(push_d),
    ]@);
    let c = c.with_native_word("UM*"@, seq![], [
        Instr::Call(pop), Instr::SetLocal(0), Instr::Call(pop), Instr::I64ExtendUI32,
        Instr::GetLocal(0), Instr::I64ExtendUI32, Instr::I64Mul, Instr::Call(push_d),
    ]@);
    let c = c.with_native_word("D*"@, seq![], [
        Instr::Call(pop), Instr::SetLocal(0), Instr::Call(pop_d), Instr::GetLocal(0),
        Instr::I64ExtendSI32, Instr::I64Mul, Instr::Call(push_d),
    ]@);
    let c = c.with_native_word("UD*"@, seq![], [
        Instr::Call(pop), Instr::SetLocal(0), Instr::Call(pop_d), Instr::GetLocal(0),
        Instr::I64ExtendUI32, Instr::I64Mul, Instr::Call(push_d),
    ]@);
    let c = c.with_native_word("UM/MOD"@, [ValType::I64, ValType::I64]@, [
        Instr::Call(pop), Instr::I64ExtendSI32, Instr::SetLocal(3), Instr::Call(pop_d),
        Instr::TeeLocal(2), Instr::GetLocal(3), Instr::I64RemU, Instr::I32WrapI64,
        Instr::Call(push), Instr::GetLocal(2), Instr::GetLocal(3), Instr::I64DivU,
        Instr::I32WrapI64, Instr::Call(push),
    ]@);
    let c = c.with_native_word("/MOD"@, [ValType::I32, ValType::I32, ValType::I32]@, divmod_code(pop, push));
    let c = c.with_colon_word("/", [ColonValue::XT("/MOD"), ColonValue::XT("NIP")]@);
    let c = c.with_colon_word("MOD", [ColonValue::XT("/MOD"), ColonValue::XT("DROP")]@);
    let c = c.with_native_word("U/MOD"@, seq![], [
        Instr::Call(pop), Instr::SetLocal(1), Instr::Call(pop), Instr::TeeLocal(0),
        Instr::GetLocal(1), Instr::I32RemU, Instr::Call(push), Instr::GetLocal(0),
        Instr::GetLocal(1), Instr::I32DivU, Instr::Call(push),
    ]@);
    let c = c.with_native_word("SM/REM"@, [ValType::I64, ValType::I64]@, sm_rem_code(push, pop, pop_d));
    let c = c.with_native_word(
        "FM/MOD"@, [ValType::I64, ValType::I64, ValType::I64, ValType::I64]@, fm_mod_code(push, pop, pop_d),
    );
    let c = c.with_native_word("UD/MOD"@, [ValType::I64, ValType::I64]@, ud_mod_code(push, pop, push_d, pop_d));
    c
}

/// The compiler after defining the bitwise logic and shift words.
#[verifier::opaque]
pub open spec fn with_bit_logic_words(c: CompilerSpec) -> CompilerSpec {
    let push = c.push;
    let pop = c.pop;
    let push_d = c.push_d;
    let pop_d = c.pop_d;
    let c = c.with_native_word("MIN"@, seq![], [
        Instr::Call(pop), Instr::TeeLocal(0), Instr::Call(pop), Instr::TeeLocal(1),
        Instr::GetLocal(0), Instr::GetLocal(1), Instr::I32LtS, Instr::Select, Instr::Call(push),
    ]@);
    let c = c.with_native_word("MAX"@, seq![], [
        Instr::Call(pop), Instr::TeeLocal(0), Instr::Call(pop), Instr::TeeLocal(1),
        Instr::GetLocal(0), Instr::GetLocal(1), Instr::I32GtS, Instr::Select, Instr::Call(push),
    ]@);
    let c = c.with_native_word("DMIN"@, [ValType::I64, ValType::I64]@, [
        Instr::Call(pop_d), Instr::TeeLocal(2), Instr::Call(pop_d), Instr::TeeLocal(3),
        Instr::GetLocal(2), Instr::GetLocal(3), Instr::I64LtS, Instr::Select, Instr::Call(push_d),
    ]@);
    let c = c.with_native_word("DMAX"@, [ValType::I64, ValType::I64]@, [
        Instr::Call(pop_d), Instr::TeeLocal(2), Instr::Call(pop_d), Instr::TeeLocal(3),
        Instr::GetLocal(2), Instr::GetLocal(3), Instr::I64GtS, Instr::Select, Instr::Call(push_d),
    ]@);
    let c = c.with_native_word("1+"@, seq![], [
        Instr::Call(pop), Instr::I32Const(1), Instr::I32Add, Instr::Call(push),
    ]@);
    let c = c.with_native_word("1-"@, seq![], [
        Instr::Call(pop), Instr::I32Const(1), Instr::I32Sub, Instr::Call(push),
    ]@);
    let c = c.with_native_word("INVERT"@, seq![], [
        Instr::Call(pop), Instr::I32Const(-1i32), Instr::I32Xor, Instr::Call(push),
    ]@);
    let c = c.with_native_word("AND"@, seq![], binary_i32_code(pop, push, Instr::I32And));
    let c = c.with_native_word("OR"@, seq![], binary_i32_code(pop, push, Instr::I32Or));
    let c = c.with_native_word("XOR"@, seq![], binary_i32_code(pop, push, Instr::I32Xor));
    let c = c.with_native_word("LSHIFT"@, seq![], binary_i32_code(pop, push, Instr::I32Shl));
    let c = c.with_native_word("RSHIFT"@, seq![], binary_i32_code(pop, push, Instr::I32ShrU));
    let c = c.with_native_word("ARSHIFT"@, seq![], binary_i32_code(pop, push, Instr::I32ShrS));
    let c = c.with_native_word("CSET"@, seq![], bitmanip_code(pop, [Instr::I32Or]@));
    let c = c.with_native_word(
        "CRESET"@, seq![], bitmanip_code(pop, [Instr::I32Const(-1i32), Instr::I32Xor, Instr::I32And]@),
    );
    let c = c.with_native_word("CTOGGLE"@, seq![], bitmanip_code(pop, [Instr::I32Xor]@));
    let c = c.with_native_word("2*"@, seq![], [
        Instr::Call(pop), Instr::I32Const(1), Instr::I32Shl, Instr::Call(push),
    ]@);
    let c = c.with_native_word("D2*"@, seq![], [
        Instr::Call(pop_d), Instr::I64Const(1), Instr::I64Shl, Instr::Call(push_d),
    ]@);
    let c = c.with_native_word("2/"@, seq![], [
        Instr::Call(pop), Instr::I32Const(1), Instr::I32ShrS, Instr::Call(push),
    ]@);
    let c = c.with_native_word("D2/"@, seq![], [
        Instr::Call(pop_d), Instr::I64Const(1), Instr::I64ShrS, Instr::Call(push_d),
    ]@);
    c
}

/// The compiler after defining the arithmetic, bitwise logic and comparison
/// words.
pub open spec fn with_math_words(c: CompilerSpec) -> CompilerSpec {
    with_comparison_words(with_bit_logic_words(with_arithmetic_words(c)))
}

/// The compiler after defining the words every module starts with: stacks,
/// memory, execution and arithmetic, then the dictionary's constants
/// `DICT-BASE` and `DICT-CAPACITY` and its variables `CP` and `LATEST`.
pub open spec fn with_core_words(c: CompilerSpec) -> CompilerSpec {
    let c = with_math_words(with_execution_words(with_memory_words(with_stack_words(c))));
    let c = c.with_constant("DICT-BASE"@, DICTIONARY_BASE);
    let c = c.with_constant("DICT-CAPACITY"@, DICTIONARY_CAPACITY);
    let c = c.with_variable("CP"@, DICTIONARY_BASE);
    c.with_variable("LATEST"@, DICTIONARY_BASE)
}

/// A compiler with an empty module that declares its memory, an empty
/// dictionary starting at `DICT-BASE`, and no recorded words.
pub open spec fn empty_compiler() -> CompilerSpec {
    CompilerSpec {
        assembler: AssemblerSpec {
            types: seq![],
            slots: seq![],
            imports: seq![],
            natives: seq![],
            table: seq![],
            globals: seq![],
            data: seq![],
            exports: seq![],
            memory: true,
        },
        stack: 0,
        push: 0,
        pop: 0,
        push_d: 0,
        pop_d: 0,
        push_r: 0,
        pop_r: 0,
        docon: 0,
        dovar: 0,
        docol: 0,
        start: 0,
        ip: 0,
        cp: DICTIONARY_BASE,
        latest_address: 0,
        tokens: Map::empty(),
        names: seq![],
        labels: seq![],
        export_all: false,
        codes: Map::empty(),
        colons: Map::empty(),
    }
}

/// The compiler every build starts from: the core words defined in an empty
/// compiler.
pub open spec fn default_compiler() -> CompilerSpec {
    with_core_words(empty_compiler())
}

/// Adding an entry leaves the module's imports unchanged.
pub broadcast proof fn lemma_entry_keeps_imports(c: CompilerSpec, label: Seq<char>, code: u32, parameter: Seq<u8>)
    ensures
        #[trigger] c.with_entry(label, code, parameter).assembler.imports == c.assembler.imports,
{
    reveal(CompilerSpec::with_entry);
}

/// Adding a native word leaves the module's imports unchanged.
pub broadcast proof fn lemma_native_word_keeps_imports(
    c: CompilerSpec,
    name: Seq<char>,
    locals: Seq<ValType>,
    instructions: Seq<Instr>,
)
    ensures
        #[trigger] c.with_native_word(name, locals, instructions).assembler.imports == c.assembler.imports,
{
    reveal(CompilerSpec::with_native_word);
    let code = c.assembler.table.len() as u32;
    lemma_entry_keeps_imports(
        CompilerSpec { assembler: c.callable_assembler(locals, instructions), codes: c.codes.insert(name, instructions), ..c },
        name,
        code,
        seq![],
    );
}

/// Defining an imported word adds exactly one import: the function `field`
/// of `module`.
pub broadcast proof fn lemma_imported_word_imports(
    c: CompilerSpec,
    name: Seq<char>,
    module: Seq<char>,
    field: Seq<char>,
    params: Seq<ParamType>,
    results: Seq<ParamType>,
)
    ensures
        #[trigger] c.with_imported_word(name, module, field, params, results).assembler.imports
            == c.assembler.imports.push(ImportSpec { module, field, type_index: c.assembler.types.len() as u32 }),
{
    reveal(CompilerSpec::with_imported_word);
    let func = c.assembler.next_func_id();
    let imported = CompilerSpec {
        assembler: c.assembler.with_import(module, field, value_types(params), value_types(results)),
        ..c
    };
    let locals = if results.len() == 0 { seq![] } else { seq![ValType::I64] };
    lemma_native_word_keeps_imports(imported, name, locals, import_call_code(c.stack, func, params, results));
}

/// The stack words import no function.
#[verifier::rlimit(40)]
#[verifier::spinoff_prover]
proof fn lemma_stack_words_keep_imports(c: CompilerSpec)
    ensures
        with_stack_words(c).assembler.imports == c.assembler.imports,
{
    broadcast use lemma_entry_keeps_imports, lemma_native_word_keeps_imports;
    reveal(with_stack_functions);
    reveal(with_stack_word_defs);
}

/// The memory words import no function.
#[verifier::rlimit(40)]
#[verifier::spinoff_prover]
proof fn lemma_memory_words_keep_imports(c: CompilerSpec)
    ensures
        with_memory_words(c).assembler.imports == c.assembler.imports,
{
    broadcast use lemma_entry_keeps_imports, lemma_native_word_keeps_imports;
    reveal(with_memory_words);
}

/// The execution words import no function.
#[verifier::rlimit(40)]
#[verifier::spinoff_prover]
proof fn lemma_execution_words_keep_imports(c: CompilerSpec)
    ensures
        with_execution_words(c).assembler.imports == c.assembler.imports,
{
    broadcast use lemma_entry_keeps_imports, lemma_native_word_keeps_imports;
    reveal(with_execution_words);
}

/// The arithmetic words import no function.
#[verifier::rlimit(40)]
#[verifier::spinoff_prover]
proof fn lemma_arithmetic_words_keep_imports(c: CompilerSpec)
    ensures
        with_arithmetic_words(c).assembler.imports == c.assembler.imports,
{
    broadcast use lemma_entry_keeps_imports, lemma_native_word_keeps_imports;
    reveal(with_arithmetic_words);
}

/// The bit logic words import no function.
#[verifier::rlimit(40)]
#[verifier::spinoff_prover]
proof fn lemma_bit_logic_words_keep_imports(c: CompilerSpec)
    ensures
        with_bit_logic_words(c).assembler.imports == c.assembler.imports,
{
    broadcast use lemma_entry_keeps_imports, lemma_native_word_keeps_imports;
    reveal(with_bit_logic_words);
}

/// The comparison words import no function.
#[verifier::rlimit(40)]
#[verifier::spinoff_prover]
proof fn lemma_comparison_words_keep_imports(c: CompilerSpec)
    ensures
        with_comparison_words(c).assembler.imports == c.assembler.imports,
{
    broadcast use lemma_entry_keeps_imports, lemma_native_word_keeps_imports;
    reveal(with_comparison_words);
}

/// The core words import no function.
pub proof fn lemma_core_words_keep_imports(c: CompilerSpec)
    ensures
        with_core_words(c).assembler.imports == c.assembler.imports,
{
    broadcast use lemma_entry_keeps_imports;
    let c1 = with_stack_words(c);
    lemma_stack_words_keep_imports(c);
    let c2 = with_memory_words(c1);
    lemma_memory_words_keep_imports(c1);
    let c3 = with_execution_words(c2);
    lemma_execution_words_keep_imports(c2);
    let c4 = with_arithmetic_words(c3);
    lemma_arithmetic_words_keep_imports(c3);
    let c5 = with_bit_logic_words(c4);
    lemma_bit_logic_words_keep_imports(c4);
    let c6 = with_comparison_words(c5);
    lemma_comparison_words_keep_imports(c5);
    assert(c6 == with_math_words(with_execution_words(with_memory_words(with_stack_words(c)))));
    let c7 = c6.with_constant("DICT-BASE"@, DICTIONARY_BASE);
    assert(c7.assembler.imports == c6.assembler.imports);
    let c8 = c7.with_constant("DICT-CAPACITY"@, DICTIONARY_CAPACITY);
    assert(c8.assembler.imports == c6.assembler.imports);
    let c9 = c8.with_variable("CP"@, DICTIONARY_BASE);
    assert(c9.assembler.imports == c6.assembler.imports);
    let c10 = c9.with_variable("LATEST"@, DICTIONARY_BASE);
    assert(c10.assembler.imports == c6.assembler.imports);
    assert(c10 == with_core_words(c));
}

/// Builds the interpreter's WebAssembly module.
pub struct Compiler {
    assembler: Assembler,
    stack: u32,
    push: u32,
    pop: u32,
    push_d: u32,
    pop_d: u32,
    push_r: u32,
    pop_r: u32,
    docon: u32,
    dovar: u32,
    docol: u32,
    start: u32,
    ip: u32,
    cp: i32,
    latest_address: i32,
    execution_tokens: TokenTable,
    export_all: bool,
    codes: Ghost<Map<Seq<char>, Seq<Instr>>>,
    colons: Ghost<Map<Seq<char>, Seq<ColonValue>>>,
}

impl View for Compiler {
    type V = CompilerSpec;

    closed spec fn view(&self) -> CompilerSpec {
        CompilerSpec {
            assembler: self.assembler@,
            stack: self.stack,
            push: self.push,
            pop: self.pop,
            push_d: self.push_d,
            pop_d: self.pop_d,
            push_r: self.push_r,
            pop_r: self.pop_r,
            docon: self.docon,
            dovar: self.dovar,
            docol: self.docol,
            start: self.start,
            ip: self.ip,
            cp: self.cp,
            latest_address: self.latest_address,
            tokens: self.execution_tokens.map(),
            names: self.execution_tokens.names(),
            labels: self.execution_tokens.labels(),
            export_all: self.export_all,
            codes: self.codes@,
            colons: self.colons@,
        }
    }
}

/// Code popping two cells and leaving the lower one, then the top one, on
/// the WebAssembly operand stack (local 0 holds the top one).
pub open spec fn two_i32_args_code(pop: u32) -> Seq<Instr> {
    seq![Instr::Call(pop), Instr::SetLocal(0), Instr::Call(pop), Instr::GetLocal(0)]
}

/// Builds [`two_i32_args_code`].
fn two_i32_args(pop: u32) -> (r: Vec<Instr>)
    ensures
        r@ == two_i32_args_code(pop),
{
    vec![Instr::Call(pop), Instr::SetLocal(0), Instr::Call(pop), Instr::GetLocal(0)]
}

/// Code popping two double cells the same way (local 2 holds the top one).
pub open spec fn two_i64_args_code(pop_d: u32) -> Seq<Instr> {
    seq![Instr::Call(pop_d), Instr::SetLocal(2), Instr::Call(pop_d), Instr::GetLocal(2)]
}

/// Builds [`two_i64_args_code`].
fn two_i64_args(pop_d: u32) -> (r: Vec<Instr>)
    ensures
        r@ == two_i64_args_code(pop_d),
{
    vec![Instr::Call(pop_d), Instr::SetLocal(2), Instr::Call(pop_d), Instr::GetLocal(2)]
}

/// Code for a binary operation on the two top cells.
pub open spec fn binary_i32_code(pop: u32, push: u32, op: Instr) -> Seq<Instr> {
    seq![Instr::Call(pop), Instr::SetLocal(0), Instr::Call(pop), Instr::GetLocal(0), op, Instr::Call(push)]
}

/// Builds [`binary_i32_code`].
fn binary_i32(pop: u32, push: u32, op: Instr) -> (r: Vec<Instr>)
    ensures
        r@ == binary_i32_code(pop, push, op),
{
    let mut res = two_i32_args(pop);
    res.push(op);
    res.push(Instr::Call(push));
    assert(res@ =~= seq![Instr::Call(pop), Instr::SetLocal(0), Instr::Call(pop), Instr::GetLocal(0), op, Instr::Call(push)]);
    res
}

/// Code for a binary operation on the two top double cells.
pub open spec fn binary_i64_code(pop_d: u32, push_d: u32, op: Instr) -> Seq<Instr> {
    seq![Instr::Call(pop_d), Instr::SetLocal(2), Instr::Call(pop_d), Instr::GetLocal(2), op, Instr::Call(push_d)]
}

/// Builds [`binary_i64_code`].
fn binary_i64(pop_d: u32, push_d: u32, op: Instr) -> (r: Vec<Instr>)
    ensures
        r@ == binary_i64_code(pop_d, push_d, op),
{
    let mut res = two_i64_args(pop_d);
    res.push(op);
    res.push(Instr::Call(push_d));
    assert(res@ =~= seq![Instr::Call(pop_d), Instr::SetLocal(2), Instr::Call(pop_d), Instr::GetLocal(2), op, Instr::Call(push_d)]);
    res
}

/// Code for a comparison of the two top cells, pushing a Forth flag: 0 for
/// false, -1 for true.
pub open spec fn binary_i32_bool_code(pop: u32, push: u32, op: Instr) -> Seq<Instr> {
    seq![
        Instr::I32Const(0), Instr::Call(pop), Instr::SetLocal(0), Instr::Call(pop), Instr::GetLocal(0),
        op, Instr::I32Sub, Instr::Call(push),
    ]
}

/// Builds [`binary_i32_bool_code`].
fn binary_i32_bool(pop: u32, push: u32, op: Instr) -> (r: Vec<Instr>)
    ensures
        r@ == binary_i32_bool_code(pop, push, op),
{
    let mut res = vec![Instr::I32Const(0)];
    let mut args = two_i32_args(pop);
    res.append(&mut args);
    res.push(op);
    res.push(Instr::I32Sub);
    res.push(Instr::Call(push));
    assert(res@ =~= seq![
        Instr::I32Const(0), Instr::Call(pop), Instr::SetLocal(0), Instr::Call(pop), Instr::GetLocal(0),
        op, Instr::I32Sub, Instr::Call(push),
    ]);
    res
}

/// Code for a comparison of the two top double cells, pushing a Forth flag.
pub open spec fn binary_i64_bool_code(pop_d: u32, push: u32, op: Instr) -> Seq<Instr> {
    seq![
        Instr::I32Const(0), Instr::Call(pop_d), Instr::SetLocal(2), Instr::Call(pop_d), Instr::GetLocal(2),
        op, Instr::I32Sub, Instr::Call(push),
    ]
}

/// Builds [`binary_i64_bool_code`].
fn binary_i64_bool(pop_d: u32, push: u32, op: Instr) -> (r: Vec<Instr>)
    ensures
        r@ == binary_i64_bool_code(pop_d, push, op),
{
    let mut res = vec![Instr::I32Const(0)];
    let mut args = two_i64_args(pop_d);
    res.append(&mut args);
    res.push(op);
    res.push(Instr::I32Sub);
    res.push(Instr::Call(push));
    assert(res@ =~= seq![
        Instr::I32Const(0), Instr::Call(pop_d), Instr::SetLocal(2), Instr::Call(pop_d), Instr::GetLocal(2),
        op, Instr::I32Sub, Instr::Call(push),
    ]);
    res
}

/// Code for `( mask addr -- )`: updates the cell at `addr` by combining it
/// with `mask` through `manip`.
pub open spec fn bitmanip_code(pop: u32, manip: Seq<Instr>) -> Seq<Instr> {
    seq![Instr::Call(pop), Instr::TeeLocal(0), Instr::GetLocal(0), Instr::I32Load(2, 0), Instr::Call(pop)]
            + manip + seq![Instr::I32Store(2, 0)]
}

/// Builds [`bitmanip_code`].
fn bitmanip(pop: u32, manip: Vec<Instr>) -> (r: Vec<Instr>)
    ensures
        r@ == bitmanip_code(pop, manip@),
{
    let mut instructions = vec![
        Instr::Call(pop),
        Instr::TeeLocal(0),
        Instr::GetLocal(0),
        Instr::I32Load(2, 0),
        Instr::Call(pop),
    ];
    let ghost given = manip@;
    let mut manip = manip;
    instructions.append(&mut manip);
    instructions.push(Instr::I32Store(2, 0));
    assert(instructions@ =~= seq![Instr::Call(pop), Instr::TeeLocal(0), Instr::GetLocal(0), Instr::I32Load(2, 0), Instr::Call(pop)]
        + given + seq![Instr::I32Store(2, 0)]);
    instructions
}

/// Code pushing a cell onto the stack whose pointer is global `stack`; the
/// stack grows down.
pub open spec fn push_code(stack: u32) -> Seq<Instr> {
    seq![
        Instr::GetGlobal(stack), Instr::I32Const(4), Instr::I32Sub, Instr::SetGlobal(stack),
        Instr::GetGlobal(stack), Instr::GetLocal(0), Instr::I32Store(2, 0), Instr::End,
    ]
}

/// Code popping a cell from the stack whose pointer is global `stack`.
pub open spec fn pop_code(stack: u32) -> Seq<Instr> {
    seq![
        Instr::GetGlobal(stack), Instr::I32Load(2, 0), Instr::GetGlobal(stack), Instr::I32Const(4),
        Instr::I32Add, Instr::SetGlobal(stack), Instr::End,
    ]
}

/// Adds the push and pop functions of the stack whose pointer is global
/// `stack` and returns their ids.
fn define_stack(assembler: &mut Assembler, stack: u32) -> (r: (u32, u32))
    ensures
        r.0 == old(assembler)@.next_func_id(),
        r.1 == old(assembler)@.with_native(seq![ValType::I32], seq![], seq![], push_code(stack)).next_func_id(),
        final(assembler)@ == old(assembler)@.with_native(seq![ValType::I32], seq![], seq![], push_code(stack))
            .with_native(seq![], seq![ValType::I32], seq![], pop_code(stack)),
{
    let push_instructions = vec![
        // decrement stack pointer
        Instr::GetGlobal(stack),
        Instr::I32Const(4),
        Instr::I32Sub,
        Instr::SetGlobal(stack),
        // write data
        Instr::GetGlobal(stack),
        Instr::GetLocal(0),
        Instr::I32Store(2, 0),
        Instr::End,
    ];
    assert(push_instructions@ =~= push_code(stack));
    let cell = vec![ValType::I32];
    assert(cell@ =~= seq![ValType::I32]);
    let push = assembler.add_native_func(cell, vec![], vec![], push_instructions);

    let pop_instructions = vec![
        // read data
        Instr::GetGlobal(stack),
        Instr::I32Load(2, 0),
        // increment stack pointer
        Instr::GetGlobal(stack),
        Instr::I32Const(4),
        Instr::I32Add,
        Instr::SetGlobal(stack),
        Instr::End,
    ];
    assert(pop_instructions@ =~= pop_code(stack));
    let cell = vec![ValType::I32];
    assert(cell@ =~= seq![ValType::I32]);
    let pop = assembler.add_native_func(vec![], cell, vec![], pop_instructions);

    (push, pop)
}

impl Compiler {
    /// The compiler's bookkeeping is consistent, and the end of the
    /// dictionary and every execution token are multiples of 4.
    pub closed spec fn wf(&self) -> bool {
        &&& self.execution_tokens.wf()
        &&& self.cp % 4 == 0
        &&& forall|k: Seq<u8>|
            #[trigger] self.execution_tokens.map().contains_key(k) ==> self.execution_tokens.map()[k] % 4 == 0
    }

    /// Law (alignment): the end of the dictionary and every execution token
    /// of a well-formed compiler are multiples of 4. Every operation of the
    /// compiler keeps it well formed, so `ALIGNED`, `NAME>BACKWORD` and
    /// `NAME>XT` find the fields of every entry.
    pub proof fn lemma_aligned(&self)
        requires
            self.wf(),
        ensures
            self@.cp % 4 == 0,
            forall|k: Seq<u8>| #[trigger] self@.tokens.contains_key(k) ==> self@.tokens[k] % 4 == 0,
    {
    }

    /// Adds a dictionary entry for `name` with the given code cell and parameter.
    fn define_word(&mut self, name: &str, code: u32, parameter: &[u8])
        requires
            old(self).wf(),
            parameter@.len() % 4 == 0,
        ensures
            final(self)@.defines(name),
            grows(old(self)@, final(self)@),
            final(self)@.export_all == old(self)@.export_all,
            final(self).wf(),
            final(self)@ == old(self)@.with_entry(name@, code, parameter@),
    {
        reveal(word_key);
        reveal(CompilerSpec::with_entry);
        let old_latest_address = self.latest_address;
        let latest_address = self.cp;
        let name_bytes = name.as_bytes();

        let mut data: Vec<u8> = Vec::new();
        data.push(#[verifier::truncate] (name_bytes.len() as u8));
        push_bytes(&mut data, name_bytes);
        let pad = required_padding(1i32.wrapping_add(#[verifier::truncate] (name_bytes.len() as i32)));
        proof {
            crate::layout::lemma_padding(add32(1, name_bytes@.len() as i32));
        }
        push_zeros(&mut data, pad as usize);
        push_cell(&mut data, old_latest_address);
        push_cell(&mut data, code as i32);
        push_bytes(&mut data, parameter);
        assert(data@ =~= entry_bytes(name.spec_bytes(), old_latest_address, code, parameter@));
        let data_len = data.len();
        proof {
            lemma_entry_aligned(latest_address, name.spec_bytes(), old_latest_address, code, parameter@);
        }

        // record the execution token for later lookups
        let xt = latest_address.wrapping_add(Self::header_size(name)).wrapping_sub(4);
        self.execution_tokens.insert(name, xt);

        let cp = self.cp.wrapping_add(#[verifier::truncate] (data.len() as i32));
        let ghost tokens = self@.tokens;
        self.assembler.add_data(self.cp, data);
        assert(self@.tokens == tokens);
        self.cp = cp;
        self.latest_address = latest_address;
    }

    /// The size of the dictionary header for `name`.
    fn header_size(name: &str) -> (r: i32)
        ensures
            r == header_size(name.spec_bytes()),
    {
        let len = #[verifier::truncate] (name.as_bytes().len() as i32);
        align(1i32.wrapping_add(len)).wrapping_add(4).wrapping_add(4)
    }

    /// Adds a function taking the address of a word's parameter and an
    /// immediate, and returns the table slot through which it is called.
    fn create_native_callable(&mut self, locals: Vec<ValType>, instructions: Vec<Instr>) -> (r: u32)
        requires
            old(self).wf(),
        ensures
            final(self)@.tokens == old(self)@.tokens,
            grows(old(self)@, final(self)@),
            final(self)@.export_all == old(self)@.export_all,
            final(self).wf(),
            r == old(self)@.assembler.table.len() as u32,
            final(self)@ == (CompilerSpec {
                assembler: old(self)@.callable_assembler(locals@, instructions@),
                ..old(self)@
            }),
    {
        let mut instructions = instructions;
        instructions.push(Instr::End);
        let func = self.assembler.add_native_func(
            vec![ValType::I32, ValType::I32],
            vec![],
            locals,
            instructions,
        );
        self.assembler.add_table_entry(func)
    }

    /// Defines `name` as a word running the given WebAssembly code.
    fn define_native_word(&mut self, name: &str, locals: Vec<ValType>, instructions: Vec<Instr>)
        requires
            old(self).wf(),
        ensures
            final(self)@.defines(name),
            grows(old(self)@, final(self)@),
            final(self)@.export_all == old(self)@.export_all,
            final(self).wf(),
            final(self)@ == old(self)@.with_native_word(name@, locals@, instructions@),
    {
        reveal(CompilerSpec::with_entry);
        reveal(CompilerSpec::with_native_word);
        let ghost body = instructions@;
        let code = self.create_native_callable(locals, instructions);
        self.codes = Ghost(self.codes@.insert(name@, body));
        let empty: Vec<u8> = Vec::new();
        self.define_word(name, code, empty.as_slice());
    }

    /// Defines `name` as a constant pushing `value`.
    pub fn define_constant_word(&mut self, name: &str, value: i32)
        requires
            old(self).wf(),
        ensures
            final(self)@.defines(name),
            grows(old(self)@, final(self)@),
            final(self)@.export_all == old(self)@.export_all,
            final(self).wf(),
            final(self)@ == old(self)@.with_entry(name@, old(self)@.docon, le32(value)),
    {
        reveal(CompilerSpec::with_entry);
        let docon = self.docon;
        let mut bytes: Vec<u8> = Vec::new();
        push_cell(&mut bytes, value);
        proof {
            crate::layout::lemma_le32(value);
        }
        self.define_word(name, docon, bytes.as_slice());
    }

    /// Defines `name` as a variable: its parameter is one cell holding
    /// `initial_value`, and running it pushes the cell's address.
    pub fn define_variable_word(&mut self, name: &str, initial_value: i32)
        requires
            old(self).wf(),
        ensures
            final(self)@.defines(name),
            grows(old(self)@, final(self)@),
            final(self)@.export_all == old(self)@.export_all,
            final(self).wf(),
            final(self)@ == old(self)@.with_entry(
                name@,
                old(self)@.dovar,
                le32(initial_value),
            ),
    {
        reveal(CompilerSpec::with_entry);
        let dovar = self.dovar;
        let mut bytes: Vec<u8> = Vec::new();
        push_cell(&mut bytes, initial_value);
        proof {
            crate::layout::lemma_le32(initial_value);
        }
        self.define_word(name, dovar, bytes.as_slice());
    }

    /// Defines `name` as a colon word running `values` and then `EXIT`.
    /// Jump offsets are turned into absolute addresses.
    pub fn define_colon_word(&mut self, name: &str, values: Vec<ColonValue>)
        requires
            old(self).wf(),
            colon_words_defined(values@, old(self)@),
        ensures
            final(self)@.defines(name),
            grows(old(self)@, final(self)@),
            final(self)@.export_all == old(self)@.export_all,
            final(self).wf(),
            final(self)@ == old(self)@.with_colon_word(name, values@),
    {
        reveal(word_key);
        let docol = self.docol;
        let lit_xt = self.get_execution_token("LIT");
        let branch_xt = self.get_execution_token("BRANCH");
        let q_branch_xt = self.get_execution_token("?BRANCH");
        let mut bytes: Vec<u8> = Vec::new();
        // track the end of the dictionary as we go, to turn relative jumps absolute
        let start = self.cp.wrapping_add(Self::header_size(name));
        let mut cp = start;
        let ghost c = self@;
        let mut i: usize = 0;
        assert(values@.skip(0) =~= values@);
        assert(bytes@ + colon_code(values@, start, c) =~= colon_code(values@, start, c));
        while i < values.len()
            invariant
                self.wf(),
                self@ == c,
                c == old(self)@,
                colon_words_defined(values@, c),
                lit_xt == c.token("LIT"),
                branch_xt == c.token("BRANCH"),
                q_branch_xt == c.token("?BRANCH"),
                i <= values@.len(),
                bytes@.len() % 4 == 0,
                bytes@ + colon_code(values@.skip(i as int), cp, c) == colon_code(values@, start, c),
            decreases values@.len() - i,
        {
            let ghost rest = values@.skip(i as int);
            assert(rest.drop_first() =~= values@.skip(i + 1));
            assert(rest[0] == values@[i as int]);
            let ghost before = bytes@;
            let ghost cp0 = cp;
            match &values[i] {
                ColonValue::XT(word) => {
                    let xt = self.get_execution_token(word);
                    push_cell(&mut bytes, xt);
                    cp = cp.wrapping_add(4);
                },
                ColonValue::Lit(value) => {
                    push_cell(&mut bytes, lit_xt);
                    push_cell(&mut bytes, *value);
                    cp = cp.wrapping_add(8);
                },
                ColonValue::StringLit(value) => {
                    let text = value.as_str().as_bytes();
                    let text_len = text.len();
                    assert(text@ == string_bytes(*value));
                    let data_start = cp.wrapping_add(8);
                    let data_len = #[verifier::truncate] (text.len() as i32);
                    let pad = required_padding(data_len);
                    proof {
                        crate::layout::lemma_padding(data_len);
                    }
                    let target = data_start.wrapping_add(data_len).wrapping_add(pad);
                    push_cell(&mut bytes, branch_xt);
                    push_cell(&mut bytes, target);
                    push_bytes(&mut bytes, text);
                    push_zeros(&mut bytes, pad as usize);
                    push_cell(&mut bytes, lit_xt);
                    push_cell(&mut bytes, data_start);
                    push_cell(&mut bytes, lit_xt);
                    push_cell(&mut bytes, data_len);
                    cp = target.wrapping_add(16);
                },
                ColonValue::Branch(offset) => {
                    cp = cp.wrapping_add(8);
                    let target = cp.wrapping_add(*offset);
                    push_cell(&mut bytes, branch_xt);
                    push_cell(&mut bytes, target);
                },
                ColonValue::QBranch(offset) => {
                    cp = cp.wrapping_add(8);
                    let target = cp.wrapping_add(*offset);
                    push_cell(&mut bytes, q_branch_xt);
                    push_cell(&mut bytes, target);
                },
            }
            proof {
                let item = colon_item(values@[i as int], cp0, c);
                lemma_colon_item_aligned(values@[i as int], cp0, c);
                assert(bytes@ =~= before + item.0);
                assert(cp == item.1);
                assert(colon_code(rest, cp0, c) == item.0 + colon_code(rest.drop_first(), item.1, c));
                assert(bytes@ + colon_code(values@.skip(i + 1), cp, c) =~= before + colon_code(rest, cp0, c));
            }
            i = i + 1;
        }
        assert(values@.skip(i as int) =~= Seq::<ColonValue>::empty());
        let exit_xt = self.get_execution_token("EXIT");
        push_cell(&mut bytes, exit_xt);
        proof {
            crate::layout::lemma_le32(exit_xt);
        }
        reveal(CompilerSpec::with_entry);
        self.define_word(name, docol, bytes.as_slice());
        self.colons = Ghost(self.colons@.insert(name@, values@));
    }

    /// Defines `name` as a native word calling the function imported as
    /// `module`.`field`: its parameters are taken from the Forth stack (the
    /// last one from the top), and its results are left there (the last one on
    /// top), so the word's stack effect matches the function's signature.
    pub fn define_imported_word(
        &mut self,
        name: &str,
        module: &str,
        field: &str,
        params: Vec<ParamType>,
        results: Vec<ParamType>,
    )
        requires
            old(self).wf(),
            total_bytes(params@) <= i32::MAX,
            total_bytes(results@) <= i32::MAX,
        ensures
            final(self)@.defines(name),
            grows(old(self)@, final(self)@),
            final(self)@.export_all == old(self)@.export_all,
            final(self).wf(),
            final(self)@ == old(self)@.with_imported_word(
                name@,
                module@,
                field@,
                params@,
                results@,
            ),
    {
        reveal(CompilerSpec::with_entry);
        reveal(CompilerSpec::with_native_word);
        reveal(CompilerSpec::with_imported_word);
        let ghost tokens = self@.tokens;
        let func = self.assembler.add_imported_func(
            module.to_owned(),
            field.to_owned(),
            Self::to_value_types(&params),
            Self::to_value_types(&results),
        );
        assert(self@.tokens == tokens);
        let params_bytes = Self::sum_bytes(&params);
        let results_bytes = Self::sum_bytes(&results);

        // Define a native word to call the import using the stack
        let locals = if results.len() == 0 {
            vec![]
        } else {
            vec![ValType::I64]
        };
        let mut instructions: Vec<Instr> = Vec::new();
        if params.len() > 0 {
            instructions.push(Instr::GetGlobal(self.stack));
            instructions.push(Instr::TeeLocal(0));
            let mut param_offset = params_bytes;
            // pass parameters in LIFO order, so stack effects match function signatures
            let mut k: usize = 0;
            while k < params.len()
                invariant
                    k <= params@.len(),
                    params_bytes == total_bytes(params@),
                    total_bytes(params@) <= i32::MAX,
                    param_offset == total_bytes(params@) - total_bytes(params@.take(k as int)),
                    instructions@ == seq![Instr::GetGlobal(self.stack), Instr::TeeLocal(0)]
                        + params_code(params@, k as int),
                decreases params@.len() - k,
            {
                proof {
                    lemma_total_bytes_take(params@, k as int);
                    lemma_total_bytes_prefix(params@, k + 1);
                }
                if k > 0 {
                    instructions.push(Instr::GetLocal(0));
                }
                param_offset = param_offset - params[k].bytes();
                params[k].load(param_offset, &mut instructions);
                k = k + 1;
                assert(instructions@ =~= seq![Instr::GetGlobal(self.stack), Instr::TeeLocal(0)]
                    + params_code(params@, k as int));
            }
        }
        instructions.push(Instr::Call(func));
        // If the stack size has changed, move the stack pointer appropriately
        if params_bytes != results_bytes {
            if params.len() > 0 {
                instructions.push(Instr::GetLocal(0));
            } else {
                instructions.push(Instr::GetGlobal(self.stack));
            }
            let delta = params_bytes as i32 - results_bytes as i32;
            instructions.push(Instr::I32Const(delta));
            instructions.push(Instr::I32Add);
            if results.len() > 0 {
                // hold onto the new stack head so we can write results
                instructions.push(Instr::TeeLocal(0));
            }
            instructions.push(Instr::SetGlobal(self.stack));
        }
        let ghost middle = instructions@;
        // store results in FIFO order, also so stack effects can match signatures
        // at this point, local 0 holds the head (lowest address) of the stack
        let mut result_offset: u32 = 0;
        let mut k: usize = 0;
        assert(results@.take(results@.len() as int) =~= results@);
        while k < results.len()
            invariant
                k <= results@.len(),
                total_bytes(results@) <= i32::MAX,
                result_offset == total_bytes(results@) - total_bytes(
                    results@.take(results@.len() - k),
                ),
                instructions@ == middle + results_code(results@, k as int),
            decreases results@.len() - k,
        {
            let j = results.len() - 1 - k;
            proof {
                lemma_total_bytes_take(results@, j as int);
                lemma_total_bytes_prefix(results@, j + 1);
            }
            let t = results[j];
            let local = match t {
                ParamType::I32 => 1,
                ParamType::I64 => 2,
            };
            instructions.push(Instr::SetLocal(local));
            instructions.push(Instr::GetLocal(0));
            instructions.push(Instr::GetLocal(local));
            t.store(result_offset, &mut instructions);
            result_offset = result_offset + t.bytes();
            k = k + 1;
            assert(instructions@ =~= middle + results_code(results@, k as int));
        }
        proof {
            let head = if params@.len() > 0 {
                seq![Instr::GetGlobal(self.stack), Instr::TeeLocal(0)] + params_code(params@, params@.len() as int)
            } else {
                seq![]
            };
            assert(instructions@ =~= import_call_code(self.stack, func, params@, results@));
            assert(locals@ =~= (if results@.len() == 0 { seq![] } else { seq![ValType::I64] }));
        }
        self.define_native_word(name, locals, instructions);
    }

    /// The WebAssembly value types of `ts`.
    fn to_value_types(ts: &Vec<ParamType>) -> (r: Vec<ValType>)
        ensures
            r@ == value_types(ts@),
    {
        let mut r: Vec<ValType> = Vec::new();
        let mut k: usize = 0;
        while k < ts.len()
            invariant
                k <= ts@.len(),
                r@ == value_types(ts@.take(k as int)),
            decreases ts@.len() - k,
        {
            r.push(
                match ts[k] {
                    ParamType::I32 => ValType::I32,
                    ParamType::I64 => ValType::I64,
                },
            );
            k = k + 1;
            assert(r@ =~= value_types(ts@.take(k as int)));
        }
        assert(ts@.take(k as int) =~= ts@);
        r
    }

    /// The total number of stack bytes of `ts`.
    fn sum_bytes(ts: &Vec<ParamType>) -> (r: u32)
        requires
            total_bytes(ts@) <= i32::MAX,
        ensures
            r == total_bytes(ts@),
    {
        let mut r: u32 = 0;
        let mut k: usize = 0;
        while k < ts.len()
            invariant
                k <= ts@.len(),
                total_bytes(ts@) <= i32::MAX,
                r == total_bytes(ts@.take(k as int)),
            decreases ts@.len() - k,
        {
            proof {
                lemma_total_bytes_take(ts@, k as int);
                lemma_total_bytes_prefix(ts@, k + 1);
            }
            r = r + ts[k].bytes();
            k = k + 1;
        }
        assert(ts@.take(k as int) =~= ts@);
        r
    }

    /// Adds a mutable i32 global and returns its index.
    fn add_global(&mut self, initial_value: i32) -> (r: u32)
        requires
            old(self).wf(),
        ensures
            final(self)@.tokens == old(self)@.tokens,
            grows(old(self)@, final(self)@),
            final(self)@.export_all == old(self)@.export_all,
            final(self).wf(),
            r == old(self)@.assembler.globals.len() as u32,
            final(self)@ == (CompilerSpec {
                assembler: AssemblerSpec {
                    globals: old(self)@.assembler.globals.push(initial_value),
                    ..old(self)@.assembler
                },
                ..old(self)@
            }),
    {
        self.assembler.add_global(initial_value)
    }

    fn define_stacks(&mut self)
        requires
            old(self).wf(),
        ensures
            final(self)@ == with_stack_words(old(self)@),
            final(self).wf(),
            grows(old(self)@, final(self)@),
            final(self)@.export_all == old(self)@.export_all,
            stack_words_defined(final(self)@),
    {
        reveal(with_stack_functions);
        reveal(with_stack_word_defs);
        reveal(stack_words_defined);
        // define the normal stack
        let stack = self.add_global(PARAM_STACK_BASE);
        let ghost tokens = self@.tokens;
        let (push, pop) = define_stack(&mut self.assembler, stack);
        assert(self@.tokens == tokens);
        let ghost tokens = self@.tokens;
        self.stack = stack;
        self.push = push;
        self.pop = pop;
        assert(self@.tokens == tokens);

        let ghost tokens = self@.tokens;
        let push_d = self.assembler.add_native_func(
            vec![ValType::I64],
            vec![],
            vec![],
            vec![
                // decrement stack pointer
                Instr::GetGlobal(stack),
                Instr::I32Const(8),
                Instr::I32Sub,
                Instr::SetGlobal(stack),
                // write data
                Instr::GetGlobal(stack),
                Instr::GetLocal(0),
                Instr::I64Const(32),
                Instr::I64Rotl,
                Instr::I64Store(3, 0),
                Instr::End,
            ],
        );
        assert(self@.tokens == tokens);
        let ghost tokens = self@.tokens;
        let pop_d = self.assembler.add_native_func(
            vec![],
            vec![ValType::I64],
            vec![],
            vec![
                // read data
                Instr::GetGlobal(stack),
                Instr::I64Load(3, 0),
                Instr::I64Const(32),
                Instr::I64Rotl,
                // increment stack pointer
                Instr::GetGlobal(stack),
                Instr::I32Const(8),
                Instr::I32Add,
                Instr::SetGlobal(stack),
                Instr::End,
            ],
        );
        assert(self@.tokens == tokens);
        let ghost tokens = self@.tokens;
        self.push_d = push_d;
        self.pop_d = pop_d;
        assert(self@.tokens == tokens);

        // define the return stack
        let r_stack = self.add_global(RETURN_STACK_BASE);
        let ghost tokens = self@.tokens;
        let (push_r, pop_r) = define_stack(&mut self.assembler, r_stack);
        assert(self@.tokens == tokens);
        let ghost tokens = self@.tokens;
        self.push_r = push_r;
        self.pop_r = pop_r;
        assert(self@.tokens == tokens);

        self.define_native_word(
            "DUP",
            vec![],
            vec![
                // just push the top of the stack onto itself
                Instr::GetGlobal(stack),
                Instr::I32Load(2, 0),
                Instr::Call(push),
            ],
        );
        self.define_native_word(
            "?DUP",
            vec![],
            vec![
                Instr::GetGlobal(stack),
                Instr::I32Load(2, 0),
                Instr::TeeLocal(0),
                Instr::If(BlockType::NoResult),
                Instr::GetLocal(0),
                Instr::Call(push),
                Instr::End,
            ],
        );
        self.define_native_word(
            "2DUP",
            vec![],
            vec![
                Instr::GetGlobal(stack),
                Instr::I32Const(8),
                Instr::I32Sub,
                Instr::TeeLocal(0),
                Instr::SetGlobal(stack), // reserve room for two new words
                Instr::GetLocal(0),
                Instr::GetLocal(0),
                Instr::I64Load(3, 8),
                Instr::I64Store(3, 0),
            ],
        );
        self.define_native_word(
            "DROP",
            vec![],
            vec![
                // just increment the stack pointer
                Instr::GetGlobal(stack),
                Instr::I32Const(4),
                Instr::I32Add,
                Instr::SetGlobal(stack),
            ],
        );
        self.define_native_word(
            "2DROP",
            vec![],
            vec![
                // just increment the stack pointer
                Instr::GetGlobal(stack),
                Instr::I32Const(8),
                Instr::I32Add,
                Instr::SetGlobal(stack),
            ],
        );
        self.define_native_word(
            "SWAP",
            vec![],
            vec![
                // don't bother touching the stack pointer
                Instr::GetGlobal(stack),
                Instr::TeeLocal(0),
                Instr::GetLocal(0),
                Instr::I32Load(2, 0),
                Instr::GetLocal(0),
                Instr::GetLocal(0),
                Instr::I32Load(2, 4),
                Instr::I32Store(2, 0),
                Instr::I32Store(2, 4),
            ],
        );
        self.define_native_word(
            "2SWAP",
            vec![],
            vec![
                // don't bother touching the stack pointer
                Instr::GetGlobal(stack),
                Instr::TeeLocal(0),
                Instr::GetLocal(0),
                Instr::I64Load(3, 0),
                Instr::GetLocal(0),
                Instr::GetLocal(0),
                Instr::I64Load(3, 8),
                Instr::I64Store(3, 0),
                Instr::I64Store(3, 8),
            ],
        );
        self.define_native_word(
            "OVER",
            vec![],
            vec![
                Instr::GetGlobal(stack),
                Instr::I32Const(4),
                Instr::I32Sub,
                Instr::TeeLocal(0),
                Instr::SetGlobal(stack),
                Instr::GetLocal(0),
                Instr::GetLocal(0),
                Instr::I32Load(2, 8),
                Instr::I32Store(2, 0),
            ],
        );
        self.define_native_word(
            "2OVER",
            vec![],
            vec![
                Instr::GetGlobal(stack),
                Instr::I32Const(8),
                Instr::I32Sub,
                Instr::TeeLocal(0),
                Instr::SetGlobal(stack),
                Instr::GetLocal(0),
                Instr::GetLocal(0),
                Instr::I64Load(2, 16),
                Instr::I64Store(2, 0),
            ],
        );
        self.define_native_word(
            "NIP",
            vec![],
            vec![
                Instr::GetGlobal(stack),
                Instr::TeeLocal(0),
                Instr::GetLocal(0),
                Instr::I32Load(2, 0),  // retrieve value of head
                Instr::I32Store(2, 4), // store in head + 4
                Instr::GetLocal(0),
                Instr::I32Const(4),
                Instr::I32Add,
                Instr::SetGlobal(stack), // head += 4
            ],
        );
        self.define_native_word(
            "TUCK",
            vec![],
            vec![
                Instr::GetGlobal(stack),
                Instr::I32Const(4),
                Instr::I32Sub,
                Instr::TeeLocal(0), // save head - 4
                Instr::I32Load(2, 4),
                Instr::SetLocal(1), // save [head]
                // start moving
                Instr::GetLocal(0),
                Instr::GetLocal(0),
                Instr::I32Load(2, 8),
                Instr::I32Store(2, 4), // store [head + 4] in head
                Instr::GetLocal(0),
                Instr::GetLocal(1),
                Instr::I32Store(2, 8), // store old [head] in head + 4
                Instr::GetLocal(0),
                Instr::GetLocal(1),
                Instr::I32Store(2, 0), // store old [head] in head - 4
                // and just save the new stack ptr and we're done
                Instr::GetLocal(0),
                Instr::SetGlobal(stack),
            ],
        );
        self.define_native_word(
            "ROT",
            vec![],
            vec![
                // spin your elements round and round
                Instr::GetGlobal(stack),
                Instr::TeeLocal(0),
                Instr::GetLocal(0),
                Instr::I32Load(2, 0),
                Instr::GetLocal(0),
                Instr::GetLocal(0),
                Instr::I32Load(2, 4),
                Instr::GetLocal(0),
                Instr::GetLocal(0),
                Instr::I32Load(2, 8),
                Instr::I32Store(2, 0),
                Instr::I32Store(2, 8),
                Instr::I32Store(2, 4),
            ],
        );
        self.define_native_word(
            "-ROT",
            vec![],
            vec![
                // like two rots, or rot backwards
                Instr::GetGlobal(stack),
                Instr::TeeLocal(0),
                Instr::GetLocal(0),
                Instr::I32Load(2, 0),
                Instr::GetLocal(0),
                Instr::GetLocal(0),
                Instr::I32Load(2, 4),
                Instr::GetLocal(0),
                Instr::GetLocal(0),
                Instr::I32Load(2, 8),
                Instr::I32Store(2, 4),
                Instr::I32Store(2, 0),
                Instr::I32Store(2, 8),
            ],
        );
        self.define_native_word(
            "PICK",
            vec![],
            vec![
                Instr::GetGlobal(stack),
                Instr::TeeLocal(0),
                Instr::GetLocal(0),
                Instr::I32Load(2, 0), // read the head of the stack
                Instr::I32Const(1),
                Instr::I32Add, // + to account for the address itself at the top of the stack
                Instr::I32Const(2),
                Instr::I32Shl, // * 4 to make it an offset
                Instr::GetLocal(0),
                Instr::I32Add,
                Instr::I32Load(2, 0),  // read that offset from the head
                Instr::I32Store(2, 0), // and store it back in the head
            ],
        );
        self.define_native_word(
            "DEPTH",
            vec![],
            vec![
                Instr::I32Const(PARAM_STACK_BASE),
                Instr::GetGlobal(stack),
                Instr::I32Sub,
                Instr::I32Const(2),
                Instr::I32ShrU,
                Instr::Call(push),
            ],
        );
        self.define_native_word(">R", vec![], vec![Instr::Call(pop), Instr::Call(push_r)]);
        self.define_native_word("R>", vec![], vec![Instr::Call(pop_r), Instr::Call(push)]);
        self.define_native_word(
            "R@",
            vec![],
            vec![Instr::GetGlobal(r_stack), Instr::I32Load(2, 0), Instr::Call(push)],
        );
        self.define_native_word(
            "R-DEPTH",
            vec![],
            vec![
                Instr::I32Const(RETURN_STACK_BASE),
                Instr::GetGlobal(r_stack),
                Instr::I32Sub,
                Instr::I32Const(2),
                Instr::I32ShrU,
                Instr::Call(push),
            ],
        );
    }

    fn define_memory(&mut self)
        requires
            old(self).wf(),
        ensures
            final(self)@ == with_memory_words(old(self)@),
            final(self).wf(),
            grows(old(self)@, final(self)@),
            final(self)@.export_all == old(self)@.export_all,
            memory_words_defined(final(self)@),
    {
        reveal(with_memory_words);
        reveal(memory_words_defined);
        let push = self.push;
        let pop = self.pop;

        // constants
        let docon = self.create_native_callable(
            vec![],
            vec![
                // The value of our parameter is the value of the constant, just fetch and push it
                Instr::GetLocal(0),
                Instr::I32Load(2, 0),
                Instr::Call(push),
            ],
        );
        let ghost tokens = self@.tokens;
        self.docon = docon;
        assert(self@.tokens == tokens);
        self.define_constant_word("(DOCON)", #[verifier::truncate] (docon as i32));

        // variables
        let dovar = self.create_native_callable(
            vec![],
            vec![
                // the address of our parameter IS the address of the variable, just push it
                Instr::GetLocal(0),
                Instr::Call(push),
            ],
        );
        let ghost tokens = self@.tokens;
        self.dovar = dovar;
        assert(self@.tokens == tokens);
        self.define_constant_word("(DOVAR)", #[verifier::truncate] (dovar as i32));
        self.define_native_word("!", vec![], vec![Instr::Call(pop), Instr::Call(pop), Instr::I32Store(2, 0)]);
        self.define_native_word("@", vec![], vec![Instr::Call(pop), Instr::I32Load(2, 0), Instr::Call(push)]);
        self.define_native_word(
            "+!",
            vec![],
            vec![
                Instr::Call(pop),
                Instr::TeeLocal(0),
                Instr::GetLocal(0),
                Instr::I32Load(2, 0),
                Instr::Call(pop),
                Instr::I32Add,
                Instr::I32Store(2, 0),
            ],
        );
        self.define_native_word("C!", vec![], vec![Instr::Call(pop), Instr::Call(pop), Instr::I32Store8(0, 0)]);
        self.define_native_word("C@", vec![], vec![Instr::Call(pop), Instr::I32Load8U(0, 0), Instr::Call(push)]);

        // heap words
        self.define_constant_word("HEAP-BASE", HEAP_BASE);
        self.define_native_word("MEMORY.SIZE", vec![], vec![Instr::CurrentMemory(0), Instr::Call(push)]);
        self.define_native_word(
            "MEMORY.GROW",
            vec![],
            vec![Instr::Call(pop), Instr::GrowMemory(0), Instr::Call(push)],
        );
    }

    fn define_execution(&mut self)
        requires
            old(self).wf(),
        ensures
            final(self)@ == with_execution_words(old(self)@),
            final(self).wf(),
            grows(old(self)@, final(self)@),
            final(self)@.export_all == old(self)@.export_all,
            execution_words_defined(final(self)@),
    {
        reveal(with_execution_words);
        reveal(execution_words_defined);
        let push = self.push;
        let pop = self.pop;
        let push_r = self.push_r;
        let pop_r = self.pop_r;

        let ip = self.add_global(0);
        let ghost tokens = self@.tokens;
        self.ip = ip;
        assert(self@.tokens == tokens);
        let stopped = self.add_global(0);

        // "execute" takes an XT as a parameter and runs it
        let ghost tokens = self@.tokens;
        let callable_sig = self.assembler.add_type(vec![ValType::I32, ValType::I32], vec![]);
        assert(self@.tokens == tokens);
        let ghost tokens = self@.tokens;
        let execute = self.assembler.add_native_func(
            vec![ValType::I32],
            vec![],
            vec![ValType::I32],
            vec![
                // The argument is an execution token (XT).
                // In this system, an execution token is a 32-bit address.
                // The low 8 bits of the value are a table index,
                // and the rest are a 24-bit "immediate" value.
                // Any parameter data is stored immediately after it.
                // Call the func with:
                // arg0: the address of the parameter data.
                // arg1: the immediate
                Instr::GetLocal(0),
                Instr::I32Const(4),
                Instr::I32Add,
                Instr::GetLocal(0),
                Instr::I32Load(2, 0),
                Instr::TeeLocal(1),
                Instr::I32Const(8),
                Instr::I32ShrU, // top 24 bits are arg1
                Instr::GetLocal(1),
                Instr::I32Const(255),
                Instr::I32And, // bottom 8 bits are the func index
                Instr::CallIndirect(callable_sig, 0),
                Instr::End,
            ],
        );
        assert(self@.tokens == tokens);
        self.define_native_word("EXECUTE", vec![], vec![Instr::Call(pop), Instr::Call(execute)]);

        // Start is the interpreter's main loop, it calls EXECUTE until the program says to stop.
        // Assuming that the caller has set IP to something reasonable first.
        let ghost tokens = self@.tokens;
        let start = self.assembler.add_native_func(
            vec![],
            vec![],
            vec![],
            vec![
                // mark that we should NOT stop yet
                Instr::I32Const(0),
                Instr::SetGlobal(stopped),
                // loop until execution is not "in progress"
                Instr::Loop(BlockType::NoResult),
                Instr::GetGlobal(ip), // IP is a pointer to an XT
                Instr::I32Load(2, 0), // Deref it to get our next XT
                Instr::Call(execute), // Run it
                Instr::GetGlobal(ip),
                Instr::I32Const(4),
                Instr::I32Add,
                Instr::SetGlobal(ip), // increment the IP
                // loop if we still have not been stopped
                Instr::GetGlobal(stopped),
                Instr::I32Eqz,
                Instr::BrIf(0),
                Instr::End,
                Instr::End,
            ],
        );
        assert(self@.tokens == tokens);
        let ghost tokens = self@.tokens;
        self.start = start;
        assert(self@.tokens == tokens);
        self.define_native_word("BYE", vec![], vec![Instr::I32Const(-1), Instr::SetGlobal(stopped)]);

        // DOCOL is how a colon word is executed. It just messes with the IP.
        let docol = self.create_native_callable(
            vec![],
            vec![
                // push IP onto the return stack
                Instr::GetGlobal(ip),
                Instr::Call(push_r),
                // Set IP to the head of our parameter
                Instr::GetLocal(0),
                Instr::I32Const(4),
                Instr::I32Sub,
                Instr::SetGlobal(ip),
            ],
        );
        let ghost tokens = self@.tokens;
        self.docol = docol;
        assert(self@.tokens == tokens);
        self.define_constant_word("(DOCOL)", #[verifier::truncate] (docol as i32));
        // EXIT is how a colon word returns. It just restores the old IP.
        self.define_native_word(
            "EXIT",
            vec![],
            vec![
                // Set IP to whatever's the head of the return stack
                Instr::Call(pop_r),
                Instr::SetGlobal(ip),
            ],
        );

        // DODOES is what lets you customize runtime behavior of a word.
        // It does what DOCOL does, except it also pushes a word onto the stack.
        let dodoes = self.create_native_callable(
            vec![],
            vec![
                // push the head of our parameter onto the stack
                Instr::GetLocal(0),
                Instr::Call(push),
                // push IP onto the return stack
                Instr::GetGlobal(ip),
                Instr::Call(push_r),
                // Set IP to our immediate
                Instr::GetLocal(1),
                Instr::I32Const(4),
                Instr::I32Sub,
                Instr::SetGlobal(ip),
            ],
        );
        self.define_constant_word("(DODOES)", #[verifier::truncate] (dodoes as i32));

        self.define_native_word(
            "LIT",
            vec![],
            vec![
                // The instruction pointer is pointing to LIT's XT inside of a colon definition.
                // The value after that is a literal; push it.
                Instr::GetGlobal(ip),
                Instr::I32Const(4),
                Instr::I32Add,
                Instr::TeeLocal(0),
                Instr::I32Load(2, 0),
                Instr::Call(push),
                // also increment IP appropriately
                Instr::GetLocal(0),
                Instr::SetGlobal(ip),
            ],
        );
        self.define_native_word(
            "BRANCH",
            vec![],
            vec![
                // The instruction pointer is pointing to BRANCH's XT inside of a colon definition.
                // The value after that is a literal jump address, jump there
                Instr::GetGlobal(ip),
                Instr::I32Load(2, 4),
                Instr::I32Const(4), // Subtract 4 to account for the main loop incrementing the IP itself
                Instr::I32Sub,
                Instr::SetGlobal(ip),
            ],
        );
        self.define_native_word(
            "?BRANCH",
            vec![],
            vec![
                // Branch if the head of the stack is "false" (0)
                Instr::Call(pop),
                Instr::I32Eqz,
                Instr::If(BlockType::Value(ValType::I32)),
                // Jump to literal-after-the-IP - 4
                Instr::GetGlobal(ip),
                Instr::I32Load(2, 4),
                Instr::I32Const(4),
                Instr::I32Sub,
                Instr::Else, // Just jump to 4-after-the-IP
                Instr::GetGlobal(ip),
                Instr::I32Const(4),
                Instr::I32Add,
                Instr::End,
                Instr::SetGlobal(ip),
            ],
        );
    }

    fn define_math(&mut self)
        requires
            old(self).wf(),
            stack_words_defined(old(self)@),
            execution_words_defined(old(self)@),
        ensures
            final(self).wf(),
            grows(old(self)@, final(self)@),
            final(self)@.export_all == old(self)@.export_all,
            math_words_defined(final(self)@),
            final(self)@ == with_math_words(old(self)@),
    {
        self.define_arithmetic();
        let ghost a = self@;
        self.define_bit_logic();
        let ghost b = self@;
        self.define_comparisons();
        proof {
            lemma_math_words_kept(a, self@);
            lemma_math_words_kept(b, self@);
            reveal(math_words_defined);
        }
    }

    /// Defines the arithmetic words.
    #[verifier::rlimit(100)]
    fn define_arithmetic(&mut self)
        requires
            old(self).wf(),
            stack_words_defined(old(self)@),
            execution_words_defined(old(self)@),
        ensures
            final(self)@ == with_arithmetic_words(old(self)@),
            final(self).wf(),
            grows(old(self)@, final(self)@),
            final(self)@.export_all == old(self)@.export_all,
            arithmetic_words_defined(final(self)@),
    {
        reveal(with_arithmetic_words);
        reveal(stack_words_defined);
        reveal(execution_words_defined);
        reveal(arithmetic_words_defined);
        let push = self.push;
        let pop = self.pop;
        let push_d = self.push_d;
        let pop_d = self.pop_d;
        self.define_native_word("+", vec![], binary_i32(pop, push, Instr::I32Add));
        self.define_native_word("-", vec![], binary_i32(pop, push, Instr::I32Sub));
        self.define_native_word("*", vec![], binary_i32(pop, push, Instr::I32Mul));

        self.define_native_word(
            "NEGATE",
            vec![],
            vec![Instr::I32Const(0), Instr::Call(pop), Instr::I32Sub, Instr::Call(push)],
        );
        self.define_native_word(
            "ABS",
            vec![],
            vec![
                Instr::Call(pop),
                Instr::TeeLocal(0),
                Instr::I32Const(31),
                Instr::I32ShrS,
                Instr::TeeLocal(1),
                Instr::GetLocal(0),
                Instr::I32Xor,
                Instr::GetLocal(1),
                Instr::I32Sub,
                Instr::Call(push),
            ],
        );

        self.define_native_word("S>D", vec![], vec![Instr::Call(pop), Instr::I64ExtendSI32, Instr::Call(push_d)]);
        self.define_native_word("D>S", vec![], vec![Instr::Call(pop_d), Instr::I32WrapI64, Instr::Call(push)]);
        self.define_native_word(
            "M+",
            vec![],
            vec![Instr::Call(pop), Instr::I64ExtendSI32, Instr::Call(pop_d), Instr::I64Add, Instr::Call(push_d)],
        );
        self.define_native_word("D+", vec![ValType::I64], binary_i64(pop_d, push_d, Instr::I64Add));
        self.define_native_word("D-", vec![ValType::I64], binary_i64(pop_d, push_d, Instr::I64Sub));
        self.define_native_word(
            "DABS",
            vec![ValType::I64, ValType::I64],
            vec![
                Instr::Call(pop_d),
                Instr::TeeLocal(2),
                Instr::I64Const(63),
                Instr::I64ShrS,
                Instr::TeeLocal(3),
                Instr::GetLocal(2),
                Instr::I64Xor,
                Instr::GetLocal(3),
                Instr::I64Sub,
                Instr::Call(push_d),
            ],
        );
        self.define_native_word(
            "DNEGATE",
            vec![],
            vec![Instr::I64Const(0), Instr::Call(pop_d), Instr::I64Sub, Instr::Call(push_d)],
        );

        self.define_native_word(
            "M*",
            vec![],
            vec![
                Instr::Call(pop),
                Instr::SetLocal(0),
                Instr::Call(pop),
                Instr::I64ExtendSI32,
                Instr::GetLocal(0),
                Instr::I64ExtendSI32,
                Instr::I64Mul,
                Instr::Call(push_d),
            ],
        );

        self.define_native_word(
            "UM*",
            vec![],
            vec![
                Instr::Call(pop),
                Instr::SetLocal(0),
                Instr::Call(pop),
                Instr::I64ExtendUI32,
                Instr::GetLocal(0),
                Instr::I64ExtendUI32,
                Instr::I64Mul,
                Instr::Call(push_d),
            ],
        );

        self.define_native_word(
            "D*",
            vec![],
            vec![
                Instr::Call(pop),
                Instr::SetLocal(0),
                Instr::Call(pop_d),
                Instr::GetLocal(0),
                Instr::I64ExtendSI32,
                Instr::I64Mul,
                Instr::Call(push_d),
            ],
        );

        self.define_native_word(
            "UD*",
            vec![],
            vec![
                Instr::Call(pop),
                Instr::SetLocal(0),
                Instr::Call(pop_d),
                Instr::GetLocal(0),
                Instr::I64ExtendUI32,
                Instr::I64Mul,
                Instr::Call(push_d),
            ],
        );

        self.define_native_word(
            "UM/MOD",
            vec![ValType::I64, ValType::I64],
            vec![
                Instr::Call(pop),
                Instr::I64ExtendSI32,
                Instr::SetLocal(3),
                Instr::Call(pop_d),
                Instr::TeeLocal(2),
                Instr::GetLocal(3),
                Instr::I64RemU,
                Instr::I32WrapI64,
                Instr::Call(push),
                Instr::GetLocal(2),
                Instr::GetLocal(3),
                Instr::I64DivU,
                Instr::I32WrapI64,
                Instr::Call(push),
            ],
        );

        self.define_native_word(
            "/MOD",
            vec![ValType::I32, ValType::I32, ValType::I32],
            vec![
                Instr::Call(pop),
                Instr::SetLocal(2),
                Instr::Call(pop),
                Instr::TeeLocal(1),
                Instr::GetLocal(2),
                Instr::I32DivS,
                Instr::SetLocal(3), // store quotient for now
                Instr::GetLocal(1),
                Instr::GetLocal(2),
                Instr::I32RemS,
                Instr::SetLocal(4), // store remainder as well
                // To find the "real" mod, add divisor if numerator+denominator have misnatched signs and remainder <> 0
                Instr::GetLocal(4),
                Instr::GetLocal(2),
                Instr::I32Const(0),
                Instr::GetLocal(1),
                Instr::GetLocal(2),
                Instr::I32Xor,
                Instr::I32Const(0),
                Instr::I32LtS,
                Instr::GetLocal(4),
                Instr::I32Const(0),
                Instr::I32Ne,
                Instr::I32And,
                Instr::TeeLocal(0),
                Instr::Select,
                Instr::I32Add,
                Instr::Call(push),
                // To find the "real" quotient, subtract 1 if numerator+denominator have misnatched signs and remainder <> 0
                Instr::GetLocal(3),
                Instr::I32Const(1),
                Instr::I32Const(0),
                Instr::GetLocal(0),
                Instr::Select,
                Instr::I32Sub,
                Instr::Call(push),
            ],
        );

        self.define_colon_word("/", vec![ColonValue::XT("/MOD"), ColonValue::XT("NIP")]);
        self.define_colon_word("MOD", vec![ColonValue::XT("/MOD"), ColonValue::XT("DROP")]);

        self.define_native_word(
            "U/MOD",
            vec![],
            vec![
                Instr::Call(pop),
                Instr::SetLocal(1),
                Instr::Call(pop),
                Instr::TeeLocal(0),
                Instr::GetLocal(1),
                Instr::I32RemU,
                Instr::Call(push),
                Instr::GetLocal(0),
                Instr::GetLocal(1),
                Instr::I32DivU,
                Instr::Call(push),
            ],
        );

        self.define_native_word(
            "SM/REM",
            vec![ValType::I64, ValType::I64],
            vec![
                Instr::Call(pop),
                Instr::I64ExtendSI32,
                Instr::SetLocal(3),
                Instr::Call(pop_d),
                Instr::TeeLocal(2),
                Instr::GetLocal(3),
                Instr::I64RemS,
                Instr::I32WrapI64,
                Instr::Call(push),
                Instr::GetLocal(2),
                Instr::GetLocal(3),
                Instr::I64DivS,
                Instr::I32WrapI64,
                Instr::Call(push),
            ],
        );

        self.define_native_word(
            "FM/MOD",
            vec![
                ValType::I64,
                ValType::I64,
                ValType::I64,
                ValType::I64,
            ],
            vec![
                Instr::Call(pop),
                Instr::I64ExtendSI32,
                Instr::SetLocal(3),
                Instr::Call(pop_d),
                Instr::TeeLocal(2),
                Instr::GetLocal(3),
                Instr::I64DivS,
                Instr::SetLocal(4), // store quotient for now
                Instr::GetLocal(2),
                Instr::GetLocal(3),
                Instr::I64RemS,
                Instr::SetLocal(5), // store remainder as well
                // To find the floored remainder, add the divisor if dividend and divisor have mismatched signs and
                // the remainder is not zero
                Instr::GetLocal(5),
                Instr::GetLocal(3),
                Instr::I64Const(0),
                Instr::GetLocal(2),
                Instr::GetLocal(3),
                Instr::I64Xor,
                Instr::I64Const(0),
                Instr::I64LtS,
                Instr::GetLocal(5),
                Instr::I64Const(0),
                Instr::I64Ne,
                Instr::I32And,
                Instr::TeeLocal(0),
                Instr::Select,
                Instr::I64Add,
                Instr::I32WrapI64,
                Instr::Call(push),
                // To find the floored quotient, subtract 1 in the same case
                Instr::GetLocal(4),
                Instr::I64Const(1),
                Instr::I64Const(0),
                Instr::GetLocal(0),
                Instr::Select,
                Instr::I64Sub,
                Instr::I32WrapI64,
                Instr::Call(push),
            ],
        );

        self.define_native_word(
            "UD/MOD",
            vec![ValType::I64, ValType::I64],
            vec![
                Instr::Call(pop),
                Instr::I64ExtendSI32,
                Instr::SetLocal(3),
                Instr::Call(pop_d),
                Instr::TeeLocal(2),
                Instr::GetLocal(3),
                Instr::I64RemU,
                Instr::I32WrapI64,
                Instr::Call(push),
                Instr::GetLocal(2),
                Instr::GetLocal(3),
                Instr::I64DivU,
                Instr::Call(push_d),
            ],
        );
    }

    /// Defines the minimum, maximum, increment and bitwise words.
    fn define_bit_logic(&mut self)
        requires
            old(self).wf(),
        ensures
            final(self)@ == with_bit_logic_words(old(self)@),
            final(self).wf(),
            grows(old(self)@, final(self)@),
            final(self)@.export_all == old(self)@.export_all,
            bit_logic_words_defined(final(self)@),
    {
        reveal(with_bit_logic_words);
        reveal(bit_logic_words_defined);
        let push = self.push;
        let pop = self.pop;
        let push_d = self.push_d;
        let pop_d = self.pop_d;
        self.define_native_word(
            "MIN",
            vec![],
            vec![
                Instr::Call(pop),
                Instr::TeeLocal(0),
                Instr::Call(pop),
                Instr::TeeLocal(1),
                Instr::GetLocal(0),
                Instr::GetLocal(1),
                Instr::I32LtS,
                Instr::Select,
                Instr::Call(push),
            ],
        );
        self.define_native_word(
            "MAX",
            vec![],
            vec![
                Instr::Call(pop),
                Instr::TeeLocal(0),
                Instr::Call(pop),
                Instr::TeeLocal(1),
                Instr::GetLocal(0),
                Instr::GetLocal(1),
                Instr::I32GtS,
                Instr::Select,
                Instr::Call(push),
            ],
        );
        self.define_native_word(
            "DMIN",
            vec![ValType::I64, ValType::I64],
            vec![
                Instr::Call(pop_d),
                Instr::TeeLocal(2),
                Instr::Call(pop_d),
                Instr::TeeLocal(3),
                Instr::GetLocal(2),
                Instr::GetLocal(3),
                Instr::I64LtS,
                Instr::Select,
                Instr::Call(push_d),
            ],
        );
        self.define_native_word(
            "DMAX",
            vec![ValType::I64, ValType::I64],
            vec![
                Instr::Call(pop_d),
                Instr::TeeLocal(2),
                Instr::Call(pop_d),
                Instr::TeeLocal(3),
                Instr::GetLocal(2),
                Instr::GetLocal(3),
                Instr::I64GtS,
                Instr::Select,
                Instr::Call(push_d),
            ],
        );

        self.define_native_word(
            "1+",
            vec![],
            vec![Instr::Call(pop), Instr::I32Const(1), Instr::I32Add, Instr::Call(push)],
        );
        self.define_native_word(
            "1-",
            vec![],
            vec![Instr::Call(pop), Instr::I32Const(1), Instr::I32Sub, Instr::Call(push)],
        );
        self.define_native_word(
            "INVERT",
            vec![],
            vec![Instr::Call(pop), Instr::I32Const(-1), Instr::I32Xor, Instr::Call(push)],
        );

        self.define_native_word("AND", vec![], binary_i32(pop, push, Instr::I32And));
        self.define_native_word("OR", vec![], binary_i32(pop, push, Instr::I32Or));
        self.define_native_word("XOR", vec![], binary_i32(pop, push, Instr::I32Xor));
        self.define_native_word("LSHIFT", vec![], binary_i32(pop, push, Instr::I32Shl));
        self.define_native_word("RSHIFT", vec![], binary_i32(pop, push, Instr::I32ShrU));
        self.define_native_word("ARSHIFT", vec![], binary_i32(pop, push, Instr::I32ShrS));

        // ( mask addr -- )
        self.define_native_word("CSET", vec![], bitmanip(pop, vec![Instr::I32Or]));
        self.define_native_word(
            "CRESET",
            vec![],
            bitmanip(pop, vec![Instr::I32Const(-1), Instr::I32Xor, Instr::I32And]),
        );
        self.define_native_word("CTOGGLE", vec![], bitmanip(pop, vec![Instr::I32Xor]));

        self.define_native_word(
            "2*",
            vec![],
            vec![Instr::Call(pop), Instr::I32Const(1), Instr::I32Shl, Instr::Call(push)],
        );
        self.define_native_word(
            "D2*",
            vec![],
            vec![Instr::Call(pop_d), Instr::I64Const(1), Instr::I64Shl, Instr::Call(push_d)],
        );
        self.define_native_word(
            "2/",
            vec![],
            vec![Instr::Call(pop), Instr::I32Const(1), Instr::I32ShrS, Instr::Call(push)],
        );
        self.define_native_word(
            "D2/",
            vec![],
            vec![Instr::Call(pop_d), Instr::I64Const(1), Instr::I64ShrS, Instr::Call(push_d)],
        );
    }

    /// Defines the flag constants and comparison words.
    fn define_comparisons(&mut self)
        requires
            old(self).wf(),
        ensures
            final(self)@ == with_comparison_words(old(self)@),
            final(self).wf(),
            grows(old(self)@, final(self)@),
            final(self)@.export_all == old(self)@.export_all,
            comparison_words_defined(final(self)@),
    {
        reveal(with_comparison_words);
        reveal(comparison_words_defined);
        let push = self.push;
        let pop = self.pop;
        let push_d = self.push_d;
        let pop_d = self.pop_d;
        self.define_constant_word("FALSE", 0);
        self.define_constant_word("TRUE", -1);

        self.define_native_word("=", vec![], binary_i32_bool(pop, push, Instr::I32Eq));
        self.define_native_word("D=", vec![ValType::I64], binary_i64_bool(pop_d, push, Instr::I64Eq));
        self.define_native_word("<>", vec![], binary_i32_bool(pop, push, Instr::I32Ne));
        self.define_native_word("D<>", vec![ValType::I64], binary_i64_bool(pop_d, push, Instr::I64Ne));
        self.define_native_word("<", vec![], binary_i32_bool(pop, push, Instr::I32LtS));
        self.define_native_word("U<", vec![], binary_i32_bool(pop, push, Instr::I32LtU));
        self.define_native_word("D<", vec![ValType::I64], binary_i64_bool(pop_d, push, Instr::I64LtS));
        self.define_native_word(">", vec![], binary_i32_bool(pop, push, Instr::I32GtS));
        self.define_native_word("U>", vec![], binary_i32_bool(pop, push, Instr::I32GtU));
        self.define_native_word("D>", vec![ValType::I64], binary_i64_bool(pop_d, push, Instr::I64GtS));
        self.define_native_word("<=", vec![], binary_i32_bool(pop, push, Instr::I32LeS));
        self.define_native_word("U<=", vec![], binary_i32_bool(pop, push, Instr::I32LeU));
        self.define_native_word("D<=", vec![ValType::I64], binary_i64_bool(pop_d, push, Instr::I64LeS));
        self.define_native_word(">=", vec![], binary_i32_bool(pop, push, Instr::I32GeS));
        self.define_native_word("U>=", vec![], binary_i32_bool(pop, push, Instr::I32GeU));
        self.define_native_word("D>=", vec![ValType::I64], binary_i64_bool(pop_d, push, Instr::I64GeS));
        self.define_native_word(
            "=0",
            vec![],
            vec![Instr::I32Const(0), Instr::Call(pop), Instr::I32Eqz, Instr::I32Sub, Instr::Call(push)],
        );
        self.define_native_word(
            "<>0",
            vec![],
            vec![
                Instr::I32Const(0),
                Instr::Call(pop),
                Instr::I32Const(0),
                Instr::I32Ne,
                Instr::I32Sub,
                Instr::Call(push),
            ],
        );
        self.define_native_word(
            "<0",
            vec![],
            vec![
                Instr::I32Const(0),
                Instr::Call(pop),
                Instr::I32Const(0),
                Instr::I32LtS,
                Instr::I32Sub,
                Instr::Call(push),
            ],
        );
        self.define_native_word(
            ">0",
            vec![],
            vec![
                Instr::I32Const(0),
                Instr::Call(pop),
                Instr::I32Const(0),
                Instr::I32GtS,
                Instr::I32Sub,
                Instr::Call(push),
            ],
        );
    }

    /// Defines the words every module starts with: stack, memory, execution
    /// and arithmetic words, and the dictionary's own variables.
    #[verifier::rlimit(100)]
    fn initialize(self) -> (r: Self)
        requires
            self.wf(),
        ensures
            r.wf(),
            grows(self@, r@),
            core_words_defined(r@),
            r@.export_all == self@.export_all,
            r@ == with_core_words(self@),
    {
        let mut c = self;
        c.define_stacks();
        let ghost s1 = c@;
        c.define_memory();
        let ghost s2 = c@;
        proof { lemma_core_words_kept(s1, s2); }
        c.define_execution();
        let ghost s3 = c@;
        proof { lemma_core_words_kept(s1, s3); lemma_core_words_kept(s2, s3); }
        c.define_math();
        let ghost s4 = c@;
        proof {
            lemma_core_words_kept(s1, s4);
            lemma_core_words_kept(s2, s4);
            lemma_core_words_kept(s3, s4);
        }

        // Define dictionary-related words here as well
        // We don't have some real values yet, but other code needs to reference them
        c.define_constant_word("DICT-BASE", DICTIONARY_BASE);
        c.define_constant_word("DICT-CAPACITY", DICTIONARY_CAPACITY);
        c.define_variable_word("CP", DICTIONARY_BASE);
        c.define_variable_word("LATEST", DICTIONARY_BASE);
        proof {
            lemma_core_words_kept(s4, c@);
            reveal(core_words_defined);
        }
        c
    }

    /// Makes the finished module export every word (each through a function
    /// that runs it) and the stack's push and pop functions, as the compiler's
    /// tests use it, rather than only `_start`.
    pub fn export_all_words(&mut self)
        requires
            old(self).wf(),
        ensures
            final(self).wf(),
            final(self)@ == (CompilerSpec { export_all: true, ..old(self)@ }),
    {
        self.export_all = true;
    }

    /// Finishes the module; see [`finished`].
    fn finalize(self) -> (r: Self)
        requires
            self.wf(),
            ready_to_finish(self@),
        ensures
            r@ == finished(self@),
    {
        let mut c = self;
        let ghost c0 = c@;
        // For testing purposes, define a word that just calls another word and stops.
        let run_word = vec![ColonValue::XT("EXECUTE"), ColonValue::XT("BYE")];
        assert(run_word@ =~= seq![ColonValue::XT("EXECUTE"), ColonValue::XT("BYE")]);
        c.define_colon_word("RUN-WORD", run_word);
        let ghost c1 = c@;
        proof {
            let param = colon_code(
                seq![ColonValue::XT("EXECUTE"), ColonValue::XT("BYE")],
                add32(c0.cp, header_size(word_key("RUN-WORD"))),
                c0,
            ) + le32(c0.token("EXIT"));
            assert(c1 == c0.with_colon_word("RUN-WORD", seq![ColonValue::XT("EXECUTE"), ColonValue::XT("BYE")]));
            lemma_with_entry_keeps(c0, "RUN-WORD"@, c0.docol, param);
        }
        assert(c1.defines("CP") && c1.defines("LATEST") && c1.defines("RUN-WORD"));
        assert(!c0.export_all ==> c1.defines("_start"));

        // Now that we're done adding things to the dictionary,
        // set values for CP (a var containing the next address in the dictionary)
        // and LATEST (a var containing the address of the final word).
        let cp_storage_address = c.get_execution_token("CP").wrapping_add(4);
        let mut cp_bytes: Vec<u8> = Vec::new();
        push_cell(&mut cp_bytes, c.cp);
        assert(cp_bytes@ =~= le32(c1.cp));
        c.assembler.add_data(cp_storage_address, cp_bytes);

        let latest_storage_address = c.get_execution_token("LATEST").wrapping_add(4);
        let mut latest_bytes: Vec<u8> = Vec::new();
        push_cell(&mut latest_bytes, c.latest_address);
        assert(latest_bytes@ =~= le32(c1.latest_address));
        c.assembler.add_data(latest_storage_address, latest_bytes);
        let ghost a1 = c@.assembler;

        let run_xt = c.get_execution_token("RUN-WORD");
        if c.export_all {
            c.assembler.add_exported_func("push", c.push);
            c.assembler.add_exported_func("pop", c.pop);
            c.assembler.add_exported_func("push_d", c.push_d);
            c.assembler.add_exported_func("pop_d", c.pop_d);
        }
        let ghost a2 = c@.assembler;
        let ghost words = exported_words(c1);
        proof {
            c.execution_tokens.lemma_labels();
            assert(words.take(0) =~= Seq::<(Seq<char>, i32)>::empty());
        }
        if c.export_all {
            // export every word as a function-which-EXECUTEs-that-word
            let count = c.execution_tokens.len();
            assert(words.len() == count);
            let mut i: usize = 0;
            while i < count
                invariant
                    c.wf(),
                    c1.export_all,
                    c@ == (CompilerSpec { assembler: c@.assembler, ..c1 }),
                    count == c1.names.len(),
                    c1.labels.len() == c1.names.len(),
                    words == exported_words(c1),
                    words.len() == count,
                    i <= count,
                    run_xt == c1.token("RUN-WORD"),
                    c@.assembler == with_runners(a2, words.take(i as int), c1.push, c1.ip, c1.start, run_xt),
                decreases count - i,
            {
                let (label, xt) = c.execution_tokens.entry(i);
                let instructions = vec![
                    Instr::I32Const(xt),
                    Instr::Call(c.push), // Add the function to call onto the stack
                    Instr::I32Const(run_xt.wrapping_add(4)),
                    Instr::SetGlobal(c.ip), // Set the IP to within the "run this" func
                    Instr::Call(c.start),   // start the main loop
                    Instr::End,
                ];
                assert(instructions@ =~= runner_code(c1.push, c1.ip, c1.start, xt, run_xt));
                let ghost before = c@.assembler;
                let func = c.assembler.add_native_func(Vec::new(), Vec::new(), Vec::new(), instructions);
                c.assembler.add_exported_func(label.as_str(), func);
                proof {
                    assert(words[i as int] == (c1.labels[i as int], c1.tokens[c1.names[i as int]]));
                    assert(words.take(i + 1).drop_last() =~= words.take(i as int));
                    assert(words.take(i + 1).last() == words[i as int]);
                }
                i = i + 1;
            }
            assert(words.take(count as int) =~= words);
        } else {
            // Export _start, the conventional WASI entry point
            let xt = c.get_execution_token("_start");
            let instructions = vec![
                Instr::I32Const(xt),
                Instr::Call(c.push),
                Instr::I32Const(run_xt.wrapping_add(4)),
                Instr::SetGlobal(c.ip),
                Instr::Call(c.start),
                Instr::End,
            ];
            assert(instructions@ =~= runner_code(c1.push, c1.ip, c1.start, xt, run_xt));
            let func = c.assembler.add_native_func(Vec::new(), Vec::new(), Vec::new(), instructions);
            c.assembler.add_exported_func("_start", func);
            assert(words.drop_last() =~= Seq::<(Seq<char>, i32)>::empty());
            assert(with_runners(a2, words.drop_last(), c1.push, c1.ip, c1.start, run_xt) == a2);
        }
        assert(c@.assembler == with_runners(a2, words, c1.push, c1.ip, c1.start, run_xt));
        assert(a1 == c1.assembler.with_data(add32(c1.token("CP"), 4), le32(c1.cp)).with_data(
            add32(c1.token("LATEST"), 4),
            le32(c1.latest_address),
        ));
        c
    }

    /// Finishes the module (see [`finished`]) and serializes it.
    pub fn compile(self) -> (r: Result<Vec<u8>, AssembleError>)
        requires
            self.wf(),
            ready_to_finish(self@),
        ensures
            match r {
                Ok(bytes) => wasm_binary(finished(self@).assembler.sections()) == Some(bytes@),
                Err(_) => wasm_binary(finished(self@).assembler.sections()) is None,
            },
    {
        self.finalize().assembler.compile()
    }

    /// The execution token of `name`, which must be defined.
    fn get_execution_token(&self, name: &str) -> (r: i32)
        requires
            self.wf(),
            self@.defines(name),
        ensures
            r == self@.token(name),
    {
        reveal(word_key);
        match self.execution_tokens.get(name.as_bytes()) {
            Some(xt) => xt,
            None => {
                assert(false);
                0
            },
        }
    }
}

impl Default for Compiler {
    /// A compiler whose dictionary holds the core words, exporting only
    /// `_start` from the finished module.
    fn default() -> (r: Self)
        ensures
            r.wf(),
            core_words_defined(r@),
            !r@.export_all,
            r@ == default_compiler(),
    {
        let mut assembler = Assembler::new();
        assembler.add_memory();
        let c = Compiler {
            assembler,
            stack: 0,
            push: 0,
            pop: 0,
            push_d: 0,
            pop_d: 0,
            push_r: 0,
            pop_r: 0,
            docon: 0,
            dovar: 0,
            docol: 0,
            start: 0,
            ip: 0,
            cp: DICTIONARY_BASE,
            latest_address: 0,
            execution_tokens: TokenTable::new(),
            export_all: false,
            codes: Ghost(Map::empty()),
            colons: Ghost(Map::empty()),
        };
        assert(c@ == empty_compiler());
        c.initialize()
    }
}

} // verus!
