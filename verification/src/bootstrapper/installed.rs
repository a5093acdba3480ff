//! Laws on the words that the compiler every build starts from installs,
//! by name: the code recorded under each name is what the word's function
//! runs, and running it does what the word is for.
use vstd::prelude::*;
use crate::bootstrapper::compiler::{
    abs_code, binary_i32_bool_code, binary_i32_code, default_compiler, PARAM_STACK_BASE, divmod_code, drop_code, dup_code,
    minus_rot_code, negate_code, nip_code, over_code, qdup_code, rot_code, swap_code, with_arithmetic_words,
    with_bit_logic_words, with_comparison_words, with_execution_words, with_memory_words, with_stack_functions,
    with_stack_word_defs, with_stack_words, ColonValue, CompilerSpec,
};
use crate::bootstrapper::threaded::{lemma_entry_colons, run_program, run_word, Names, Thread};
use crate::bootstrapper::words::{
    data_stack, floor_div, floor_mod, lemma_abs, lemma_arithmetic_keep_ids, lemma_binary, lemma_bit_logic_keep_ids,
    lemma_call_pop, lemma_call_push, lemma_comparison, lemma_comparison_keep_ids, lemma_default_stack_functions,
    lemma_divmod, lemma_drop, lemma_dup, lemma_entry_keeps_ids, lemma_execution_keep_ids, lemma_memory_keep_ids,
    lemma_minus_rot, lemma_negate, lemma_nip, lemma_over, lemma_popped_stack, lemma_pushed_stack, lemma_qdup,
    lemma_rot, lemma_stack_word_defs_keep_ids, lemma_store_load, lemma_swap, lemma_table_entry_keeps,
    lemma_with_native_new, module_functions, native_function, popped, pushed, stack_ids, stack_pointer, word_body,
    word_frame,
};
use crate::layout::{add32, sub32};
use crate::semantics::{
    abs, exec, flag, join, lemma_exec_done, lemma_exec_step, lemma_halves, load32, mul32, step, store32, Function,
    Machine, Value,
};
use crate::wasm::{Instr, ValType};

verus! {

/// Adding a native word records its code under its name.
pub broadcast proof fn lemma_native_word_codes(c: CompilerSpec, name: Seq<char>, locals: Seq<ValType>, body: Seq<Instr>)
    ensures
        #[trigger] c.with_native_word(name, locals, body).codes == c.codes.insert(name, body),
{
    reveal(CompilerSpec::with_native_word);
    reveal(CompilerSpec::with_entry);
}

/// Law (native words): adding a native word installs the code recorded
/// under its name. The word's entry holds as its code field the index of a
/// new slot of the function table, and that slot reaches a defined function
/// of two parameters that runs the recorded code followed by `end`.
#[verifier::spinoff_prover]
#[verifier::rlimit(60)]
pub proof fn lemma_native_word_installs(c: CompilerSpec, name: Seq<char>, locals: Seq<ValType>, body: Seq<Instr>)
    requires
        c.assembler.slots.len() < u32::MAX,
        c.assembler.natives.len() < u32::MAX,
        c.assembler.types.len() < u32::MAX,
    ensures
        ({
            let r = c.with_native_word(name, locals, body);
            let slot = c.assembler.table.len() as int;
            &&& r.codes.contains_key(name)
            &&& r.codes[name] == body
            &&& r.assembler.table.len() == slot + 1
            &&& native_function(r.assembler, r.assembler.table[slot]) == Some(
                Function { params: 2, locals, body: word_body(r.codes[name]) },
            )
        }),
{
    reveal(CompilerSpec::with_native_word);
    reveal(CompilerSpec::with_entry);
    let a = c.assembler.with_native(seq![ValType::I32, ValType::I32], seq![], locals, body.push(Instr::End));
    lemma_with_native_new(c.assembler, seq![ValType::I32, ValType::I32], seq![], locals, body.push(Instr::End));
    lemma_table_entry_keeps(a, c.assembler.next_func_id(), c.assembler.slots.len() as u32);
}

/// Adding an entry keeps the recorded codes.
pub broadcast proof fn lemma_entry_codes(c: CompilerSpec, name: Seq<char>, code: u32, parameter: Seq<u8>)
    ensures
        #[trigger] c.with_entry(name, code, parameter).codes == c.codes,
{
    reveal(CompilerSpec::with_entry);
}

/// `b` records the same code as `a` under `name`, where `a` records one.
pub open spec fn code_kept(a: CompilerSpec, b: CompilerSpec, name: Seq<char>) -> bool {
    a.codes.contains_key(name) ==> b.codes.contains_key(name) && b.codes[name] == a.codes[name]
}

/// The code of `2OVER` in a compiler whose data stack pointer is global
/// `stack`: move the stack pointer down two cells and copy the 64 bits two
/// cells above the old top there.
spec fn two_over_code(stack: u32) -> Seq<Instr> {
    [
        Instr::GetGlobal(stack), Instr::I32Const(8), Instr::I32Sub, Instr::TeeLocal(0),
        Instr::SetGlobal(stack), Instr::GetLocal(0), Instr::GetLocal(0), Instr::I64Load(2, 16),
        Instr::I64Store(2, 0),
    ]@
}

/// The code of `U/MOD` in a compiler with the given push and pop functions.
spec fn u_div_mod_code(pop: u32, push: u32) -> Seq<Instr> {
    [
        Instr::Call(pop), Instr::SetLocal(1), Instr::Call(pop), Instr::TeeLocal(0),
        Instr::GetLocal(1), Instr::I32RemU, Instr::Call(push), Instr::GetLocal(0),
        Instr::GetLocal(1), Instr::I32DivU, Instr::Call(push),
    ]@
}

/// A summary of a name that tells the names of the core words apart: its
/// length and its first, middle and last characters.
spec fn name_summary(s: Seq<char>) -> (nat, char, char, char) {
    (s.len(), s[0], s[(s.len() / 2) as int], s[s.len() - 1])
}

/// The summaries of the names of the core words.
#[verifier::spinoff_prover]
#[verifier::rlimit(100)]
proof fn lemma_name_summaries()
    ensures
        name_summary("DUP"@) == (3nat, 'D', 'U', 'P'),
        name_summary("?DUP"@) == (4nat, '?', 'U', 'P'),
        name_summary("2DUP"@) == (4nat, '2', 'U', 'P'),
        name_summary("DROP"@) == (4nat, 'D', 'O', 'P'),
        name_summary("2DROP"@) == (5nat, '2', 'R', 'P'),
        name_summary("SWAP"@) == (4nat, 'S', 'A', 'P'),
        name_summary("2SWAP"@) == (5nat, '2', 'W', 'P'),
        name_summary("OVER"@) == (4nat, 'O', 'E', 'R'),
        name_summary("2OVER"@) == (5nat, '2', 'V', 'R'),
        name_summary("NIP"@) == (3nat, 'N', 'I', 'P'),
        name_summary("TUCK"@) == (4nat, 'T', 'C', 'K'),
        name_summary("ROT"@) == (3nat, 'R', 'O', 'T'),
        name_summary("-ROT"@) == (4nat, '-', 'O', 'T'),
        name_summary("PICK"@) == (4nat, 'P', 'C', 'K'),
        name_summary("DEPTH"@) == (5nat, 'D', 'P', 'H'),
        name_summary(">R"@) == (2nat, '>', 'R', 'R'),
        name_summary("R>"@) == (2nat, 'R', '>', '>'),
        name_summary("R@"@) == (2nat, 'R', '@', '@'),
        name_summary("R-DEPTH"@) == (7nat, 'R', 'E', 'H'),
        name_summary("(DOCON)"@) == (7nat, '(', 'C', ')'),
        name_summary("(DOVAR)"@) == (7nat, '(', 'V', ')'),
        name_summary("!"@) == (1nat, '!', '!', '!'),
        name_summary("@"@) == (1nat, '@', '@', '@'),
        name_summary("+!"@) == (2nat, '+', '!', '!'),
        name_summary("C!"@) == (2nat, 'C', '!', '!'),
        name_summary("C@"@) == (2nat, 'C', '@', '@'),
        name_summary("HEAP-BASE"@) == (9nat, 'H', '-', 'E'),
        name_summary("MEMORY.SIZE"@) == (11nat, 'M', 'Y', 'E'),
        name_summary("MEMORY.GROW"@) == (11nat, 'M', 'Y', 'W'),
        name_summary("EXECUTE"@) == (7nat, 'E', 'C', 'E'),
        name_summary("BYE"@) == (3nat, 'B', 'Y', 'E'),
        name_summary("(DOCOL)"@) == (7nat, '(', 'C', ')'),
        name_summary("EXIT"@) == (4nat, 'E', 'I', 'T'),
        name_summary("(DODOES)"@) == (8nat, '(', 'O', ')'),
        name_summary("LIT"@) == (3nat, 'L', 'I', 'T'),
        name_summary("BRANCH"@) == (6nat, 'B', 'N', 'H'),
        name_summary("?BRANCH"@) == (7nat, '?', 'A', 'H'),
        name_summary("+"@) == (1nat, '+', '+', '+'),
        name_summary("-"@) == (1nat, '-', '-', '-'),
        name_summary("*"@) == (1nat, '*', '*', '*'),
        name_summary("NEGATE"@) == (6nat, 'N', 'A', 'E'),
        name_summary("ABS"@) == (3nat, 'A', 'B', 'S'),
        name_summary("S>D"@) == (3nat, 'S', '>', 'D'),
        name_summary("D>S"@) == (3nat, 'D', '>', 'S'),
        name_summary("M+"@) == (2nat, 'M', '+', '+'),
        name_summary("D+"@) == (2nat, 'D', '+', '+'),
        name_summary("D-"@) == (2nat, 'D', '-', '-'),
        name_summary("DABS"@) == (4nat, 'D', 'B', 'S'),
        name_summary("DNEGATE"@) == (7nat, 'D', 'G', 'E'),
        name_summary("M*"@) == (2nat, 'M', '*', '*'),
        name_summary("UM*"@) == (3nat, 'U', 'M', '*'),
        name_summary("D*"@) == (2nat, 'D', '*', '*'),
        name_summary("UD*"@) == (3nat, 'U', 'D', '*'),
        name_summary("UM/MOD"@) == (6nat, 'U', 'M', 'D'),
        name_summary("/MOD"@) == (4nat, '/', 'O', 'D'),
        name_summary("/"@) == (1nat, '/', '/', '/'),
        name_summary("MOD"@) == (3nat, 'M', 'O', 'D'),
        name_summary("U/MOD"@) == (5nat, 'U', 'M', 'D'),
        name_summary("SM/REM"@) == (6nat, 'S', 'R', 'M'),
        name_summary("FM/MOD"@) == (6nat, 'F', 'M', 'D'),
        name_summary("UD/MOD"@) == (6nat, 'U', 'M', 'D'),
        name_summary("MIN"@) == (3nat, 'M', 'I', 'N'),
        name_summary("MAX"@) == (3nat, 'M', 'A', 'X'),
        name_summary("DMIN"@) == (4nat, 'D', 'I', 'N'),
        name_summary("DMAX"@) == (4nat, 'D', 'A', 'X'),
        name_summary("1+"@) == (2nat, '1', '+', '+'),
        name_summary("1-"@) == (2nat, '1', '-', '-'),
        name_summary("INVERT"@) == (6nat, 'I', 'E', 'T'),
        name_summary("AND"@) == (3nat, 'A', 'N', 'D'),
        name_summary("OR"@) == (2nat, 'O', 'R', 'R'),
        name_summary("XOR"@) == (3nat, 'X', 'O', 'R'),
        name_summary("LSHIFT"@) == (6nat, 'L', 'I', 'T'),
        name_summary("RSHIFT"@) == (6nat, 'R', 'I', 'T'),
        name_summary("ARSHIFT"@) == (7nat, 'A', 'H', 'T'),
        name_summary("CSET"@) == (4nat, 'C', 'E', 'T'),
        name_summary("CRESET"@) == (6nat, 'C', 'S', 'T'),
        name_summary("CTOGGLE"@) == (7nat, 'C', 'G', 'E'),
        name_summary("2*"@) == (2nat, '2', '*', '*'),
        name_summary("D2*"@) == (3nat, 'D', '2', '*'),
        name_summary("2/"@) == (2nat, '2', '/', '/'),
        name_summary("D2/"@) == (3nat, 'D', '2', '/'),
        name_summary("FALSE"@) == (5nat, 'F', 'L', 'E'),
        name_summary("TRUE"@) == (4nat, 'T', 'U', 'E'),
        name_summary("="@) == (1nat, '=', '=', '='),
        name_summary("D="@) == (2nat, 'D', '=', '='),
        name_summary("<>"@) == (2nat, '<', '>', '>'),
        name_summary("D<>"@) == (3nat, 'D', '<', '>'),
        name_summary("<"@) == (1nat, '<', '<', '<'),
        name_summary("U<"@) == (2nat, 'U', '<', '<'),
        name_summary("D<"@) == (2nat, 'D', '<', '<'),
        name_summary(">"@) == (1nat, '>', '>', '>'),
        name_summary("U>"@) == (2nat, 'U', '>', '>'),
        name_summary("D>"@) == (2nat, 'D', '>', '>'),
        name_summary("<="@) == (2nat, '<', '=', '='),
        name_summary("U<="@) == (3nat, 'U', '<', '='),
        name_summary("D<="@) == (3nat, 'D', '<', '='),
        name_summary(">="@) == (2nat, '>', '=', '='),
        name_summary("U>="@) == (3nat, 'U', '>', '='),
        name_summary("D>="@) == (3nat, 'D', '>', '='),
        name_summary("=0"@) == (2nat, '=', '0', '0'),
        name_summary("<>0"@) == (3nat, '<', '>', '0'),
        name_summary("<0"@) == (2nat, '<', '0', '0'),
        name_summary(">0"@) == (2nat, '>', '0', '0'),
{
    assert(name_summary("DUP"@) == (3nat, 'D', 'U', 'P')) by { reveal_strlit("DUP"); }
    assert(name_summary("?DUP"@) == (4nat, '?', 'U', 'P')) by { reveal_strlit("?DUP"); }
    assert(name_summary("2DUP"@) == (4nat, '2', 'U', 'P')) by { reveal_strlit("2DUP"); }
    assert(name_summary("DROP"@) == (4nat, 'D', 'O', 'P')) by { reveal_strlit("DROP"); }
    assert(name_summary("2DROP"@) == (5nat, '2', 'R', 'P')) by { reveal_strlit("2DROP"); }
    assert(name_summary("SWAP"@) == (4nat, 'S', 'A', 'P')) by { reveal_strlit("SWAP"); }
    assert(name_summary("2SWAP"@) == (5nat, '2', 'W', 'P')) by { reveal_strlit("2SWAP"); }
    assert(name_summary("OVER"@) == (4nat, 'O', 'E', 'R')) by { reveal_strlit("OVER"); }
    assert(name_summary("2OVER"@) == (5nat, '2', 'V', 'R')) by { reveal_strlit("2OVER"); }
    assert(name_summary("NIP"@) == (3nat, 'N', 'I', 'P')) by { reveal_strlit("NIP"); }
    assert(name_summary("TUCK"@) == (4nat, 'T', 'C', 'K')) by { reveal_strlit("TUCK"); }
    assert(name_summary("ROT"@) == (3nat, 'R', 'O', 'T')) by { reveal_strlit("ROT"); }
    assert(name_summary("-ROT"@) == (4nat, '-', 'O', 'T')) by { reveal_strlit("-ROT"); }
    assert(name_summary("PICK"@) == (4nat, 'P', 'C', 'K')) by { reveal_strlit("PICK"); }
    assert(name_summary("DEPTH"@) == (5nat, 'D', 'P', 'H')) by { reveal_strlit("DEPTH"); }
    assert(name_summary(">R"@) == (2nat, '>', 'R', 'R')) by { reveal_strlit(">R"); }
    assert(name_summary("R>"@) == (2nat, 'R', '>', '>')) by { reveal_strlit("R>"); }
    assert(name_summary("R@"@) == (2nat, 'R', '@', '@')) by { reveal_strlit("R@"); }
    assert(name_summary("R-DEPTH"@) == (7nat, 'R', 'E', 'H')) by { reveal_strlit("R-DEPTH"); }
    assert(name_summary("(DOCON)"@) == (7nat, '(', 'C', ')')) by { reveal_strlit("(DOCON)"); }
    assert(name_summary("(DOVAR)"@) == (7nat, '(', 'V', ')')) by { reveal_strlit("(DOVAR)"); }
    assert(name_summary("!"@) == (1nat, '!', '!', '!')) by { reveal_strlit("!"); }
    assert(name_summary("@"@) == (1nat, '@', '@', '@')) by { reveal_strlit("@"); }
    assert(name_summary("+!"@) == (2nat, '+', '!', '!')) by { reveal_strlit("+!"); }
    assert(name_summary("C!"@) == (2nat, 'C', '!', '!')) by { reveal_strlit("C!"); }
    assert(name_summary("C@"@) == (2nat, 'C', '@', '@')) by { reveal_strlit("C@"); }
    assert(name_summary("HEAP-BASE"@) == (9nat, 'H', '-', 'E')) by { reveal_strlit("HEAP-BASE"); }
    assert(name_summary("MEMORY.SIZE"@) == (11nat, 'M', 'Y', 'E')) by { reveal_strlit("MEMORY.SIZE"); }
    assert(name_summary("MEMORY.GROW"@) == (11nat, 'M', 'Y', 'W')) by { reveal_strlit("MEMORY.GROW"); }
    assert(name_summary("EXECUTE"@) == (7nat, 'E', 'C', 'E')) by { reveal_strlit("EXECUTE"); }
    assert(name_summary("BYE"@) == (3nat, 'B', 'Y', 'E')) by { reveal_strlit("BYE"); }
    assert(name_summary("(DOCOL)"@) == (7nat, '(', 'C', ')')) by { reveal_strlit("(DOCOL)"); }
    assert(name_summary("EXIT"@) == (4nat, 'E', 'I', 'T')) by { reveal_strlit("EXIT"); }
    assert(name_summary("(DODOES)"@) == (8nat, '(', 'O', ')')) by { reveal_strlit("(DODOES)"); }
    assert(name_summary("LIT"@) == (3nat, 'L', 'I', 'T')) by { reveal_strlit("LIT"); }
    assert(name_summary("BRANCH"@) == (6nat, 'B', 'N', 'H')) by { reveal_strlit("BRANCH"); }
    assert(name_summary("?BRANCH"@) == (7nat, '?', 'A', 'H')) by { reveal_strlit("?BRANCH"); }
    assert(name_summary("+"@) == (1nat, '+', '+', '+')) by { reveal_strlit("+"); }
    assert(name_summary("-"@) == (1nat, '-', '-', '-')) by { reveal_strlit("-"); }
    assert(name_summary("*"@) == (1nat, '*', '*', '*')) by { reveal_strlit("*"); }
    assert(name_summary("NEGATE"@) == (6nat, 'N', 'A', 'E')) by { reveal_strlit("NEGATE"); }
    assert(name_summary("ABS"@) == (3nat, 'A', 'B', 'S')) by { reveal_strlit("ABS"); }
    assert(name_summary("S>D"@) == (3nat, 'S', '>', 'D')) by { reveal_strlit("S>D"); }
    assert(name_summary("D>S"@) == (3nat, 'D', '>', 'S')) by { reveal_strlit("D>S"); }
    assert(name_summary("M+"@) == (2nat, 'M', '+', '+')) by { reveal_strlit("M+"); }
    assert(name_summary("D+"@) == (2nat, 'D', '+', '+')) by { reveal_strlit("D+"); }
    assert(name_summary("D-"@) == (2nat, 'D', '-', '-')) by { reveal_strlit("D-"); }
    assert(name_summary("DABS"@) == (4nat, 'D', 'B', 'S')) by { reveal_strlit("DABS"); }
    assert(name_summary("DNEGATE"@) == (7nat, 'D', 'G', 'E')) by { reveal_strlit("DNEGATE"); }
    assert(name_summary("M*"@) == (2nat, 'M', '*', '*')) by { reveal_strlit("M*"); }
    assert(name_summary("UM*"@) == (3nat, 'U', 'M', '*')) by { reveal_strlit("UM*"); }
    assert(name_summary("D*"@) == (2nat, 'D', '*', '*')) by { reveal_strlit("D*"); }
    assert(name_summary("UD*"@) == (3nat, 'U', 'D', '*')) by { reveal_strlit("UD*"); }
    assert(name_summary("UM/MOD"@) == (6nat, 'U', 'M', 'D')) by { reveal_strlit("UM/MOD"); }
    assert(name_summary("/MOD"@) == (4nat, '/', 'O', 'D')) by { reveal_strlit("/MOD"); }
    assert(name_summary("/"@) == (1nat, '/', '/', '/')) by { reveal_strlit("/"); }
    assert(name_summary("MOD"@) == (3nat, 'M', 'O', 'D')) by { reveal_strlit("MOD"); }
    assert(name_summary("U/MOD"@) == (5nat, 'U', 'M', 'D')) by { reveal_strlit("U/MOD"); }
    assert(name_summary("SM/REM"@) == (6nat, 'S', 'R', 'M')) by { reveal_strlit("SM/REM"); }
    assert(name_summary("FM/MOD"@) == (6nat, 'F', 'M', 'D')) by { reveal_strlit("FM/MOD"); }
    assert(name_summary("UD/MOD"@) == (6nat, 'U', 'M', 'D')) by { reveal_strlit("UD/MOD"); }
    assert(name_summary("MIN"@) == (3nat, 'M', 'I', 'N')) by { reveal_strlit("MIN"); }
    assert(name_summary("MAX"@) == (3nat, 'M', 'A', 'X')) by { reveal_strlit("MAX"); }
    assert(name_summary("DMIN"@) == (4nat, 'D', 'I', 'N')) by { reveal_strlit("DMIN"); }
    assert(name_summary("DMAX"@) == (4nat, 'D', 'A', 'X')) by { reveal_strlit("DMAX"); }
    assert(name_summary("1+"@) == (2nat, '1', '+', '+')) by { reveal_strlit("1+"); }
    assert(name_summary("1-"@) == (2nat, '1', '-', '-')) by { reveal_strlit("1-"); }
    assert(name_summary("INVERT"@) == (6nat, 'I', 'E', 'T')) by { reveal_strlit("INVERT"); }
    assert(name_summary("AND"@) == (3nat, 'A', 'N', 'D')) by { reveal_strlit("AND"); }
    assert(name_summary("OR"@) == (2nat, 'O', 'R', 'R')) by { reveal_strlit("OR"); }
    assert(name_summary("XOR"@) == (3nat, 'X', 'O', 'R')) by { reveal_strlit("XOR"); }
    assert(name_summary("LSHIFT"@) == (6nat, 'L', 'I', 'T')) by { reveal_strlit("LSHIFT"); }
    assert(name_summary("RSHIFT"@) == (6nat, 'R', 'I', 'T')) by { reveal_strlit("RSHIFT"); }
    assert(name_summary("ARSHIFT"@) == (7nat, 'A', 'H', 'T')) by { reveal_strlit("ARSHIFT"); }
    assert(name_summary("CSET"@) == (4nat, 'C', 'E', 'T')) by { reveal_strlit("CSET"); }
    assert(name_summary("CRESET"@) == (6nat, 'C', 'S', 'T')) by { reveal_strlit("CRESET"); }
    assert(name_summary("CTOGGLE"@) == (7nat, 'C', 'G', 'E')) by { reveal_strlit("CTOGGLE"); }
    assert(name_summary("2*"@) == (2nat, '2', '*', '*')) by { reveal_strlit("2*"); }
    assert(name_summary("D2*"@) == (3nat, 'D', '2', '*')) by { reveal_strlit("D2*"); }
    assert(name_summary("2/"@) == (2nat, '2', '/', '/')) by { reveal_strlit("2/"); }
    assert(name_summary("D2/"@) == (3nat, 'D', '2', '/')) by { reveal_strlit("D2/"); }
    assert(name_summary("FALSE"@) == (5nat, 'F', 'L', 'E')) by { reveal_strlit("FALSE"); }
    assert(name_summary("TRUE"@) == (4nat, 'T', 'U', 'E')) by { reveal_strlit("TRUE"); }
    assert(name_summary("="@) == (1nat, '=', '=', '=')) by { reveal_strlit("="); }
    assert(name_summary("D="@) == (2nat, 'D', '=', '=')) by { reveal_strlit("D="); }
    assert(name_summary("<>"@) == (2nat, '<', '>', '>')) by { reveal_strlit("<>"); }
    assert(name_summary("D<>"@) == (3nat, 'D', '<', '>')) by { reveal_strlit("D<>"); }
    assert(name_summary("<"@) == (1nat, '<', '<', '<')) by { reveal_strlit("<"); }
    assert(name_summary("U<"@) == (2nat, 'U', '<', '<')) by { reveal_strlit("U<"); }
    assert(name_summary("D<"@) == (2nat, 'D', '<', '<')) by { reveal_strlit("D<"); }
    assert(name_summary(">"@) == (1nat, '>', '>', '>')) by { reveal_strlit(">"); }
    assert(name_summary("U>"@) == (2nat, 'U', '>', '>')) by { reveal_strlit("U>"); }
    assert(name_summary("D>"@) == (2nat, 'D', '>', '>')) by { reveal_strlit("D>"); }
    assert(name_summary("<="@) == (2nat, '<', '=', '=')) by { reveal_strlit("<="); }
    assert(name_summary("U<="@) == (3nat, 'U', '<', '=')) by { reveal_strlit("U<="); }
    assert(name_summary("D<="@) == (3nat, 'D', '<', '=')) by { reveal_strlit("D<="); }
    assert(name_summary(">="@) == (2nat, '>', '=', '=')) by { reveal_strlit(">="); }
    assert(name_summary("U>="@) == (3nat, 'U', '>', '=')) by { reveal_strlit("U>="); }
    assert(name_summary("D>="@) == (3nat, 'D', '>', '=')) by { reveal_strlit("D>="); }
    assert(name_summary("=0"@) == (2nat, '=', '0', '0')) by { reveal_strlit("=0"); }
    assert(name_summary("<>0"@) == (3nat, '<', '>', '0')) by { reveal_strlit("<>0"); }
    assert(name_summary("<0"@) == (2nat, '<', '0', '0')) by { reveal_strlit("<0"); }
    assert(name_summary(">0"@) == (2nat, '>', '0', '0')) by { reveal_strlit(">0"); }
}

/// The compiler after the first `k` groups of core words, in the order the
/// compiler every build starts from defines them.
spec fn stage(k: int) -> CompilerSpec
    decreases k,
{
    if k <= 0 {
        with_stack_functions(crate::bootstrapper::compiler::empty_compiler())
    } else if k == 1 {
        with_stack_word_defs(stage(0), (crate::bootstrapper::compiler::empty_compiler().assembler.globals.len() + 1) as u32)
    } else if k == 2 {
        with_memory_words(stage(1))
    } else if k == 3 {
        with_execution_words(stage(2))
    } else if k == 4 {
        with_arithmetic_words(stage(3))
    } else if k == 5 {
        with_bit_logic_words(stage(4))
    } else {
        with_comparison_words(stage(5))
    }
}

/// The compiler every build starts from records the codes of the last stage
/// and has the stack ids of every stage.
#[verifier::spinoff_prover]
#[verifier::rlimit(100)]
proof fn lemma_stages()
    ensures
        crate::bootstrapper::compiler::default_compiler().codes == stage(6).codes,
        crate::bootstrapper::compiler::default_compiler().colons == stage(6).colons,
        forall|k: int| 0 <= k <= 6 ==> #[trigger] stack_ids(stage(k)) == stack_ids(crate::bootstrapper::compiler::default_compiler()),
{
    broadcast use lemma_entry_codes, lemma_entry_colons, lemma_entry_keeps_ids;
    let c0 = crate::bootstrapper::compiler::empty_compiler();
    let r = (c0.assembler.globals.len() + 1) as u32;
    assert(stage(0) == with_stack_functions(c0));
    assert(with_stack_words(c0) == stage(1));
    lemma_stack_word_defs_keep_ids(stage(0), r);
    lemma_memory_keep_ids(stage(1));
    lemma_execution_keep_ids(stage(2));
    lemma_arithmetic_keep_ids(stage(3));
    lemma_bit_logic_keep_ids(stage(4));
    lemma_comparison_keep_ids(stage(5));
    let c6 = stage(6);
    let c7 = c6.with_constant("DICT-BASE"@, crate::bootstrapper::compiler::DICTIONARY_BASE);
    let c8 = c7.with_constant("DICT-CAPACITY"@, crate::bootstrapper::compiler::DICTIONARY_CAPACITY);
    let c9 = c8.with_variable("CP"@, crate::bootstrapper::compiler::DICTIONARY_BASE);
    let c10 = c9.with_variable("LATEST"@, crate::bootstrapper::compiler::DICTIONARY_BASE);
    assert(crate::bootstrapper::compiler::default_compiler() == c10);
    assert(c10.codes == c6.codes);
    assert(c10.colons == c6.colons);
    assert(stack_ids(c10) == stack_ids(c6));
    assert forall|k: int| 0 <= k <= 6 implies #[trigger] stack_ids(stage(k)) == stack_ids(c10) by {
        if k == 0 {
        } else if k == 1 {
        } else if k == 2 {
        } else if k == 3 {
        } else if k == 4 {
        } else if k == 5 {
        } else {
        }
    }
}

/// What `with_stack_word_defs` records as the code of the words the laws below are about.
#[verifier::spinoff_prover]
#[verifier::rlimit(100)]
proof fn lemma_stack_words_codes(c: CompilerSpec, r_stack: u32)
    ensures
        with_stack_word_defs(c, r_stack).codes.contains_key("DUP"@),
        with_stack_word_defs(c, r_stack).codes["DUP"@] == dup_code(c.stack, c.push),
        with_stack_word_defs(c, r_stack).codes.contains_key("?DUP"@),
        with_stack_word_defs(c, r_stack).codes["?DUP"@] == qdup_code(c.stack, c.push),
        with_stack_word_defs(c, r_stack).codes.contains_key("DROP"@),
        with_stack_word_defs(c, r_stack).codes["DROP"@] == drop_code(c.stack),
        with_stack_word_defs(c, r_stack).codes.contains_key("2DUP"@),
        with_stack_word_defs(c, r_stack).codes["2DUP"@] == two_dup_code(c.stack),
        with_stack_word_defs(c, r_stack).codes.contains_key("2DROP"@),
        with_stack_word_defs(c, r_stack).codes["2DROP"@] == two_drop_code(c.stack),
        with_stack_word_defs(c, r_stack).codes.contains_key("SWAP"@),
        with_stack_word_defs(c, r_stack).codes["SWAP"@] == swap_code(c.stack),
        with_stack_word_defs(c, r_stack).codes.contains_key("2SWAP"@),
        with_stack_word_defs(c, r_stack).codes["2SWAP"@] == two_swap_code(c.stack),
        with_stack_word_defs(c, r_stack).codes.contains_key("OVER"@),
        with_stack_word_defs(c, r_stack).codes["OVER"@] == over_code(c.stack),
        with_stack_word_defs(c, r_stack).codes.contains_key("2OVER"@),
        with_stack_word_defs(c, r_stack).codes["2OVER"@] == two_over_code(c.stack),
        with_stack_word_defs(c, r_stack).codes.contains_key("NIP"@),
        with_stack_word_defs(c, r_stack).codes["NIP"@] == nip_code(c.stack),
        with_stack_word_defs(c, r_stack).codes.contains_key("TUCK"@),
        with_stack_word_defs(c, r_stack).codes["TUCK"@] == tuck_code(c.stack),
        with_stack_word_defs(c, r_stack).codes.contains_key("ROT"@),
        with_stack_word_defs(c, r_stack).codes["ROT"@] == rot_code(c.stack),
        with_stack_word_defs(c, r_stack).codes.contains_key("-ROT"@),
        with_stack_word_defs(c, r_stack).codes["-ROT"@] == minus_rot_code(c.stack),
        with_stack_word_defs(c, r_stack).codes.contains_key("PICK"@),
        with_stack_word_defs(c, r_stack).codes["PICK"@] == pick_code(c.stack),
        with_stack_word_defs(c, r_stack).codes.contains_key("DEPTH"@),
        with_stack_word_defs(c, r_stack).codes["DEPTH"@] == depth_code(c.stack, c.push),
{
    broadcast use lemma_native_word_codes, lemma_entry_codes;
    reveal(with_stack_word_defs);
    lemma_name_summaries();
}

/// `with_memory_words` keeps the code recorded under a name it does not define.
#[verifier::spinoff_prover]
#[verifier::rlimit(100)]
proof fn lemma_memory_words_keep_code(c: CompilerSpec, name: Seq<char>)
    requires
        name != "!"@,
        name != "(DOCON)"@,
        name != "(DOVAR)"@,
        name != "+!"@,
        name != "@"@,
        name != "C!"@,
        name != "C@"@,
        name != "HEAP-BASE"@,
        name != "MEMORY.GROW"@,
        name != "MEMORY.SIZE"@,
    ensures
        code_kept(c, with_memory_words(c), name),
{
    broadcast use lemma_native_word_codes, lemma_entry_codes;
    reveal(with_memory_words);
}

/// `with_execution_words` keeps the code recorded under a name it does not define.
#[verifier::spinoff_prover]
#[verifier::rlimit(100)]
proof fn lemma_execution_words_keep_code(c: CompilerSpec, name: Seq<char>)
    requires
        name != "(DOCOL)"@,
        name != "(DODOES)"@,
        name != "?BRANCH"@,
        name != "BRANCH"@,
        name != "BYE"@,
        name != "EXECUTE"@,
        name != "EXIT"@,
        name != "LIT"@,
    ensures
        code_kept(c, with_execution_words(c), name),
{
    broadcast use lemma_native_word_codes, lemma_entry_codes;
    reveal(with_execution_words);
}

/// What `with_arithmetic_words` records as the code of the words the laws below are about.
#[verifier::spinoff_prover]
#[verifier::rlimit(100)]
proof fn lemma_arithmetic_words_codes(c: CompilerSpec)
    ensures
        with_arithmetic_words(c).codes.contains_key("+"@),
        with_arithmetic_words(c).codes["+"@] == binary_i32_code(c.pop, c.push, Instr::I32Add),
        with_arithmetic_words(c).codes.contains_key("-"@),
        with_arithmetic_words(c).codes["-"@] == binary_i32_code(c.pop, c.push, Instr::I32Sub),
        with_arithmetic_words(c).codes.contains_key("*"@),
        with_arithmetic_words(c).codes["*"@] == binary_i32_code(c.pop, c.push, Instr::I32Mul),
        with_arithmetic_words(c).codes.contains_key("NEGATE"@),
        with_arithmetic_words(c).codes["NEGATE"@] == negate_code(c.push, c.pop),
        with_arithmetic_words(c).codes.contains_key("ABS"@),
        with_arithmetic_words(c).codes["ABS"@] == abs_code(c.push, c.pop),
        with_arithmetic_words(c).codes.contains_key("/MOD"@),
        with_arithmetic_words(c).codes["/MOD"@] == divmod_code(c.pop, c.push),
        with_arithmetic_words(c).codes.contains_key("U/MOD"@),
        with_arithmetic_words(c).codes["U/MOD"@] == u_div_mod_code(c.pop, c.push),
{
    broadcast use lemma_native_word_codes, lemma_entry_codes;
    reveal(with_arithmetic_words);
    lemma_name_summaries();
}

/// `with_arithmetic_words` keeps the code recorded under a name it does not define.
#[verifier::spinoff_prover]
#[verifier::rlimit(100)]
proof fn lemma_arithmetic_words_keep_code(c: CompilerSpec, name: Seq<char>)
    requires
        name != "*"@,
        name != "+"@,
        name != "-"@,
        name != "/"@,
        name != "/MOD"@,
        name != "ABS"@,
        name != "D*"@,
        name != "D+"@,
        name != "D-"@,
        name != "D>S"@,
        name != "DABS"@,
        name != "DNEGATE"@,
        name != "FM/MOD"@,
        name != "M*"@,
        name != "M+"@,
        name != "MOD"@,
        name != "NEGATE"@,
        name != "S>D"@,
        name != "SM/REM"@,
        name != "U/MOD"@,
        name != "UD*"@,
        name != "UD/MOD"@,
        name != "UM*"@,
        name != "UM/MOD"@,
    ensures
        code_kept(c, with_arithmetic_words(c), name),
{
    broadcast use lemma_native_word_codes, lemma_entry_codes;
    reveal(with_arithmetic_words);
}

/// What `with_bit_logic_words` records as the code of the words the laws below are about.
#[verifier::spinoff_prover]
#[verifier::rlimit(100)]
proof fn lemma_bit_logic_words_codes(c: CompilerSpec)
    ensures
        with_bit_logic_words(c).codes.contains_key("MIN"@),
        with_bit_logic_words(c).codes["MIN"@] == select_code(c.pop, c.push, Instr::I32LtS),
        with_bit_logic_words(c).codes.contains_key("MAX"@),
        with_bit_logic_words(c).codes["MAX"@] == select_code(c.pop, c.push, Instr::I32GtS),
        with_bit_logic_words(c).codes.contains_key("1+"@),
        with_bit_logic_words(c).codes["1+"@] == unary_code(c.pop, c.push, 1, Instr::I32Add),
        with_bit_logic_words(c).codes.contains_key("1-"@),
        with_bit_logic_words(c).codes["1-"@] == unary_code(c.pop, c.push, 1, Instr::I32Sub),
        with_bit_logic_words(c).codes.contains_key("INVERT"@),
        with_bit_logic_words(c).codes["INVERT"@] == unary_code(c.pop, c.push, -1i32, Instr::I32Xor),
        with_bit_logic_words(c).codes.contains_key("AND"@),
        with_bit_logic_words(c).codes["AND"@] == binary_i32_code(c.pop, c.push, Instr::I32And),
        with_bit_logic_words(c).codes.contains_key("OR"@),
        with_bit_logic_words(c).codes["OR"@] == binary_i32_code(c.pop, c.push, Instr::I32Or),
        with_bit_logic_words(c).codes.contains_key("XOR"@),
        with_bit_logic_words(c).codes["XOR"@] == binary_i32_code(c.pop, c.push, Instr::I32Xor),
        with_bit_logic_words(c).codes.contains_key("LSHIFT"@),
        with_bit_logic_words(c).codes["LSHIFT"@] == binary_i32_code(c.pop, c.push, Instr::I32Shl),
        with_bit_logic_words(c).codes.contains_key("RSHIFT"@),
        with_bit_logic_words(c).codes["RSHIFT"@] == binary_i32_code(c.pop, c.push, Instr::I32ShrU),
        with_bit_logic_words(c).codes.contains_key("ARSHIFT"@),
        with_bit_logic_words(c).codes["ARSHIFT"@] == binary_i32_code(c.pop, c.push, Instr::I32ShrS),
        with_bit_logic_words(c).codes.contains_key("2*"@),
        with_bit_logic_words(c).codes["2*"@] == unary_code(c.pop, c.push, 1, Instr::I32Shl),
        with_bit_logic_words(c).codes.contains_key("2/"@),
        with_bit_logic_words(c).codes["2/"@] == unary_code(c.pop, c.push, 1, Instr::I32ShrS),
{
    broadcast use lemma_native_word_codes, lemma_entry_codes;
    reveal(with_bit_logic_words);
    lemma_name_summaries();
}

/// `with_bit_logic_words` keeps the code recorded under a name it does not define.
#[verifier::spinoff_prover]
#[verifier::rlimit(100)]
proof fn lemma_bit_logic_words_keep_code(c: CompilerSpec, name: Seq<char>)
    requires
        name != "1+"@,
        name != "1-"@,
        name != "2*"@,
        name != "2/"@,
        name != "AND"@,
        name != "ARSHIFT"@,
        name != "CRESET"@,
        name != "CSET"@,
        name != "CTOGGLE"@,
        name != "D2*"@,
        name != "D2/"@,
        name != "DMAX"@,
        name != "DMIN"@,
        name != "INVERT"@,
        name != "LSHIFT"@,
        name != "MAX"@,
        name != "MIN"@,
        name != "OR"@,
        name != "RSHIFT"@,
        name != "XOR"@,
    ensures
        code_kept(c, with_bit_logic_words(c), name),
{
    broadcast use lemma_native_word_codes, lemma_entry_codes;
    reveal(with_bit_logic_words);
}

/// What `with_comparison_words` records as the code of the words the laws below are about.
#[verifier::spinoff_prover]
#[verifier::rlimit(100)]
proof fn lemma_comparison_words_codes(c: CompilerSpec)
    ensures
        with_comparison_words(c).codes.contains_key("="@),
        with_comparison_words(c).codes["="@] == binary_i32_bool_code(c.pop, c.push, Instr::I32Eq),
        with_comparison_words(c).codes.contains_key("<>"@),
        with_comparison_words(c).codes["<>"@] == binary_i32_bool_code(c.pop, c.push, Instr::I32Ne),
        with_comparison_words(c).codes.contains_key("<"@),
        with_comparison_words(c).codes["<"@] == binary_i32_bool_code(c.pop, c.push, Instr::I32LtS),
        with_comparison_words(c).codes.contains_key("U<"@),
        with_comparison_words(c).codes["U<"@] == binary_i32_bool_code(c.pop, c.push, Instr::I32LtU),
        with_comparison_words(c).codes.contains_key(">"@),
        with_comparison_words(c).codes[">"@] == binary_i32_bool_code(c.pop, c.push, Instr::I32GtS),
        with_comparison_words(c).codes.contains_key("U>"@),
        with_comparison_words(c).codes["U>"@] == binary_i32_bool_code(c.pop, c.push, Instr::I32GtU),
        with_comparison_words(c).codes.contains_key("<="@),
        with_comparison_words(c).codes["<="@] == binary_i32_bool_code(c.pop, c.push, Instr::I32LeS),
        with_comparison_words(c).codes.contains_key("U<="@),
        with_comparison_words(c).codes["U<="@] == binary_i32_bool_code(c.pop, c.push, Instr::I32LeU),
        with_comparison_words(c).codes.contains_key(">="@),
        with_comparison_words(c).codes[">="@] == binary_i32_bool_code(c.pop, c.push, Instr::I32GeS),
        with_comparison_words(c).codes.contains_key("U>="@),
        with_comparison_words(c).codes["U>="@] == binary_i32_bool_code(c.pop, c.push, Instr::I32GeU),
        with_comparison_words(c).codes.contains_key("=0"@),
        with_comparison_words(c).codes["=0"@] == zero_equal_code(c.pop, c.push),
        with_comparison_words(c).codes.contains_key("<>0"@),
        with_comparison_words(c).codes["<>0"@] == zero_compare_code(c.pop, c.push, Instr::I32Ne),
        with_comparison_words(c).codes.contains_key("<0"@),
        with_comparison_words(c).codes["<0"@] == zero_compare_code(c.pop, c.push, Instr::I32LtS),
        with_comparison_words(c).codes.contains_key(">0"@),
        with_comparison_words(c).codes[">0"@] == zero_compare_code(c.pop, c.push, Instr::I32GtS),
{
    broadcast use lemma_native_word_codes, lemma_entry_codes;
    reveal(with_comparison_words);
    lemma_name_summaries();
}

/// `with_comparison_words` keeps the code recorded under a name it does not define.
#[verifier::spinoff_prover]
#[verifier::rlimit(100)]
proof fn lemma_comparison_words_keep_code(c: CompilerSpec, name: Seq<char>)
    requires
        name != "<"@,
        name != "<0"@,
        name != "<="@,
        name != "<>"@,
        name != "<>0"@,
        name != "="@,
        name != "=0"@,
        name != ">"@,
        name != ">0"@,
        name != ">="@,
        name != "D<"@,
        name != "D<="@,
        name != "D<>"@,
        name != "D="@,
        name != "D>"@,
        name != "D>="@,
        name != "FALSE"@,
        name != "TRUE"@,
        name != "U<"@,
        name != "U<="@,
        name != "U>"@,
        name != "U>="@,
    ensures
        code_kept(c, with_comparison_words(c), name),
{
    broadcast use lemma_native_word_codes, lemma_entry_codes;
    reveal(with_comparison_words);
}

/// The compiler every build starts from records the code of `DUP`.
#[verifier::spinoff_prover]
#[verifier::rlimit(100)]
proof fn lemma_default_code_dup()
    ensures
        ({
            let d = crate::bootstrapper::compiler::default_compiler();
            &&& d.codes.contains_key("DUP"@)
            &&& d.codes["DUP"@] == dup_code(d.stack, d.push)
        }),
{
    lemma_stages();
    assert(stack_ids(stage(0)) == stack_ids(crate::bootstrapper::compiler::default_compiler()));
    assert(stack_ids(stage(1)) == stack_ids(crate::bootstrapper::compiler::default_compiler()));
    lemma_stack_words_codes(stage(0), (crate::bootstrapper::compiler::empty_compiler().assembler.globals.len() + 1) as u32);
    lemma_name_summaries();
    lemma_memory_words_keep_code(stage(1), "DUP"@);
    lemma_execution_words_keep_code(stage(2), "DUP"@);
    lemma_arithmetic_words_keep_code(stage(3), "DUP"@);
    lemma_bit_logic_words_keep_code(stage(4), "DUP"@);
    lemma_comparison_words_keep_code(stage(5), "DUP"@);
}

/// The compiler every build starts from records the code of `?DUP`.
#[verifier::spinoff_prover]
#[verifier::rlimit(100)]
proof fn lemma_default_code_qdup()
    ensures
        ({
            let d = crate::bootstrapper::compiler::default_compiler();
            &&& d.codes.contains_key("?DUP"@)
            &&& d.codes["?DUP"@] == qdup_code(d.stack, d.push)
        }),
{
    lemma_stages();
    assert(stack_ids(stage(0)) == stack_ids(crate::bootstrapper::compiler::default_compiler()));
    assert(stack_ids(stage(1)) == stack_ids(crate::bootstrapper::compiler::default_compiler()));
    lemma_stack_words_codes(stage(0), (crate::bootstrapper::compiler::empty_compiler().assembler.globals.len() + 1) as u32);
    lemma_name_summaries();
    lemma_memory_words_keep_code(stage(1), "?DUP"@);
    lemma_execution_words_keep_code(stage(2), "?DUP"@);
    lemma_arithmetic_words_keep_code(stage(3), "?DUP"@);
    lemma_bit_logic_words_keep_code(stage(4), "?DUP"@);
    lemma_comparison_words_keep_code(stage(5), "?DUP"@);
}

/// The compiler every build starts from records the code of `DROP`.
#[verifier::spinoff_prover]
#[verifier::rlimit(100)]
proof fn lemma_default_code_drop()
    ensures
        ({
            let d = crate::bootstrapper::compiler::default_compiler();
            &&& d.codes.contains_key("DROP"@)
            &&& d.codes["DROP"@] == drop_code(d.stack)
        }),
{
    lemma_stages();
    assert(stack_ids(stage(0)) == stack_ids(crate::bootstrapper::compiler::default_compiler()));
    assert(stack_ids(stage(1)) == stack_ids(crate::bootstrapper::compiler::default_compiler()));
    lemma_stack_words_codes(stage(0), (crate::bootstrapper::compiler::empty_compiler().assembler.globals.len() + 1) as u32);
    lemma_name_summaries();
    lemma_memory_words_keep_code(stage(1), "DROP"@);
    lemma_execution_words_keep_code(stage(2), "DROP"@);
    lemma_arithmetic_words_keep_code(stage(3), "DROP"@);
    lemma_bit_logic_words_keep_code(stage(4), "DROP"@);
    lemma_comparison_words_keep_code(stage(5), "DROP"@);
}

/// The compiler every build starts from records the code of `2DUP`.
#[verifier::spinoff_prover]
#[verifier::rlimit(100)]
proof fn lemma_default_code_two_dup()
    ensures
        ({
            let d = crate::bootstrapper::compiler::default_compiler();
            &&& d.codes.contains_key("2DUP"@)
            &&& d.codes["2DUP"@] == two_dup_code(d.stack)
        }),
{
    lemma_stages();
    assert(stack_ids(stage(0)) == stack_ids(crate::bootstrapper::compiler::default_compiler()));
    assert(stack_ids(stage(1)) == stack_ids(crate::bootstrapper::compiler::default_compiler()));
    lemma_stack_words_codes(stage(0), (crate::bootstrapper::compiler::empty_compiler().assembler.globals.len() + 1) as u32);
    lemma_name_summaries();
    lemma_memory_words_keep_code(stage(1), "2DUP"@);
    lemma_execution_words_keep_code(stage(2), "2DUP"@);
    lemma_arithmetic_words_keep_code(stage(3), "2DUP"@);
    lemma_bit_logic_words_keep_code(stage(4), "2DUP"@);
    lemma_comparison_words_keep_code(stage(5), "2DUP"@);
}

/// The compiler every build starts from records the code of `2DROP`.
#[verifier::spinoff_prover]
#[verifier::rlimit(100)]
proof fn lemma_default_code_two_drop()
    ensures
        ({
            let d = crate::bootstrapper::compiler::default_compiler();
            &&& d.codes.contains_key("2DROP"@)
            &&& d.codes["2DROP"@] == two_drop_code(d.stack)
        }),
{
    lemma_stages();
    assert(stack_ids(stage(0)) == stack_ids(crate::bootstrapper::compiler::default_compiler()));
    assert(stack_ids(stage(1)) == stack_ids(crate::bootstrapper::compiler::default_compiler()));
    lemma_stack_words_codes(stage(0), (crate::bootstrapper::compiler::empty_compiler().assembler.globals.len() + 1) as u32);
    lemma_name_summaries();
    lemma_memory_words_keep_code(stage(1), "2DROP"@);
    lemma_execution_words_keep_code(stage(2), "2DROP"@);
    lemma_arithmetic_words_keep_code(stage(3), "2DROP"@);
    lemma_bit_logic_words_keep_code(stage(4), "2DROP"@);
    lemma_comparison_words_keep_code(stage(5), "2DROP"@);
}

/// The compiler every build starts from records the code of `SWAP`.
#[verifier::spinoff_prover]
#[verifier::rlimit(100)]
proof fn lemma_default_code_swap()
    ensures
        ({
            let d = crate::bootstrapper::compiler::default_compiler();
            &&& d.codes.contains_key("SWAP"@)
            &&& d.codes["SWAP"@] == swap_code(d.stack)
        }),
{
    lemma_stages();
    assert(stack_ids(stage(0)) == stack_ids(crate::bootstrapper::compiler::default_compiler()));
    assert(stack_ids(stage(1)) == stack_ids(crate::bootstrapper::compiler::default_compiler()));
    lemma_stack_words_codes(stage(0), (crate::bootstrapper::compiler::empty_compiler().assembler.globals.len() + 1) as u32);
    lemma_name_summaries();
    lemma_memory_words_keep_code(stage(1), "SWAP"@);
    lemma_execution_words_keep_code(stage(2), "SWAP"@);
    lemma_arithmetic_words_keep_code(stage(3), "SWAP"@);
    lemma_bit_logic_words_keep_code(stage(4), "SWAP"@);
    lemma_comparison_words_keep_code(stage(5), "SWAP"@);
}

/// The compiler every build starts from records the code of `2SWAP`.
#[verifier::spinoff_prover]
#[verifier::rlimit(100)]
proof fn lemma_default_code_two_swap()
    ensures
        ({
            let d = crate::bootstrapper::compiler::default_compiler();
            &&& d.codes.contains_key("2SWAP"@)
            &&& d.codes["2SWAP"@] == two_swap_code(d.stack)
        }),
{
    lemma_stages();
    assert(stack_ids(stage(0)) == stack_ids(crate::bootstrapper::compiler::default_compiler()));
    assert(stack_ids(stage(1)) == stack_ids(crate::bootstrapper::compiler::default_compiler()));
    lemma_stack_words_codes(stage(0), (crate::bootstrapper::compiler::empty_compiler().assembler.globals.len() + 1) as u32);
    lemma_name_summaries();
    lemma_memory_words_keep_code(stage(1), "2SWAP"@);
    lemma_execution_words_keep_code(stage(2), "2SWAP"@);
    lemma_arithmetic_words_keep_code(stage(3), "2SWAP"@);
    lemma_bit_logic_words_keep_code(stage(4), "2SWAP"@);
    lemma_comparison_words_keep_code(stage(5), "2SWAP"@);
}

/// The compiler every build starts from records the code of `OVER`.
#[verifier::spinoff_prover]
#[verifier::rlimit(100)]
proof fn lemma_default_code_over()
    ensures
        ({
            let d = crate::bootstrapper::compiler::default_compiler();
            &&& d.codes.contains_key("OVER"@)
            &&& d.codes["OVER"@] == over_code(d.stack)
        }),
{
    lemma_stages();
    assert(stack_ids(stage(0)) == stack_ids(crate::bootstrapper::compiler::default_compiler()));
    assert(stack_ids(stage(1)) == stack_ids(crate::bootstrapper::compiler::default_compiler()));
    lemma_stack_words_codes(stage(0), (crate::bootstrapper::compiler::empty_compiler().assembler.globals.len() + 1) as u32);
    lemma_name_summaries();
    lemma_memory_words_keep_code(stage(1), "OVER"@);
    lemma_execution_words_keep_code(stage(2), "OVER"@);
    lemma_arithmetic_words_keep_code(stage(3), "OVER"@);
    lemma_bit_logic_words_keep_code(stage(4), "OVER"@);
    lemma_comparison_words_keep_code(stage(5), "OVER"@);
}

/// The compiler every build starts from records the code of `2OVER`.
#[verifier::spinoff_prover]
#[verifier::rlimit(100)]
proof fn lemma_default_code_two_over()
    ensures
        ({
            let d = crate::bootstrapper::compiler::default_compiler();
            &&& d.codes.contains_key("2OVER"@)
            &&& d.codes["2OVER"@] == two_over_code(d.stack)
        }),
{
    lemma_stages();
    assert(stack_ids(stage(0)) == stack_ids(crate::bootstrapper::compiler::default_compiler()));
    assert(stack_ids(stage(1)) == stack_ids(crate::bootstrapper::compiler::default_compiler()));
    lemma_stack_words_codes(stage(0), (crate::bootstrapper::compiler::empty_compiler().assembler.globals.len() + 1) as u32);
    lemma_name_summaries();
    lemma_memory_words_keep_code(stage(1), "2OVER"@);
    lemma_execution_words_keep_code(stage(2), "2OVER"@);
    lemma_arithmetic_words_keep_code(stage(3), "2OVER"@);
    lemma_bit_logic_words_keep_code(stage(4), "2OVER"@);
    lemma_comparison_words_keep_code(stage(5), "2OVER"@);
}

/// The compiler every build starts from records the code of `NIP`.
#[verifier::spinoff_prover]
#[verifier::rlimit(100)]
proof fn lemma_default_code_nip()
    ensures
        ({
            let d = crate::bootstrapper::compiler::default_compiler();
            &&& d.codes.contains_key("NIP"@)
            &&& d.codes["NIP"@] == nip_code(d.stack)
        }),
{
    lemma_stages();
    assert(stack_ids(stage(0)) == stack_ids(crate::bootstrapper::compiler::default_compiler()));
    assert(stack_ids(stage(1)) == stack_ids(crate::bootstrapper::compiler::default_compiler()));
    lemma_stack_words_codes(stage(0), (crate::bootstrapper::compiler::empty_compiler().assembler.globals.len() + 1) as u32);
    lemma_name_summaries();
    lemma_memory_words_keep_code(stage(1), "NIP"@);
    lemma_execution_words_keep_code(stage(2), "NIP"@);
    lemma_arithmetic_words_keep_code(stage(3), "NIP"@);
    lemma_bit_logic_words_keep_code(stage(4), "NIP"@);
    lemma_comparison_words_keep_code(stage(5), "NIP"@);
}

/// The compiler every build starts from records the code of `TUCK`.
#[verifier::spinoff_prover]
#[verifier::rlimit(100)]
proof fn lemma_default_code_tuck()
    ensures
        ({
            let d = crate::bootstrapper::compiler::default_compiler();
            &&& d.codes.contains_key("TUCK"@)
            &&& d.codes["TUCK"@] == tuck_code(d.stack)
        }),
{
    lemma_stages();
    assert(stack_ids(stage(0)) == stack_ids(crate::bootstrapper::compiler::default_compiler()));
    assert(stack_ids(stage(1)) == stack_ids(crate::bootstrapper::compiler::default_compiler()));
    lemma_stack_words_codes(stage(0), (crate::bootstrapper::compiler::empty_compiler().assembler.globals.len() + 1) as u32);
    lemma_name_summaries();
    lemma_memory_words_keep_code(stage(1), "TUCK"@);
    lemma_execution_words_keep_code(stage(2), "TUCK"@);
    lemma_arithmetic_words_keep_code(stage(3), "TUCK"@);
    lemma_bit_logic_words_keep_code(stage(4), "TUCK"@);
    lemma_comparison_words_keep_code(stage(5), "TUCK"@);
}

/// The compiler every build starts from records the code of `ROT`.
#[verifier::spinoff_prover]
#[verifier::rlimit(100)]
proof fn lemma_default_code_rot()
    ensures
        ({
            let d = crate::bootstrapper::compiler::default_compiler();
            &&& d.codes.contains_key("ROT"@)
            &&& d.codes["ROT"@] == rot_code(d.stack)
        }),
{
    lemma_stages();
    assert(stack_ids(stage(0)) == stack_ids(crate::bootstrapper::compiler::default_compiler()));
    assert(stack_ids(stage(1)) == stack_ids(crate::bootstrapper::compiler::default_compiler()));
    lemma_stack_words_codes(stage(0), (crate::bootstrapper::compiler::empty_compiler().assembler.globals.len() + 1) as u32);
    lemma_name_summaries();
    lemma_memory_words_keep_code(stage(1), "ROT"@);
    lemma_execution_words_keep_code(stage(2), "ROT"@);
    lemma_arithmetic_words_keep_code(stage(3), "ROT"@);
    lemma_bit_logic_words_keep_code(stage(4), "ROT"@);
    lemma_comparison_words_keep_code(stage(5), "ROT"@);
}

/// The compiler every build starts from records the code of `-ROT`.
#[verifier::spinoff_prover]
#[verifier::rlimit(100)]
proof fn lemma_default_code_minus_rot()
    ensures
        ({
            let d = crate::bootstrapper::compiler::default_compiler();
            &&& d.codes.contains_key("-ROT"@)
            &&& d.codes["-ROT"@] == minus_rot_code(d.stack)
        }),
{
    lemma_stages();
    assert(stack_ids(stage(0)) == stack_ids(crate::bootstrapper::compiler::default_compiler()));
    assert(stack_ids(stage(1)) == stack_ids(crate::bootstrapper::compiler::default_compiler()));
    lemma_stack_words_codes(stage(0), (crate::bootstrapper::compiler::empty_compiler().assembler.globals.len() + 1) as u32);
    lemma_name_summaries();
    lemma_memory_words_keep_code(stage(1), "-ROT"@);
    lemma_execution_words_keep_code(stage(2), "-ROT"@);
    lemma_arithmetic_words_keep_code(stage(3), "-ROT"@);
    lemma_bit_logic_words_keep_code(stage(4), "-ROT"@);
    lemma_comparison_words_keep_code(stage(5), "-ROT"@);
}

/// The compiler every build starts from records the code of `PICK`.
#[verifier::spinoff_prover]
#[verifier::rlimit(100)]
proof fn lemma_default_code_pick()
    ensures
        ({
            let d = crate::bootstrapper::compiler::default_compiler();
            &&& d.codes.contains_key("PICK"@)
            &&& d.codes["PICK"@] == pick_code(d.stack)
        }),
{
    lemma_stages();
    assert(stack_ids(stage(0)) == stack_ids(crate::bootstrapper::compiler::default_compiler()));
    assert(stack_ids(stage(1)) == stack_ids(crate::bootstrapper::compiler::default_compiler()));
    lemma_stack_words_codes(stage(0), (crate::bootstrapper::compiler::empty_compiler().assembler.globals.len() + 1) as u32);
    lemma_name_summaries();
    lemma_memory_words_keep_code(stage(1), "PICK"@);
    lemma_execution_words_keep_code(stage(2), "PICK"@);
    lemma_arithmetic_words_keep_code(stage(3), "PICK"@);
    lemma_bit_logic_words_keep_code(stage(4), "PICK"@);
    lemma_comparison_words_keep_code(stage(5), "PICK"@);
}

/// The compiler every build starts from records the code of `DEPTH`.
#[verifier::spinoff_prover]
#[verifier::rlimit(100)]
proof fn lemma_default_code_depth()
    ensures
        ({
            let d = crate::bootstrapper::compiler::default_compiler();
            &&& d.codes.contains_key("DEPTH"@)
            &&& d.codes["DEPTH"@] == depth_code(d.stack, d.push)
        }),
{
    lemma_stages();
    assert(stack_ids(stage(0)) == stack_ids(crate::bootstrapper::compiler::default_compiler()));
    assert(stack_ids(stage(1)) == stack_ids(crate::bootstrapper::compiler::default_compiler()));
    lemma_stack_words_codes(stage(0), (crate::bootstrapper::compiler::empty_compiler().assembler.globals.len() + 1) as u32);
    lemma_name_summaries();
    lemma_memory_words_keep_code(stage(1), "DEPTH"@);
    lemma_execution_words_keep_code(stage(2), "DEPTH"@);
    lemma_arithmetic_words_keep_code(stage(3), "DEPTH"@);
    lemma_bit_logic_words_keep_code(stage(4), "DEPTH"@);
    lemma_comparison_words_keep_code(stage(5), "DEPTH"@);
}

/// The compiler every build starts from records the code of `+`.
#[verifier::spinoff_prover]
#[verifier::rlimit(100)]
proof fn lemma_default_code_add()
    ensures
        ({
            let d = crate::bootstrapper::compiler::default_compiler();
            &&& d.codes.contains_key("+"@)
            &&& d.codes["+"@] == binary_i32_code(d.pop, d.push, Instr::I32Add)
        }),
{
    lemma_stages();
    assert(stack_ids(stage(3)) == stack_ids(crate::bootstrapper::compiler::default_compiler()));
    assert(stack_ids(stage(4)) == stack_ids(crate::bootstrapper::compiler::default_compiler()));
    lemma_arithmetic_words_codes(stage(3));
    lemma_name_summaries();
    lemma_bit_logic_words_keep_code(stage(4), "+"@);
    lemma_comparison_words_keep_code(stage(5), "+"@);
}

/// The compiler every build starts from records the code of `-`.
#[verifier::spinoff_prover]
#[verifier::rlimit(100)]
proof fn lemma_default_code_sub()
    ensures
        ({
            let d = crate::bootstrapper::compiler::default_compiler();
            &&& d.codes.contains_key("-"@)
            &&& d.codes["-"@] == binary_i32_code(d.pop, d.push, Instr::I32Sub)
        }),
{
    lemma_stages();
    assert(stack_ids(stage(3)) == stack_ids(crate::bootstrapper::compiler::default_compiler()));
    assert(stack_ids(stage(4)) == stack_ids(crate::bootstrapper::compiler::default_compiler()));
    lemma_arithmetic_words_codes(stage(3));
    lemma_name_summaries();
    lemma_bit_logic_words_keep_code(stage(4), "-"@);
    lemma_comparison_words_keep_code(stage(5), "-"@);
}

/// The compiler every build starts from records the code of `*`.
#[verifier::spinoff_prover]
#[verifier::rlimit(100)]
proof fn lemma_default_code_mul()
    ensures
        ({
            let d = crate::bootstrapper::compiler::default_compiler();
            &&& d.codes.contains_key("*"@)
            &&& d.codes["*"@] == binary_i32_code(d.pop, d.push, Instr::I32Mul)
        }),
{
    lemma_stages();
    assert(stack_ids(stage(3)) == stack_ids(crate::bootstrapper::compiler::default_compiler()));
    assert(stack_ids(stage(4)) == stack_ids(crate::bootstrapper::compiler::default_compiler()));
    lemma_arithmetic_words_codes(stage(3));
    lemma_name_summaries();
    lemma_bit_logic_words_keep_code(stage(4), "*"@);
    lemma_comparison_words_keep_code(stage(5), "*"@);
}

/// The compiler every build starts from records the code of `NEGATE`.
#[verifier::spinoff_prover]
#[verifier::rlimit(100)]
proof fn lemma_default_code_negate()
    ensures
        ({
            let d = crate::bootstrapper::compiler::default_compiler();
            &&& d.codes.contains_key("NEGATE"@)
            &&& d.codes["NEGATE"@] == negate_code(d.push, d.pop)
        }),
{
    lemma_stages();
    assert(stack_ids(stage(3)) == stack_ids(crate::bootstrapper::compiler::default_compiler()));
    assert(stack_ids(stage(4)) == stack_ids(crate::bootstrapper::compiler::default_compiler()));
    lemma_arithmetic_words_codes(stage(3));
    lemma_name_summaries();
    lemma_bit_logic_words_keep_code(stage(4), "NEGATE"@);
    lemma_comparison_words_keep_code(stage(5), "NEGATE"@);
}

/// The compiler every build starts from records the code of `ABS`.
#[verifier::spinoff_prover]
#[verifier::rlimit(100)]
proof fn lemma_default_code_abs()
    ensures
        ({
            let d = crate::bootstrapper::compiler::default_compiler();
            &&& d.codes.contains_key("ABS"@)
            &&& d.codes["ABS"@] == abs_code(d.push, d.pop)
        }),
{
    lemma_stages();
    assert(stack_ids(stage(3)) == stack_ids(crate::bootstrapper::compiler::default_compiler()));
    assert(stack_ids(stage(4)) == stack_ids(crate::bootstrapper::compiler::default_compiler()));
    lemma_arithmetic_words_codes(stage(3));
    lemma_name_summaries();
    lemma_bit_logic_words_keep_code(stage(4), "ABS"@);
    lemma_comparison_words_keep_code(stage(5), "ABS"@);
}

/// The compiler every build starts from records the code of `/MOD`.
#[verifier::spinoff_prover]
#[verifier::rlimit(100)]
proof fn lemma_default_code_div_mod()
    ensures
        ({
            let d = crate::bootstrapper::compiler::default_compiler();
            &&& d.codes.contains_key("/MOD"@)
            &&& d.codes["/MOD"@] == divmod_code(d.pop, d.push)
        }),
{
    lemma_stages();
    assert(stack_ids(stage(3)) == stack_ids(crate::bootstrapper::compiler::default_compiler()));
    assert(stack_ids(stage(4)) == stack_ids(crate::bootstrapper::compiler::default_compiler()));
    lemma_arithmetic_words_codes(stage(3));
    lemma_name_summaries();
    lemma_bit_logic_words_keep_code(stage(4), "/MOD"@);
    lemma_comparison_words_keep_code(stage(5), "/MOD"@);
}

/// The compiler every build starts from records the code of `U/MOD`.
#[verifier::spinoff_prover]
#[verifier::rlimit(100)]
proof fn lemma_default_code_u_div_mod()
    ensures
        ({
            let d = crate::bootstrapper::compiler::default_compiler();
            &&& d.codes.contains_key("U/MOD"@)
            &&& d.codes["U/MOD"@] == u_div_mod_code(d.pop, d.push)
        }),
{
    lemma_stages();
    assert(stack_ids(stage(3)) == stack_ids(crate::bootstrapper::compiler::default_compiler()));
    assert(stack_ids(stage(4)) == stack_ids(crate::bootstrapper::compiler::default_compiler()));
    lemma_arithmetic_words_codes(stage(3));
    lemma_name_summaries();
    lemma_bit_logic_words_keep_code(stage(4), "U/MOD"@);
    lemma_comparison_words_keep_code(stage(5), "U/MOD"@);
}

/// The compiler every build starts from records the code of `MIN`.
#[verifier::spinoff_prover]
#[verifier::rlimit(100)]
proof fn lemma_default_code_min()
    ensures
        ({
            let d = crate::bootstrapper::compiler::default_compiler();
            &&& d.codes.contains_key("MIN"@)
            &&& d.codes["MIN"@] == select_code(d.pop, d.push, Instr::I32LtS)
        }),
{
    lemma_stages();
    assert(stack_ids(stage(4)) == stack_ids(crate::bootstrapper::compiler::default_compiler()));
    assert(stack_ids(stage(5)) == stack_ids(crate::bootstrapper::compiler::default_compiler()));
    lemma_bit_logic_words_codes(stage(4));
    lemma_name_summaries();
    lemma_comparison_words_keep_code(stage(5), "MIN"@);
}

/// The compiler every build starts from records the code of `MAX`.
#[verifier::spinoff_prover]
#[verifier::rlimit(100)]
proof fn lemma_default_code_max()
    ensures
        ({
            let d = crate::bootstrapper::compiler::default_compiler();
            &&& d.codes.contains_key("MAX"@)
            &&& d.codes["MAX"@] == select_code(d.pop, d.push, Instr::I32GtS)
        }),
{
    lemma_stages();
    assert(stack_ids(stage(4)) == stack_ids(crate::bootstrapper::compiler::default_compiler()));
    assert(stack_ids(stage(5)) == stack_ids(crate::bootstrapper::compiler::default_compiler()));
    lemma_bit_logic_words_codes(stage(4));
    lemma_name_summaries();
    lemma_comparison_words_keep_code(stage(5), "MAX"@);
}

/// The compiler every build starts from records the code of `1+`.
#[verifier::spinoff_prover]
#[verifier::rlimit(100)]
proof fn lemma_default_code_one_plus()
    ensures
        ({
            let d = crate::bootstrapper::compiler::default_compiler();
            &&& d.codes.contains_key("1+"@)
            &&& d.codes["1+"@] == unary_code(d.pop, d.push, 1, Instr::I32Add)
        }),
{
    lemma_stages();
    assert(stack_ids(stage(4)) == stack_ids(crate::bootstrapper::compiler::default_compiler()));
    assert(stack_ids(stage(5)) == stack_ids(crate::bootstrapper::compiler::default_compiler()));
    lemma_bit_logic_words_codes(stage(4));
    lemma_name_summaries();
    lemma_comparison_words_keep_code(stage(5), "1+"@);
}

/// The compiler every build starts from records the code of `1-`.
#[verifier::spinoff_prover]
#[verifier::rlimit(100)]
proof fn lemma_default_code_one_minus()
    ensures
        ({
            let d = crate::bootstrapper::compiler::default_compiler();
            &&& d.codes.contains_key("1-"@)
            &&& d.codes["1-"@] == unary_code(d.pop, d.push, 1, Instr::I32Sub)
        }),
{
    lemma_stages();
    assert(stack_ids(stage(4)) == stack_ids(crate::bootstrapper::compiler::default_compiler()));
    assert(stack_ids(stage(5)) == stack_ids(crate::bootstrapper::compiler::default_compiler()));
    lemma_bit_logic_words_codes(stage(4));
    lemma_name_summaries();
    lemma_comparison_words_keep_code(stage(5), "1-"@);
}

/// The compiler every build starts from records the code of `INVERT`.
#[verifier::spinoff_prover]
#[verifier::rlimit(100)]
proof fn lemma_default_code_invert()
    ensures
        ({
            let d = crate::bootstrapper::compiler::default_compiler();
            &&& d.codes.contains_key("INVERT"@)
            &&& d.codes["INVERT"@] == unary_code(d.pop, d.push, -1i32, Instr::I32Xor)
        }),
{
    lemma_stages();
    assert(stack_ids(stage(4)) == stack_ids(crate::bootstrapper::compiler::default_compiler()));
    assert(stack_ids(stage(5)) == stack_ids(crate::bootstrapper::compiler::default_compiler()));
    lemma_bit_logic_words_codes(stage(4));
    lemma_name_summaries();
    lemma_comparison_words_keep_code(stage(5), "INVERT"@);
}

/// The compiler every build starts from records the code of `AND`.
#[verifier::spinoff_prover]
#[verifier::rlimit(100)]
proof fn lemma_default_code_and()
    ensures
        ({
            let d = crate::bootstrapper::compiler::default_compiler();
            &&& d.codes.contains_key("AND"@)
            &&& d.codes["AND"@] == binary_i32_code(d.pop, d.push, Instr::I32And)
        }),
{
    lemma_stages();
    assert(stack_ids(stage(4)) == stack_ids(crate::bootstrapper::compiler::default_compiler()));
    assert(stack_ids(stage(5)) == stack_ids(crate::bootstrapper::compiler::default_compiler()));
    lemma_bit_logic_words_codes(stage(4));
    lemma_name_summaries();
    lemma_comparison_words_keep_code(stage(5), "AND"@);
}

/// The compiler every build starts from records the code of `OR`.
#[verifier::spinoff_prover]
#[verifier::rlimit(100)]
proof fn lemma_default_code_or()
    ensures
        ({
            let d = crate::bootstrapper::compiler::default_compiler();
            &&& d.codes.contains_key("OR"@)
            &&& d.codes["OR"@] == binary_i32_code(d.pop, d.push, Instr::I32Or)
        }),
{
    lemma_stages();
    assert(stack_ids(stage(4)) == stack_ids(crate::bootstrapper::compiler::default_compiler()));
    assert(stack_ids(stage(5)) == stack_ids(crate::bootstrapper::compiler::default_compiler()));
    lemma_bit_logic_words_codes(stage(4));
    lemma_name_summaries();
    lemma_comparison_words_keep_code(stage(5), "OR"@);
}

/// The compiler every build starts from records the code of `XOR`.
#[verifier::spinoff_prover]
#[verifier::rlimit(100)]
proof fn lemma_default_code_xor()
    ensures
        ({
            let d = crate::bootstrapper::compiler::default_compiler();
            &&& d.codes.contains_key("XOR"@)
            &&& d.codes["XOR"@] == binary_i32_code(d.pop, d.push, Instr::I32Xor)
        }),
{
    lemma_stages();
    assert(stack_ids(stage(4)) == stack_ids(crate::bootstrapper::compiler::default_compiler()));
    assert(stack_ids(stage(5)) == stack_ids(crate::bootstrapper::compiler::default_compiler()));
    lemma_bit_logic_words_codes(stage(4));
    lemma_name_summaries();
    lemma_comparison_words_keep_code(stage(5), "XOR"@);
}

/// The compiler every build starts from records the code of `LSHIFT`.
#[verifier::spinoff_prover]
#[verifier::rlimit(100)]
proof fn lemma_default_code_lshift()
    ensures
        ({
            let d = crate::bootstrapper::compiler::default_compiler();
            &&& d.codes.contains_key("LSHIFT"@)
            &&& d.codes["LSHIFT"@] == binary_i32_code(d.pop, d.push, Instr::I32Shl)
        }),
{
    lemma_stages();
    assert(stack_ids(stage(4)) == stack_ids(crate::bootstrapper::compiler::default_compiler()));
    assert(stack_ids(stage(5)) == stack_ids(crate::bootstrapper::compiler::default_compiler()));
    lemma_bit_logic_words_codes(stage(4));
    lemma_name_summaries();
    lemma_comparison_words_keep_code(stage(5), "LSHIFT"@);
}

/// The compiler every build starts from records the code of `RSHIFT`.
#[verifier::spinoff_prover]
#[verifier::rlimit(100)]
proof fn lemma_default_code_rshift()
    ensures
        ({
            let d = crate::bootstrapper::compiler::default_compiler();
            &&& d.codes.contains_key("RSHIFT"@)
            &&& d.codes["RSHIFT"@] == binary_i32_code(d.pop, d.push, Instr::I32ShrU)
        }),
{
    lemma_stages();
    assert(stack_ids(stage(4)) == stack_ids(crate::bootstrapper::compiler::default_compiler()));
    assert(stack_ids(stage(5)) == stack_ids(crate::bootstrapper::compiler::default_compiler()));
    lemma_bit_logic_words_codes(stage(4));
    lemma_name_summaries();
    lemma_comparison_words_keep_code(stage(5), "RSHIFT"@);
}

/// The compiler every build starts from records the code of `ARSHIFT`.
#[verifier::spinoff_prover]
#[verifier::rlimit(100)]
proof fn lemma_default_code_arshift()
    ensures
        ({
            let d = crate::bootstrapper::compiler::default_compiler();
            &&& d.codes.contains_key("ARSHIFT"@)
            &&& d.codes["ARSHIFT"@] == binary_i32_code(d.pop, d.push, Instr::I32ShrS)
        }),
{
    lemma_stages();
    assert(stack_ids(stage(4)) == stack_ids(crate::bootstrapper::compiler::default_compiler()));
    assert(stack_ids(stage(5)) == stack_ids(crate::bootstrapper::compiler::default_compiler()));
    lemma_bit_logic_words_codes(stage(4));
    lemma_name_summaries();
    lemma_comparison_words_keep_code(stage(5), "ARSHIFT"@);
}

/// The compiler every build starts from records the code of `2*`.
#[verifier::spinoff_prover]
#[verifier::rlimit(100)]
proof fn lemma_default_code_two_star()
    ensures
        ({
            let d = crate::bootstrapper::compiler::default_compiler();
            &&& d.codes.contains_key("2*"@)
            &&& d.codes["2*"@] == unary_code(d.pop, d.push, 1, Instr::I32Shl)
        }),
{
    lemma_stages();
    assert(stack_ids(stage(4)) == stack_ids(crate::bootstrapper::compiler::default_compiler()));
    assert(stack_ids(stage(5)) == stack_ids(crate::bootstrapper::compiler::default_compiler()));
    lemma_bit_logic_words_codes(stage(4));
    lemma_name_summaries();
    lemma_comparison_words_keep_code(stage(5), "2*"@);
}

/// The compiler every build starts from records the code of `2/`.
#[verifier::spinoff_prover]
#[verifier::rlimit(100)]
proof fn lemma_default_code_two_slash()
    ensures
        ({
            let d = crate::bootstrapper::compiler::default_compiler();
            &&& d.codes.contains_key("2/"@)
            &&& d.codes["2/"@] == unary_code(d.pop, d.push, 1, Instr::I32ShrS)
        }),
{
    lemma_stages();
    assert(stack_ids(stage(4)) == stack_ids(crate::bootstrapper::compiler::default_compiler()));
    assert(stack_ids(stage(5)) == stack_ids(crate::bootstrapper::compiler::default_compiler()));
    lemma_bit_logic_words_codes(stage(4));
    lemma_name_summaries();
    lemma_comparison_words_keep_code(stage(5), "2/"@);
}

/// The compiler every build starts from records the code of `=`.
#[verifier::spinoff_prover]
#[verifier::rlimit(100)]
proof fn lemma_default_code_equal()
    ensures
        ({
            let d = crate::bootstrapper::compiler::default_compiler();
            &&& d.codes.contains_key("="@)
            &&& d.codes["="@] == binary_i32_bool_code(d.pop, d.push, Instr::I32Eq)
        }),
{
    lemma_stages();
    assert(stack_ids(stage(5)) == stack_ids(crate::bootstrapper::compiler::default_compiler()));
    assert(stack_ids(stage(6)) == stack_ids(crate::bootstrapper::compiler::default_compiler()));
    lemma_comparison_words_codes(stage(5));
}

/// The compiler every build starts from records the code of `<>`.
#[verifier::spinoff_prover]
#[verifier::rlimit(100)]
proof fn lemma_default_code_not_equal()
    ensures
        ({
            let d = crate::bootstrapper::compiler::default_compiler();
            &&& d.codes.contains_key("<>"@)
            &&& d.codes["<>"@] == binary_i32_bool_code(d.pop, d.push, Instr::I32Ne)
        }),
{
    lemma_stages();
    assert(stack_ids(stage(5)) == stack_ids(crate::bootstrapper::compiler::default_compiler()));
    assert(stack_ids(stage(6)) == stack_ids(crate::bootstrapper::compiler::default_compiler()));
    lemma_comparison_words_codes(stage(5));
}

/// The compiler every build starts from records the code of `<`.
#[verifier::spinoff_prover]
#[verifier::rlimit(100)]
proof fn lemma_default_code_less()
    ensures
        ({
            let d = crate::bootstrapper::compiler::default_compiler();
            &&& d.codes.contains_key("<"@)
            &&& d.codes["<"@] == binary_i32_bool_code(d.pop, d.push, Instr::I32LtS)
        }),
{
    lemma_stages();
    assert(stack_ids(stage(5)) == stack_ids(crate::bootstrapper::compiler::default_compiler()));
    assert(stack_ids(stage(6)) == stack_ids(crate::bootstrapper::compiler::default_compiler()));
    lemma_comparison_words_codes(stage(5));
}

/// The compiler every build starts from records the code of `U<`.
#[verifier::spinoff_prover]
#[verifier::rlimit(100)]
proof fn lemma_default_code_u_less()
    ensures
        ({
            let d = crate::bootstrapper::compiler::default_compiler();
            &&& d.codes.contains_key("U<"@)
            &&& d.codes["U<"@] == binary_i32_bool_code(d.pop, d.push, Instr::I32LtU)
        }),
{
    lemma_stages();
    assert(stack_ids(stage(5)) == stack_ids(crate::bootstrapper::compiler::default_compiler()));
    assert(stack_ids(stage(6)) == stack_ids(crate::bootstrapper::compiler::default_compiler()));
    lemma_comparison_words_codes(stage(5));
}

/// The compiler every build starts from records the code of `>`.
#[verifier::spinoff_prover]
#[verifier::rlimit(100)]
proof fn lemma_default_code_greater()
    ensures
        ({
            let d = crate::bootstrapper::compiler::default_compiler();
            &&& d.codes.contains_key(">"@)
            &&& d.codes[">"@] == binary_i32_bool_code(d.pop, d.push, Instr::I32GtS)
        }),
{
    lemma_stages();
    assert(stack_ids(stage(5)) == stack_ids(crate::bootstrapper::compiler::default_compiler()));
    assert(stack_ids(stage(6)) == stack_ids(crate::bootstrapper::compiler::default_compiler()));
    lemma_comparison_words_codes(stage(5));
}

/// The compiler every build starts from records the code of `U>`.
#[verifier::spinoff_prover]
#[verifier::rlimit(100)]
proof fn lemma_default_code_u_greater()
    ensures
        ({
            let d = crate::bootstrapper::compiler::default_compiler();
            &&& d.codes.contains_key("U>"@)
            &&& d.codes["U>"@] == binary_i32_bool_code(d.pop, d.push, Instr::I32GtU)
        }),
{
    lemma_stages();
    assert(stack_ids(stage(5)) == stack_ids(crate::bootstrapper::compiler::default_compiler()));
    assert(stack_ids(stage(6)) == stack_ids(crate::bootstrapper::compiler::default_compiler()));
    lemma_comparison_words_codes(stage(5));
}

/// The compiler every build starts from records the code of `<=`.
#[verifier::spinoff_prover]
#[verifier::rlimit(100)]
proof fn lemma_default_code_less_equal()
    ensures
        ({
            let d = crate::bootstrapper::compiler::default_compiler();
            &&& d.codes.contains_key("<="@)
            &&& d.codes["<="@] == binary_i32_bool_code(d.pop, d.push, Instr::I32LeS)
        }),
{
    lemma_stages();
    assert(stack_ids(stage(5)) == stack_ids(crate::bootstrapper::compiler::default_compiler()));
    assert(stack_ids(stage(6)) == stack_ids(crate::bootstrapper::compiler::default_compiler()));
    lemma_comparison_words_codes(stage(5));
}

/// The compiler every build starts from records the code of `U<=`.
#[verifier::spinoff_prover]
#[verifier::rlimit(100)]
proof fn lemma_default_code_u_less_equal()
    ensures
        ({
            let d = crate::bootstrapper::compiler::default_compiler();
            &&& d.codes.contains_key("U<="@)
            &&& d.codes["U<="@] == binary_i32_bool_code(d.pop, d.push, Instr::I32LeU)
        }),
{
    lemma_stages();
    assert(stack_ids(stage(5)) == stack_ids(crate::bootstrapper::compiler::default_compiler()));
    assert(stack_ids(stage(6)) == stack_ids(crate::bootstrapper::compiler::default_compiler()));
    lemma_comparison_words_codes(stage(5));
}

/// The compiler every build starts from records the code of `>=`.
#[verifier::spinoff_prover]
#[verifier::rlimit(100)]
proof fn lemma_default_code_greater_equal()
    ensures
        ({
            let d = crate::bootstrapper::compiler::default_compiler();
            &&& d.codes.contains_key(">="@)
            &&& d.codes[">="@] == binary_i32_bool_code(d.pop, d.push, Instr::I32GeS)
        }),
{
    lemma_stages();
    assert(stack_ids(stage(5)) == stack_ids(crate::bootstrapper::compiler::default_compiler()));
    assert(stack_ids(stage(6)) == stack_ids(crate::bootstrapper::compiler::default_compiler()));
    lemma_comparison_words_codes(stage(5));
}

/// The compiler every build starts from records the code of `U>=`.
#[verifier::spinoff_prover]
#[verifier::rlimit(100)]
proof fn lemma_default_code_u_greater_equal()
    ensures
        ({
            let d = crate::bootstrapper::compiler::default_compiler();
            &&& d.codes.contains_key("U>="@)
            &&& d.codes["U>="@] == binary_i32_bool_code(d.pop, d.push, Instr::I32GeU)
        }),
{
    lemma_stages();
    assert(stack_ids(stage(5)) == stack_ids(crate::bootstrapper::compiler::default_compiler()));
    assert(stack_ids(stage(6)) == stack_ids(crate::bootstrapper::compiler::default_compiler()));
    lemma_comparison_words_codes(stage(5));
}

/// The compiler every build starts from records the code of `=0`.
#[verifier::spinoff_prover]
#[verifier::rlimit(100)]
proof fn lemma_default_code_zero_equal()
    ensures
        ({
            let d = crate::bootstrapper::compiler::default_compiler();
            &&& d.codes.contains_key("=0"@)
            &&& d.codes["=0"@] == zero_equal_code(d.pop, d.push)
        }),
{
    lemma_stages();
    assert(stack_ids(stage(5)) == stack_ids(crate::bootstrapper::compiler::default_compiler()));
    assert(stack_ids(stage(6)) == stack_ids(crate::bootstrapper::compiler::default_compiler()));
    lemma_comparison_words_codes(stage(5));
}

/// The compiler every build starts from records the code of `<>0`.
#[verifier::spinoff_prover]
#[verifier::rlimit(100)]
proof fn lemma_default_code_zero_not_equal()
    ensures
        ({
            let d = crate::bootstrapper::compiler::default_compiler();
            &&& d.codes.contains_key("<>0"@)
            &&& d.codes["<>0"@] == zero_compare_code(d.pop, d.push, Instr::I32Ne)
        }),
{
    lemma_stages();
    assert(stack_ids(stage(5)) == stack_ids(crate::bootstrapper::compiler::default_compiler()));
    assert(stack_ids(stage(6)) == stack_ids(crate::bootstrapper::compiler::default_compiler()));
    lemma_comparison_words_codes(stage(5));
}

/// The compiler every build starts from records the code of `<0`.
#[verifier::spinoff_prover]
#[verifier::rlimit(100)]
proof fn lemma_default_code_zero_less()
    ensures
        ({
            let d = crate::bootstrapper::compiler::default_compiler();
            &&& d.codes.contains_key("<0"@)
            &&& d.codes["<0"@] == zero_compare_code(d.pop, d.push, Instr::I32LtS)
        }),
{
    lemma_stages();
    assert(stack_ids(stage(5)) == stack_ids(crate::bootstrapper::compiler::default_compiler()));
    assert(stack_ids(stage(6)) == stack_ids(crate::bootstrapper::compiler::default_compiler()));
    lemma_comparison_words_codes(stage(5));
}

/// The compiler every build starts from records the code of `>0`.
#[verifier::spinoff_prover]
#[verifier::rlimit(100)]
proof fn lemma_default_code_zero_greater()
    ensures
        ({
            let d = crate::bootstrapper::compiler::default_compiler();
            &&& d.codes.contains_key(">0"@)
            &&& d.codes[">0"@] == zero_compare_code(d.pop, d.push, Instr::I32GtS)
        }),
{
    lemma_stages();
    assert(stack_ids(stage(5)) == stack_ids(crate::bootstrapper::compiler::default_compiler()));
    assert(stack_ids(stage(6)) == stack_ids(crate::bootstrapper::compiler::default_compiler()));
    lemma_comparison_words_codes(stage(5));
}

/// Law (`DUP`): in the compiler every build starts from, the word `DUP` takes
/// `( x -- x x )`: the top cell is copied on top.
#[verifier::spinoff_prover]
#[verifier::rlimit(60)]
pub proof fn lemma_default_dup(m: Machine, n: nat, fuel: nat)
    requires
        word_frame(m, default_compiler().stack, n),
        n >= 1,
        fuel >= 1,
    ensures
        ({
            let c = default_compiler();
            let s = data_stack(m, c.stack, n);
            let r = exec(module_functions(c.assembler), word_body(c.codes["DUP"@]), 0, m, fuel);
            &&& c.codes.contains_key("DUP"@)
            &&& r is Some
            &&& data_stack(r.unwrap(), c.stack, n + 1) == s.push(s[n - 1])
        }),
{
    let c = default_compiler();
    let s = data_stack(m, c.stack, n);
    lemma_default_code_dup();
    lemma_default_stack_functions();
    lemma_dup(module_functions(c.assembler), c.stack, c.push, c.pop, m, n, fuel);
}

/// Law (`?DUP`): in the compiler every build starts from, the word `?DUP` takes
/// `( x -- x x )` when `x` is not zero and `( x -- x )` when it is.
#[verifier::spinoff_prover]
#[verifier::rlimit(60)]
pub proof fn lemma_default_qdup(m: Machine, n: nat, fuel: nat)
    requires
        word_frame(m, default_compiler().stack, n),
        n >= 1,
        fuel >= 1,
    ensures
        ({
            let c = default_compiler();
            let s = data_stack(m, c.stack, n);
            let r = exec(module_functions(c.assembler), word_body(c.codes["?DUP"@]), 0, m, fuel);
            &&& c.codes.contains_key("?DUP"@)
            &&& r is Some
            &&& s[n - 1] != 0 ==> data_stack(r.unwrap(), c.stack, n + 1) == s.push(s[n - 1])
            &&& s[n - 1] == 0 ==> data_stack(r.unwrap(), c.stack, n) == s
        }),
{
    let c = default_compiler();
    let s = data_stack(m, c.stack, n);
    lemma_default_code_qdup();
    lemma_default_stack_functions();
    lemma_qdup(module_functions(c.assembler), c.stack, c.push, c.pop, m, n, fuel);
}

/// Law (`DROP`): in the compiler every build starts from, the word `DROP` takes
/// `( x -- )`: the top cell is dropped.
#[verifier::spinoff_prover]
#[verifier::rlimit(60)]
pub proof fn lemma_default_drop(m: Machine, n: nat, fuel: nat)
    requires
        word_frame(m, default_compiler().stack, n),
        n >= 1,
        fuel >= 1,
    ensures
        ({
            let c = default_compiler();
            let s = data_stack(m, c.stack, n);
            let r = exec(module_functions(c.assembler), word_body(c.codes["DROP"@]), 0, m, fuel);
            &&& c.codes.contains_key("DROP"@)
            &&& r is Some
            &&& data_stack(r.unwrap(), c.stack, (n - 1) as nat) == s.drop_last()
        }),
{
    let c = default_compiler();
    let s = data_stack(m, c.stack, n);
    lemma_default_code_drop();
    lemma_default_stack_functions();
    lemma_drop(module_functions(c.assembler), c.stack, c.push, c.pop, m, n, fuel);
}

/// Law (`SWAP`): in the compiler every build starts from, the word `SWAP` takes
/// `( a b -- b a )`: the top two cells change places.
#[verifier::spinoff_prover]
#[verifier::rlimit(60)]
pub proof fn lemma_default_swap(m: Machine, n: nat, fuel: nat)
    requires
        word_frame(m, default_compiler().stack, n),
        n >= 2,
        fuel >= 1,
    ensures
        ({
            let c = default_compiler();
            let s = data_stack(m, c.stack, n);
            let r = exec(module_functions(c.assembler), word_body(c.codes["SWAP"@]), 0, m, fuel);
            &&& c.codes.contains_key("SWAP"@)
            &&& r is Some
            &&& data_stack(r.unwrap(), c.stack, n) == s.take(n - 2).push(s[n - 1]).push(s[n - 2])
        }),
{
    let c = default_compiler();
    let s = data_stack(m, c.stack, n);
    lemma_default_code_swap();
    lemma_default_stack_functions();
    lemma_swap(module_functions(c.assembler), c.stack, c.push, c.pop, m, n, fuel);
}

/// Law (`OVER`): in the compiler every build starts from, the word `OVER` takes
/// `( a b -- a b a )`: the second cell is copied on top.
#[verifier::spinoff_prover]
#[verifier::rlimit(60)]
pub proof fn lemma_default_over(m: Machine, n: nat, fuel: nat)
    requires
        word_frame(m, default_compiler().stack, n),
        n >= 2,
        fuel >= 1,
    ensures
        ({
            let c = default_compiler();
            let s = data_stack(m, c.stack, n);
            let r = exec(module_functions(c.assembler), word_body(c.codes["OVER"@]), 0, m, fuel);
            &&& c.codes.contains_key("OVER"@)
            &&& r is Some
            &&& data_stack(r.unwrap(), c.stack, n + 1) == s.push(s[n - 2])
        }),
{
    let c = default_compiler();
    let s = data_stack(m, c.stack, n);
    lemma_default_code_over();
    lemma_default_stack_functions();
    lemma_over(module_functions(c.assembler), c.stack, c.push, c.pop, m, n, fuel);
}

/// Law (`NIP`): in the compiler every build starts from, the word `NIP` takes
/// `( a b -- b )`: the second cell is dropped.
#[verifier::spinoff_prover]
#[verifier::rlimit(60)]
pub proof fn lemma_default_nip(m: Machine, n: nat, fuel: nat)
    requires
        word_frame(m, default_compiler().stack, n),
        n >= 2,
        fuel >= 1,
    ensures
        ({
            let c = default_compiler();
            let s = data_stack(m, c.stack, n);
            let r = exec(module_functions(c.assembler), word_body(c.codes["NIP"@]), 0, m, fuel);
            &&& c.codes.contains_key("NIP"@)
            &&& r is Some
            &&& data_stack(r.unwrap(), c.stack, (n - 1) as nat) == s.take(n - 2).push(s[n - 1])
        }),
{
    let c = default_compiler();
    let s = data_stack(m, c.stack, n);
    lemma_default_code_nip();
    lemma_default_stack_functions();
    lemma_nip(module_functions(c.assembler), c.stack, c.push, c.pop, m, n, fuel);
}

/// Law (`ROT`): in the compiler every build starts from, the word `ROT` takes
/// `( a b c -- b c a )`: the third cell comes to the top.
#[verifier::spinoff_prover]
#[verifier::rlimit(60)]
pub proof fn lemma_default_rot(m: Machine, n: nat, fuel: nat)
    requires
        word_frame(m, default_compiler().stack, n),
        n >= 3,
        fuel >= 1,
    ensures
        ({
            let c = default_compiler();
            let s = data_stack(m, c.stack, n);
            let r = exec(module_functions(c.assembler), word_body(c.codes["ROT"@]), 0, m, fuel);
            &&& c.codes.contains_key("ROT"@)
            &&& r is Some
            &&& data_stack(r.unwrap(), c.stack, n) == s.take(n - 3).push(s[n - 2]).push(s[n - 1]).push(s[n - 3])
        }),
{
    let c = default_compiler();
    let s = data_stack(m, c.stack, n);
    lemma_default_code_rot();
    lemma_default_stack_functions();
    lemma_rot(module_functions(c.assembler), c.stack, c.push, c.pop, m, n, fuel);
}

/// Law (`-ROT`): in the compiler every build starts from, the word `-ROT` takes
/// `( a b c -- c a b )`: the top cell goes to the third place.
#[verifier::spinoff_prover]
#[verifier::rlimit(60)]
pub proof fn lemma_default_minus_rot(m: Machine, n: nat, fuel: nat)
    requires
        word_frame(m, default_compiler().stack, n),
        n >= 3,
        fuel >= 1,
    ensures
        ({
            let c = default_compiler();
            let s = data_stack(m, c.stack, n);
            let r = exec(module_functions(c.assembler), word_body(c.codes["-ROT"@]), 0, m, fuel);
            &&& c.codes.contains_key("-ROT"@)
            &&& r is Some
            &&& data_stack(r.unwrap(), c.stack, n) == s.take(n - 3).push(s[n - 1]).push(s[n - 3]).push(s[n - 2])
        }),
{
    let c = default_compiler();
    let s = data_stack(m, c.stack, n);
    lemma_default_code_minus_rot();
    lemma_default_stack_functions();
    lemma_minus_rot(module_functions(c.assembler), c.stack, c.push, c.pop, m, n, fuel);
}

/// Law (`NEGATE`): in the compiler every build starts from, the word `NEGATE` takes
/// `( x -- 0 - x )`, wrapping.
#[verifier::spinoff_prover]
#[verifier::rlimit(60)]
pub proof fn lemma_default_negate(m: Machine, n: nat, fuel: nat)
    requires
        word_frame(m, default_compiler().stack, n),
        n >= 1,
        fuel >= 1,
    ensures
        ({
            let c = default_compiler();
            let s = data_stack(m, c.stack, n);
            let r = exec(module_functions(c.assembler), word_body(c.codes["NEGATE"@]), 0, m, fuel);
            &&& c.codes.contains_key("NEGATE"@)
            &&& r is Some
            &&& data_stack(r.unwrap(), c.stack, n) == s.take(n - 1).push(sub32(0, s[n - 1]))
        }),
{
    let c = default_compiler();
    let s = data_stack(m, c.stack, n);
    lemma_default_code_negate();
    lemma_default_stack_functions();
    lemma_negate(module_functions(c.assembler), c.stack, c.push, c.pop, m, n, fuel);
}

/// Law (`ABS`): in the compiler every build starts from, the word `ABS` takes
/// `( x -- |x| )` for `x` other than `i32::MIN`.
#[verifier::spinoff_prover]
#[verifier::rlimit(60)]
pub proof fn lemma_default_abs(m: Machine, n: nat, fuel: nat)
    requires
        word_frame(m, default_compiler().stack, n),
        n >= 1,
        fuel >= 1,
        data_stack(m, default_compiler().stack, n)[n - 1] != i32::MIN,
    ensures
        ({
            let c = default_compiler();
            let s = data_stack(m, c.stack, n);
            let r = exec(module_functions(c.assembler), word_body(c.codes["ABS"@]), 0, m, fuel);
            &&& c.codes.contains_key("ABS"@)
            &&& r is Some
            &&& data_stack(r.unwrap(), c.stack, n) == s.take(n - 1).push(abs(s[n - 1] as int) as i32)
        }),
{
    let c = default_compiler();
    let s = data_stack(m, c.stack, n);
    lemma_default_code_abs();
    lemma_default_stack_functions();
    lemma_abs(module_functions(c.assembler), c.stack, c.push, c.pop, m, n, fuel);
}

/// Law (`/MOD`): in the compiler every build starts from, the word `/MOD` takes
/// `( a b -- r q )`, floored division: `q` is `a / b` rounded toward
/// negative infinity and `r` the remainder, with the sign of `b`, for a nonzero `b` and
/// other than `i32::MIN -1`.
#[verifier::spinoff_prover]
#[verifier::rlimit(60)]
pub proof fn lemma_default_div_mod(m: Machine, n: nat, fuel: nat)
    requires
        word_frame(m, default_compiler().stack, n),
        n >= 2,
        fuel >= 1,
        m.locals.len() >= 5,
        data_stack(m, default_compiler().stack, n)[n - 1] != 0,
        !(data_stack(m, default_compiler().stack, n)[n - 2] == i32::MIN && data_stack(m, default_compiler().stack, n)[n - 1] == -1),
    ensures
        ({
            let c = default_compiler();
            let s = data_stack(m, c.stack, n);
            let r = exec(module_functions(c.assembler), word_body(c.codes["/MOD"@]), 0, m, fuel);
            &&& c.codes.contains_key("/MOD"@)
            &&& r is Some
            &&& data_stack(r.unwrap(), c.stack, n) == s.take(n - 2).push(floor_mod(s[n - 2] as int, s[n - 1] as int) as i32).push(
                floor_div(s[n - 2] as int, s[n - 1] as int) as i32,
            )
        }),
{
    let c = default_compiler();
    let s = data_stack(m, c.stack, n);
    lemma_default_code_div_mod();
    lemma_default_stack_functions();
    lemma_divmod(module_functions(c.assembler), c.stack, c.push, c.pop, m, n, fuel);
}

/// Law (`+`): in the compiler every build starts from, the word `+` takes
/// `( a b -- a + b )`, wrapping.
#[verifier::spinoff_prover]
#[verifier::rlimit(60)]
pub proof fn lemma_default_add(m: Machine, n: nat, fuel: nat)
    requires
        word_frame(m, default_compiler().stack, n),
        n >= 2,
        fuel >= 1,
    ensures
        ({
            let c = default_compiler();
            let s = data_stack(m, c.stack, n);
            let r = exec(module_functions(c.assembler), word_body(c.codes["+"@]), 0, m, fuel);
            &&& c.codes.contains_key("+"@)
            &&& r is Some
            &&& data_stack(r.unwrap(), c.stack, (n - 1) as nat) == s.take(n - 2).push(add32(s[n - 2], s[n - 1]))
        }),
{
    let c = default_compiler();
    let s = data_stack(m, c.stack, n);
    lemma_default_code_add();
    lemma_default_stack_functions();
    lemma_binary(module_functions(c.assembler), c.stack, c.push, c.pop, Instr::I32Add, m, n, fuel);
}

/// Law (`-`): in the compiler every build starts from, the word `-` takes
/// `( a b -- a - b )`, wrapping.
#[verifier::spinoff_prover]
#[verifier::rlimit(60)]
pub proof fn lemma_default_sub(m: Machine, n: nat, fuel: nat)
    requires
        word_frame(m, default_compiler().stack, n),
        n >= 2,
        fuel >= 1,
    ensures
        ({
            let c = default_compiler();
            let s = data_stack(m, c.stack, n);
            let r = exec(module_functions(c.assembler), word_body(c.codes["-"@]), 0, m, fuel);
            &&& c.codes.contains_key("-"@)
            &&& r is Some
            &&& data_stack(r.unwrap(), c.stack, (n - 1) as nat) == s.take(n - 2).push(sub32(s[n - 2], s[n - 1]))
        }),
{
    let c = default_compiler();
    let s = data_stack(m, c.stack, n);
    lemma_default_code_sub();
    lemma_default_stack_functions();
    lemma_binary(module_functions(c.assembler), c.stack, c.push, c.pop, Instr::I32Sub, m, n, fuel);
}

/// Law (`*`): in the compiler every build starts from, the word `*` takes
/// `( a b -- a * b )`, wrapping.
#[verifier::spinoff_prover]
#[verifier::rlimit(60)]
pub proof fn lemma_default_mul(m: Machine, n: nat, fuel: nat)
    requires
        word_frame(m, default_compiler().stack, n),
        n >= 2,
        fuel >= 1,
    ensures
        ({
            let c = default_compiler();
            let s = data_stack(m, c.stack, n);
            let r = exec(module_functions(c.assembler), word_body(c.codes["*"@]), 0, m, fuel);
            &&& c.codes.contains_key("*"@)
            &&& r is Some
            &&& data_stack(r.unwrap(), c.stack, (n - 1) as nat) == s.take(n - 2).push(mul32(s[n - 2], s[n - 1]))
        }),
{
    let c = default_compiler();
    let s = data_stack(m, c.stack, n);
    lemma_default_code_mul();
    lemma_default_stack_functions();
    lemma_binary(module_functions(c.assembler), c.stack, c.push, c.pop, Instr::I32Mul, m, n, fuel);
}

/// Law (`AND`): in the compiler every build starts from, the word `AND` takes
/// `( a b -- a & b )`, bitwise.
#[verifier::spinoff_prover]
#[verifier::rlimit(60)]
pub proof fn lemma_default_and(m: Machine, n: nat, fuel: nat)
    requires
        word_frame(m, default_compiler().stack, n),
        n >= 2,
        fuel >= 1,
    ensures
        ({
            let c = default_compiler();
            let s = data_stack(m, c.stack, n);
            let r = exec(module_functions(c.assembler), word_body(c.codes["AND"@]), 0, m, fuel);
            &&& c.codes.contains_key("AND"@)
            &&& r is Some
            &&& data_stack(r.unwrap(), c.stack, (n - 1) as nat) == s.take(n - 2).push(s[n - 2] & s[n - 1])
        }),
{
    let c = default_compiler();
    let s = data_stack(m, c.stack, n);
    lemma_default_code_and();
    lemma_default_stack_functions();
    lemma_binary(module_functions(c.assembler), c.stack, c.push, c.pop, Instr::I32And, m, n, fuel);
}

/// Law (`OR`): in the compiler every build starts from, the word `OR` takes
/// `( a b -- a | b )`, bitwise.
#[verifier::spinoff_prover]
#[verifier::rlimit(60)]
pub proof fn lemma_default_or(m: Machine, n: nat, fuel: nat)
    requires
        word_frame(m, default_compiler().stack, n),
        n >= 2,
        fuel >= 1,
    ensures
        ({
            let c = default_compiler();
            let s = data_stack(m, c.stack, n);
            let r = exec(module_functions(c.assembler), word_body(c.codes["OR"@]), 0, m, fuel);
            &&& c.codes.contains_key("OR"@)
            &&& r is Some
            &&& data_stack(r.unwrap(), c.stack, (n - 1) as nat) == s.take(n - 2).push(s[n - 2] | s[n - 1])
        }),
{
    let c = default_compiler();
    let s = data_stack(m, c.stack, n);
    lemma_default_code_or();
    lemma_default_stack_functions();
    lemma_binary(module_functions(c.assembler), c.stack, c.push, c.pop, Instr::I32Or, m, n, fuel);
}

/// Law (`XOR`): in the compiler every build starts from, the word `XOR` takes
/// `( a b -- a ^ b )`, bitwise.
#[verifier::spinoff_prover]
#[verifier::rlimit(60)]
pub proof fn lemma_default_xor(m: Machine, n: nat, fuel: nat)
    requires
        word_frame(m, default_compiler().stack, n),
        n >= 2,
        fuel >= 1,
    ensures
        ({
            let c = default_compiler();
            let s = data_stack(m, c.stack, n);
            let r = exec(module_functions(c.assembler), word_body(c.codes["XOR"@]), 0, m, fuel);
            &&& c.codes.contains_key("XOR"@)
            &&& r is Some
            &&& data_stack(r.unwrap(), c.stack, (n - 1) as nat) == s.take(n - 2).push(s[n - 2] ^ s[n - 1])
        }),
{
    let c = default_compiler();
    let s = data_stack(m, c.stack, n);
    lemma_default_code_xor();
    lemma_default_stack_functions();
    lemma_binary(module_functions(c.assembler), c.stack, c.push, c.pop, Instr::I32Xor, m, n, fuel);
}

/// Law (`ARSHIFT`): in the compiler every build starts from, the word `ARSHIFT` takes
/// `( x u -- x >> u )` for a shift `u` below 32, arithmetic: the sign
/// bit is copied into the bits vacated at the top.
#[verifier::spinoff_prover]
#[verifier::rlimit(60)]
pub proof fn lemma_default_arshift(m: Machine, n: nat, fuel: nat)
    requires
        word_frame(m, default_compiler().stack, n),
        n >= 2,
        fuel >= 1,
        0 <= data_stack(m, default_compiler().stack, n)[n - 1] < 32,
    ensures
        ({
            let c = default_compiler();
            let s = data_stack(m, c.stack, n);
            let r = exec(module_functions(c.assembler), word_body(c.codes["ARSHIFT"@]), 0, m, fuel);
            &&& c.codes.contains_key("ARSHIFT"@)
            &&& r is Some
            &&& data_stack(r.unwrap(), c.stack, (n - 1) as nat) == s.take(n - 2).push(s[n - 2] >> (s[n - 1] as u32))
        }),
{
    let c = default_compiler();
    let s = data_stack(m, c.stack, n);
    lemma_default_code_arshift();
    lemma_default_stack_functions();
    lemma_binary(module_functions(c.assembler), c.stack, c.push, c.pop, Instr::I32ShrS, m, n, fuel);
    assert((s[n - 1] as u32) % 32 == s[n - 1] as u32);
}

/// Law (`=`): in the compiler every build starts from, the word `=` takes
/// `( a b -- flag )`: -1 (all bits set) where `a == b`, and 0
/// otherwise.
#[verifier::spinoff_prover]
#[verifier::rlimit(60)]
pub proof fn lemma_default_equal(m: Machine, n: nat, fuel: nat)
    requires
        word_frame(m, default_compiler().stack, n),
        n >= 2,
        fuel >= 1,
    ensures
        ({
            let c = default_compiler();
            let s = data_stack(m, c.stack, n);
            let r = exec(module_functions(c.assembler), word_body(c.codes["="@]), 0, m, fuel);
            &&& c.codes.contains_key("="@)
            &&& r is Some
            &&& data_stack(r.unwrap(), c.stack, (n - 1) as nat) == s.take(n - 2).push(
                if s[n - 2] == s[n - 1] { -1i32 } else { 0i32 },
            )
        }),
{
    let c = default_compiler();
    let s = data_stack(m, c.stack, n);
    lemma_default_code_equal();
    lemma_default_stack_functions();
    lemma_comparison(module_functions(c.assembler), c.stack, c.push, c.pop, Instr::I32Eq, m, n, fuel);
    assert(sub32(0, flag(s[n - 2] == s[n - 1])) == if s[n - 2] == s[n - 1] { -1i32 } else { 0i32 });
}

/// Law (`<>`): in the compiler every build starts from, the word `<>` takes
/// `( a b -- flag )`: -1 (all bits set) where `a != b`, and 0
/// otherwise.
#[verifier::spinoff_prover]
#[verifier::rlimit(60)]
pub proof fn lemma_default_not_equal(m: Machine, n: nat, fuel: nat)
    requires
        word_frame(m, default_compiler().stack, n),
        n >= 2,
        fuel >= 1,
    ensures
        ({
            let c = default_compiler();
            let s = data_stack(m, c.stack, n);
            let r = exec(module_functions(c.assembler), word_body(c.codes["<>"@]), 0, m, fuel);
            &&& c.codes.contains_key("<>"@)
            &&& r is Some
            &&& data_stack(r.unwrap(), c.stack, (n - 1) as nat) == s.take(n - 2).push(
                if s[n - 2] != s[n - 1] { -1i32 } else { 0i32 },
            )
        }),
{
    let c = default_compiler();
    let s = data_stack(m, c.stack, n);
    lemma_default_code_not_equal();
    lemma_default_stack_functions();
    lemma_comparison(module_functions(c.assembler), c.stack, c.push, c.pop, Instr::I32Ne, m, n, fuel);
    assert(sub32(0, flag(s[n - 2] != s[n - 1])) == if s[n - 2] != s[n - 1] { -1i32 } else { 0i32 });
}

/// Law (`<`): in the compiler every build starts from, the word `<` takes
/// `( a b -- flag )`: -1 (all bits set) where `a < b` as signed 32-bit integers, and 0
/// otherwise.
#[verifier::spinoff_prover]
#[verifier::rlimit(60)]
pub proof fn lemma_default_less(m: Machine, n: nat, fuel: nat)
    requires
        word_frame(m, default_compiler().stack, n),
        n >= 2,
        fuel >= 1,
    ensures
        ({
            let c = default_compiler();
            let s = data_stack(m, c.stack, n);
            let r = exec(module_functions(c.assembler), word_body(c.codes["<"@]), 0, m, fuel);
            &&& c.codes.contains_key("<"@)
            &&& r is Some
            &&& data_stack(r.unwrap(), c.stack, (n - 1) as nat) == s.take(n - 2).push(
                if s[n - 2] < s[n - 1] { -1i32 } else { 0i32 },
            )
        }),
{
    let c = default_compiler();
    let s = data_stack(m, c.stack, n);
    lemma_default_code_less();
    lemma_default_stack_functions();
    lemma_comparison(module_functions(c.assembler), c.stack, c.push, c.pop, Instr::I32LtS, m, n, fuel);
    assert(sub32(0, flag(s[n - 2] < s[n - 1])) == if s[n - 2] < s[n - 1] { -1i32 } else { 0i32 });
}

/// Law (`U<`): in the compiler every build starts from, the word `U<` takes
/// `( a b -- flag )`: -1 (all bits set) where `a < b` as unsigned 32-bit integers, and 0
/// otherwise.
#[verifier::spinoff_prover]
#[verifier::rlimit(60)]
pub proof fn lemma_default_u_less(m: Machine, n: nat, fuel: nat)
    requires
        word_frame(m, default_compiler().stack, n),
        n >= 2,
        fuel >= 1,
    ensures
        ({
            let c = default_compiler();
            let s = data_stack(m, c.stack, n);
            let r = exec(module_functions(c.assembler), word_body(c.codes["U<"@]), 0, m, fuel);
            &&& c.codes.contains_key("U<"@)
            &&& r is Some
            &&& data_stack(r.unwrap(), c.stack, (n - 1) as nat) == s.take(n - 2).push(
                if (s[n - 2] as u32) < (s[n - 1] as u32) { -1i32 } else { 0i32 },
            )
        }),
{
    let c = default_compiler();
    let s = data_stack(m, c.stack, n);
    lemma_default_code_u_less();
    lemma_default_stack_functions();
    lemma_comparison(module_functions(c.assembler), c.stack, c.push, c.pop, Instr::I32LtU, m, n, fuel);
    assert(sub32(0, flag((s[n - 2] as u32) < (s[n - 1] as u32))) == if (s[n - 2] as u32) < (s[n - 1] as u32) { -1i32 } else { 0i32 });
}

/// Law (`>`): in the compiler every build starts from, the word `>` takes
/// `( a b -- flag )`: -1 (all bits set) where `a > b` as signed 32-bit integers, and 0
/// otherwise.
#[verifier::spinoff_prover]
#[verifier::rlimit(60)]
pub proof fn lemma_default_greater(m: Machine, n: nat, fuel: nat)
    requires
        word_frame(m, default_compiler().stack, n),
        n >= 2,
        fuel >= 1,
    ensures
        ({
            let c = default_compiler();
            let s = data_stack(m, c.stack, n);
            let r = exec(module_functions(c.assembler), word_body(c.codes[">"@]), 0, m, fuel);
            &&& c.codes.contains_key(">"@)
            &&& r is Some
            &&& data_stack(r.unwrap(), c.stack, (n - 1) as nat) == s.take(n - 2).push(
                if s[n - 2] > s[n - 1] { -1i32 } else { 0i32 },
            )
        }),
{
    let c = default_compiler();
    let s = data_stack(m, c.stack, n);
    lemma_default_code_greater();
    lemma_default_stack_functions();
    lemma_comparison(module_functions(c.assembler), c.stack, c.push, c.pop, Instr::I32GtS, m, n, fuel);
    assert(sub32(0, flag(s[n - 2] > s[n - 1])) == if s[n - 2] > s[n - 1] { -1i32 } else { 0i32 });
}

/// Law (`U>`): in the compiler every build starts from, the word `U>` takes
/// `( a b -- flag )`: -1 (all bits set) where `a > b` as unsigned 32-bit integers, and 0
/// otherwise.
#[verifier::spinoff_prover]
#[verifier::rlimit(60)]
pub proof fn lemma_default_u_greater(m: Machine, n: nat, fuel: nat)
    requires
        word_frame(m, default_compiler().stack, n),
        n >= 2,
        fuel >= 1,
    ensures
        ({
            let c = default_compiler();
            let s = data_stack(m, c.stack, n);
            let r = exec(module_functions(c.assembler), word_body(c.codes["U>"@]), 0, m, fuel);
            &&& c.codes.contains_key("U>"@)
            &&& r is Some
            &&& data_stack(r.unwrap(), c.stack, (n - 1) as nat) == s.take(n - 2).push(
                if (s[n - 2] as u32) > (s[n - 1] as u32) { -1i32 } else { 0i32 },
            )
        }),
{
    let c = default_compiler();
    let s = data_stack(m, c.stack, n);
    lemma_default_code_u_greater();
    lemma_default_stack_functions();
    lemma_comparison(module_functions(c.assembler), c.stack, c.push, c.pop, Instr::I32GtU, m, n, fuel);
    assert(sub32(0, flag((s[n - 2] as u32) > (s[n - 1] as u32))) == if (s[n - 2] as u32) > (s[n - 1] as u32) { -1i32 } else { 0i32 });
}

/// Law (`<=`): in the compiler every build starts from, the word `<=` takes
/// `( a b -- flag )`: -1 (all bits set) where `a <= b` as signed 32-bit integers, and 0
/// otherwise.
#[verifier::spinoff_prover]
#[verifier::rlimit(60)]
pub proof fn lemma_default_less_equal(m: Machine, n: nat, fuel: nat)
    requires
        word_frame(m, default_compiler().stack, n),
        n >= 2,
        fuel >= 1,
    ensures
        ({
            let c = default_compiler();
            let s = data_stack(m, c.stack, n);
            let r = exec(module_functions(c.assembler), word_body(c.codes["<="@]), 0, m, fuel);
            &&& c.codes.contains_key("<="@)
            &&& r is Some
            &&& data_stack(r.unwrap(), c.stack, (n - 1) as nat) == s.take(n - 2).push(
                if s[n - 2] <= s[n - 1] { -1i32 } else { 0i32 },
            )
        }),
{
    let c = default_compiler();
    let s = data_stack(m, c.stack, n);
    lemma_default_code_less_equal();
    lemma_default_stack_functions();
    lemma_comparison(module_functions(c.assembler), c.stack, c.push, c.pop, Instr::I32LeS, m, n, fuel);
    assert(sub32(0, flag(s[n - 2] <= s[n - 1])) == if s[n - 2] <= s[n - 1] { -1i32 } else { 0i32 });
}

/// Law (`U<=`): in the compiler every build starts from, the word `U<=` takes
/// `( a b -- flag )`: -1 (all bits set) where `a <= b` as unsigned 32-bit integers, and 0
/// otherwise.
#[verifier::spinoff_prover]
#[verifier::rlimit(60)]
pub proof fn lemma_default_u_less_equal(m: Machine, n: nat, fuel: nat)
    requires
        word_frame(m, default_compiler().stack, n),
        n >= 2,
        fuel >= 1,
    ensures
        ({
            let c = default_compiler();
            let s = data_stack(m, c.stack, n);
            let r = exec(module_functions(c.assembler), word_body(c.codes["U<="@]), 0, m, fuel);
            &&& c.codes.contains_key("U<="@)
            &&& r is Some
            &&& data_stack(r.unwrap(), c.stack, (n - 1) as nat) == s.take(n - 2).push(
                if (s[n - 2] as u32) <= (s[n - 1] as u32) { -1i32 } else { 0i32 },
            )
        }),
{
    let c = default_compiler();
    let s = data_stack(m, c.stack, n);
    lemma_default_code_u_less_equal();
    lemma_default_stack_functions();
    lemma_comparison(module_functions(c.assembler), c.stack, c.push, c.pop, Instr::I32LeU, m, n, fuel);
    assert(sub32(0, flag((s[n - 2] as u32) <= (s[n - 1] as u32))) == if (s[n - 2] as u32) <= (s[n - 1] as u32) { -1i32 } else { 0i32 });
}

/// Law (`>=`): in the compiler every build starts from, the word `>=` takes
/// `( a b -- flag )`: -1 (all bits set) where `a >= b` as signed 32-bit integers, and 0
/// otherwise.
#[verifier::spinoff_prover]
#[verifier::rlimit(60)]
pub proof fn lemma_default_greater_equal(m: Machine, n: nat, fuel: nat)
    requires
        word_frame(m, default_compiler().stack, n),
        n >= 2,
        fuel >= 1,
    ensures
        ({
            let c = default_compiler();
            let s = data_stack(m, c.stack, n);
            let r = exec(module_functions(c.assembler), word_body(c.codes[">="@]), 0, m, fuel);
            &&& c.codes.contains_key(">="@)
            &&& r is Some
            &&& data_stack(r.unwrap(), c.stack, (n - 1) as nat) == s.take(n - 2).push(
                if s[n - 2] >= s[n - 1] { -1i32 } else { 0i32 },
            )
        }),
{
    let c = default_compiler();
    let s = data_stack(m, c.stack, n);
    lemma_default_code_greater_equal();
    lemma_default_stack_functions();
    lemma_comparison(module_functions(c.assembler), c.stack, c.push, c.pop, Instr::I32GeS, m, n, fuel);
    assert(sub32(0, flag(s[n - 2] >= s[n - 1])) == if s[n - 2] >= s[n - 1] { -1i32 } else { 0i32 });
}

/// Law (`U>=`): in the compiler every build starts from, the word `U>=` takes
/// `( a b -- flag )`: -1 (all bits set) where `a >= b` as unsigned 32-bit integers, and 0
/// otherwise.
#[verifier::spinoff_prover]
#[verifier::rlimit(60)]
pub proof fn lemma_default_u_greater_equal(m: Machine, n: nat, fuel: nat)
    requires
        word_frame(m, default_compiler().stack, n),
        n >= 2,
        fuel >= 1,
    ensures
        ({
            let c = default_compiler();
            let s = data_stack(m, c.stack, n);
            let r = exec(module_functions(c.assembler), word_body(c.codes["U>="@]), 0, m, fuel);
            &&& c.codes.contains_key("U>="@)
            &&& r is Some
            &&& data_stack(r.unwrap(), c.stack, (n - 1) as nat) == s.take(n - 2).push(
                if (s[n - 2] as u32) >= (s[n - 1] as u32) { -1i32 } else { 0i32 },
            )
        }),
{
    let c = default_compiler();
    let s = data_stack(m, c.stack, n);
    lemma_default_code_u_greater_equal();
    lemma_default_stack_functions();
    lemma_comparison(module_functions(c.assembler), c.stack, c.push, c.pop, Instr::I32GeU, m, n, fuel);
    assert(sub32(0, flag((s[n - 2] as u32) >= (s[n - 1] as u32))) == if (s[n - 2] as u32) >= (s[n - 1] as u32) { -1i32 } else { 0i32 });
}

/// Law (`LSHIFT`): in the compiler every build starts from, the word
/// `LSHIFT` takes `( x u -- x << u )` for a shift `u` below 32: the bits of
/// `x` move up `u` places and the bits shifted past the top are lost.
#[verifier::spinoff_prover]
#[verifier::rlimit(60)]
pub proof fn lemma_default_lshift(m: Machine, n: nat, fuel: nat)
    requires
        word_frame(m, crate::bootstrapper::compiler::default_compiler().stack, n),
        n >= 2,
        fuel >= 1,
        0 <= data_stack(m, crate::bootstrapper::compiler::default_compiler().stack, n)[n - 1] < 32,
    ensures
        ({
            let c = crate::bootstrapper::compiler::default_compiler();
            let s = data_stack(m, c.stack, n);
            let r = exec(module_functions(c.assembler), word_body(c.codes["LSHIFT"@]), 0, m, fuel);
            &&& c.codes.contains_key("LSHIFT"@)
            &&& r is Some
            &&& data_stack(r.unwrap(), c.stack, (n - 1) as nat) == s.take(n - 2).push(s[n - 2] << (s[n - 1] as u32))
        }),
{
    let c = crate::bootstrapper::compiler::default_compiler();
    lemma_default_code_lshift();
    lemma_default_stack_functions();
    let funcs = module_functions(c.assembler);
    let stack = c.stack;
    let push = c.push;
    let pop = c.pop;
    let s = data_stack(m, stack, n);
    let x = s[n - 2];
    let u = s[n - 1];
    let res = x << (u as u32);
    assert((u as u32) % 32 == u as u32);
    let code = word_body(binary_i32_code(pop, push, Instr::I32Shl));
    lemma_call_pop(funcs, stack, push, pop, code, 0, m, fuel);
    let m1 = popped(m, stack);
    lemma_popped_stack(m, stack, n);
    lemma_exec_step(funcs, code, 1, m1, fuel);
    let m2 = step(code[1], m1).unwrap();
    lemma_call_pop(funcs, stack, push, pop, code, 2, m2, fuel);
    let m3 = popped(m2, stack);
    lemma_popped_stack(m2, stack, (n - 1) as nat);
    assert(data_stack(m2, stack, (n - 1) as nat) == data_stack(m1, stack, (n - 1) as nat));
    lemma_exec_step(funcs, code, 3, m3, fuel);
    let m4 = step(code[3], m3).unwrap();
    assert(m4.operands =~= seq![Value::I32(x), Value::I32(u)]);
    lemma_exec_step(funcs, code, 4, m4, fuel);
    let m5 = step(code[4], m4).unwrap();
    assert(m5.operands =~= seq![Value::I32(res)]);
    lemma_call_push(funcs, stack, push, pop, code, 5, m5, res, fuel);
    let m6 = pushed(m5, stack, res);
    lemma_pushed_stack(m5, stack, res, (n - 2) as nat);
    assert(data_stack(m5, stack, (n - 2) as nat) == data_stack(m3, stack, (n - 2) as nat));
    lemma_exec_step(funcs, code, 6, m6, fuel);
    lemma_exec_done(funcs, code, m6, fuel);
    assert(data_stack(m3, stack, (n - 2) as nat) =~= s.take(n - 2));
}

/// Law (`U/MOD`): in the compiler every build starts from, the word `U/MOD`
/// takes `( u1 u2 -- rem quot )` with both cells read as unsigned 32-bit
/// integers and `u2` nonzero: the remainder of `u1` divided by `u2` is left
/// below and the quotient on top.
#[verifier::spinoff_prover]
#[verifier::rlimit(100)]
pub proof fn lemma_default_u_div_mod(m: Machine, n: nat, fuel: nat)
    requires
        word_frame(m, crate::bootstrapper::compiler::default_compiler().stack, n),
        n >= 2,
        fuel >= 1,
        data_stack(m, crate::bootstrapper::compiler::default_compiler().stack, n)[n - 1] != 0,
    ensures
        ({
            let c = crate::bootstrapper::compiler::default_compiler();
            let s = data_stack(m, c.stack, n);
            let r = exec(module_functions(c.assembler), word_body(c.codes["U/MOD"@]), 0, m, fuel);
            &&& c.codes.contains_key("U/MOD"@)
            &&& r is Some
            &&& data_stack(r.unwrap(), c.stack, n) == s.take(n - 2).push(
                ((s[n - 2] as u32) % (s[n - 1] as u32)) as i32,
            ).push(((s[n - 2] as u32) / (s[n - 1] as u32)) as i32)
        }),
{
    let c = crate::bootstrapper::compiler::default_compiler();
    lemma_default_code_u_div_mod();
    lemma_default_stack_functions();
    let funcs = module_functions(c.assembler);
    let stack = c.stack;
    let push = c.push;
    let pop = c.pop;
    let s = data_stack(m, stack, n);
    let a = s[n - 2];
    let b = s[n - 1];
    let rem = ((a as u32) % (b as u32)) as i32;
    let quot = ((a as u32) / (b as u32)) as i32;
    let code = word_body(u_div_mod_code(pop, push));
    lemma_popped_stack(m, stack, n);
    lemma_call_pop(funcs, stack, push, pop, code, 0, m, fuel);
    let m1 = popped(m, stack);
    lemma_exec_step(funcs, code, 1, m1, fuel);
    let m2 = step(code[1], m1).unwrap();
    assert(data_stack(m2, stack, (n - 1) as nat) == data_stack(m1, stack, (n - 1) as nat));
    lemma_popped_stack(m2, stack, (n - 1) as nat);
    lemma_call_pop(funcs, stack, push, pop, code, 2, m2, fuel);
    let m3 = popped(m2, stack);
    lemma_exec_step(funcs, code, 3, m3, fuel);
    let m4 = step(code[3], m3).unwrap();
    lemma_exec_step(funcs, code, 4, m4, fuel);
    let m5 = step(code[4], m4).unwrap();
    assert(m5.operands =~= seq![Value::I32(a), Value::I32(b)]);
    lemma_exec_step(funcs, code, 5, m5, fuel);
    let m6 = step(code[5], m5).unwrap();
    assert(m6.operands =~= seq![Value::I32(rem)]);
    lemma_call_push(funcs, stack, push, pop, code, 6, m6, rem, fuel);
    let m7 = pushed(m6, stack, rem);
    lemma_pushed_stack(m6, stack, rem, (n - 2) as nat);
    lemma_exec_step(funcs, code, 7, m7, fuel);
    let m8 = step(code[7], m7).unwrap();
    lemma_exec_step(funcs, code, 8, m8, fuel);
    let m9 = step(code[8], m8).unwrap();
    assert(m9.operands =~= seq![Value::I32(a), Value::I32(b)]);
    lemma_exec_step(funcs, code, 9, m9, fuel);
    let m10 = step(code[9], m9).unwrap();
    assert(m10.operands =~= seq![Value::I32(quot)]);
    assert(data_stack(m10, stack, (n - 1) as nat) == data_stack(m7, stack, (n - 1) as nat));
    lemma_call_push(funcs, stack, push, pop, code, 10, m10, quot, fuel);
    let m11 = pushed(m10, stack, quot);
    lemma_pushed_stack(m10, stack, quot, (n - 1) as nat);
    lemma_exec_step(funcs, code, 11, m11, fuel);
    let m12 = step(code[11], m11).unwrap();
    lemma_exec_done(funcs, code, m12, fuel);
    assert(data_stack(m6, stack, (n - 2) as nat) == data_stack(m3, stack, (n - 2) as nat));
    assert(data_stack(m3, stack, (n - 2) as nat) =~= s.take(n - 2));
}

/// Law (`2OVER`): in the compiler every build starts from, the word `2OVER`
/// takes `( a b c d -- a b c d a b )`: the third and fourth cells from the
/// top are copied on top, in their order, for a stack with room for two
/// more cells below it.
#[verifier::spinoff_prover]
#[verifier::rlimit(100)]
pub proof fn lemma_default_two_over(m: Machine, n: nat, fuel: nat)
    requires
        word_frame(m, crate::bootstrapper::compiler::default_compiler().stack, n),
        n >= 4,
        8 <= stack_pointer(m, crate::bootstrapper::compiler::default_compiler().stack),
    ensures
        ({
            let c = crate::bootstrapper::compiler::default_compiler();
            let s = data_stack(m, c.stack, n);
            let r = exec(module_functions(c.assembler), word_body(c.codes["2OVER"@]), 0, m, fuel);
            &&& c.codes.contains_key("2OVER"@)
            &&& r is Some
            &&& data_stack(r.unwrap(), c.stack, n + 2) == s.push(s[n - 4]).push(s[n - 3])
        }),
{
    let c = crate::bootstrapper::compiler::default_compiler();
    lemma_default_code_two_over();
    let funcs = module_functions(c.assembler);
    let stack = c.stack;
    let s = data_stack(m, stack, n);
    let sp = stack_pointer(m, stack);
    let a = s[n - 4];
    let b = s[n - 3];
    assert(load32(m.memory, sp + 8) == b);
    assert(load32(m.memory, sp + 12) == a);
    lemma_halves(b, a, join(b, a));
    let code = word_body(two_over_code(stack));
    lemma_exec_step(funcs, code, 0, m, fuel);
    let m1 = step(code[0], m).unwrap();
    lemma_exec_step(funcs, code, 1, m1, fuel);
    let m2 = step(code[1], m1).unwrap();
    lemma_exec_step(funcs, code, 2, m2, fuel);
    let m3 = step(code[2], m2).unwrap();
    lemma_exec_step(funcs, code, 3, m3, fuel);
    let m4 = step(code[3], m3).unwrap();
    lemma_exec_step(funcs, code, 4, m4, fuel);
    let m5 = step(code[4], m4).unwrap();
    lemma_exec_step(funcs, code, 5, m5, fuel);
    let m6 = step(code[5], m5).unwrap();
    lemma_exec_step(funcs, code, 6, m6, fuel);
    let m7 = step(code[6], m6).unwrap();
    lemma_exec_step(funcs, code, 7, m7, fuel);
    let m8 = step(code[7], m7).unwrap();
    assert(m8.operands =~= seq![Value::I32((sp - 8) as i32), Value::I64(join(b, a))]);
    lemma_exec_step(funcs, code, 8, m8, fuel);
    let m9 = step(code[8], m8).unwrap();
    lemma_exec_step(funcs, code, 9, m9, fuel);
    let m10 = step(code[9], m9).unwrap();
    lemma_exec_done(funcs, code, m10, fuel);
    let mem1 = store32(m.memory, sp - 8, b);
    assert(m10.memory == store32(mem1, sp - 4, a));
    assert(stack_pointer(m10, stack) == sp - 8);
    assert forall|i: int| 0 <= i < n + 2 implies #[trigger] data_stack(m10, stack, n + 2)[i] == s.push(a).push(b)[i] by {
        let addr = sp - 8 + 4 * (n + 1 - i);
        lemma_store_load(mem1, sp - 4, a, addr);
        lemma_store_load(m.memory, sp - 8, b, addr);
    }
    assert(data_stack(m10, stack, n + 2) =~= s.push(a).push(b));
}

/// Law (`RSHIFT`): in the compiler every build starts from, the word
/// `RSHIFT` takes `( x u -- x >> u )` for a shift `u` below 32, logical: the
/// bits of `x` move down `u` places and zeros fill the bits vacated at the top.
#[verifier::spinoff_prover]
#[verifier::rlimit(60)]
pub proof fn lemma_default_rshift(m: Machine, n: nat, fuel: nat)
    requires
        word_frame(m, crate::bootstrapper::compiler::default_compiler().stack, n),
        n >= 2,
        fuel >= 1,
        0 <= data_stack(m, crate::bootstrapper::compiler::default_compiler().stack, n)[n - 1] < 32,
    ensures
        ({
            let c = crate::bootstrapper::compiler::default_compiler();
            let s = data_stack(m, c.stack, n);
            let r = exec(module_functions(c.assembler), word_body(c.codes["RSHIFT"@]), 0, m, fuel);
            &&& c.codes.contains_key("RSHIFT"@)
            &&& r is Some
            &&& data_stack(r.unwrap(), c.stack, (n - 1) as nat) == s.take(n - 2).push(
                ((s[n - 2] as u32) >> (s[n - 1] as u32)) as i32,
            )
        }),
{
    let c = crate::bootstrapper::compiler::default_compiler();
    lemma_default_code_rshift();
    lemma_default_stack_functions();
    let funcs = module_functions(c.assembler);
    let stack = c.stack;
    let push = c.push;
    let pop = c.pop;
    let s = data_stack(m, stack, n);
    let x = s[n - 2];
    let u = s[n - 1];
    let res = ((x as u32) >> (u as u32)) as i32;
    assert((u as u32) % 32 == u as u32);
    let code = word_body(binary_i32_code(pop, push, Instr::I32ShrU));
    lemma_call_pop(funcs, stack, push, pop, code, 0, m, fuel);
    let m1 = popped(m, stack);
    lemma_popped_stack(m, stack, n);
    lemma_exec_step(funcs, code, 1, m1, fuel);
    let m2 = step(code[1], m1).unwrap();
    lemma_call_pop(funcs, stack, push, pop, code, 2, m2, fuel);
    let m3 = popped(m2, stack);
    lemma_popped_stack(m2, stack, (n - 1) as nat);
    assert(data_stack(m2, stack, (n - 1) as nat) == data_stack(m1, stack, (n - 1) as nat));
    lemma_exec_step(funcs, code, 3, m3, fuel);
    let m4 = step(code[3], m3).unwrap();
    assert(m4.operands =~= seq![Value::I32(x), Value::I32(u)]);
    lemma_exec_step(funcs, code, 4, m4, fuel);
    let m5 = step(code[4], m4).unwrap();
    assert(m5.operands =~= seq![Value::I32(res)]);
    lemma_call_push(funcs, stack, push, pop, code, 5, m5, res, fuel);
    let m6 = pushed(m5, stack, res);
    lemma_pushed_stack(m5, stack, res, (n - 2) as nat);
    assert(data_stack(m5, stack, (n - 2) as nat) == data_stack(m3, stack, (n - 2) as nat));
    lemma_exec_step(funcs, code, 6, m6, fuel);
    lemma_exec_done(funcs, code, m6, fuel);
    assert(data_stack(m3, stack, (n - 2) as nat) =~= s.take(n - 2));
}

/// The code of `2DUP` in a compiler whose data stack pointer is global
/// `stack`: move the stack pointer down two cells and copy the 64 bits of
/// the old top two cells there.
spec fn two_dup_code(stack: u32) -> Seq<Instr> {
    [
        Instr::GetGlobal(stack), Instr::I32Const(8), Instr::I32Sub, Instr::TeeLocal(0),
        Instr::SetGlobal(stack), Instr::GetLocal(0), Instr::GetLocal(0), Instr::I64Load(3, 8),
        Instr::I64Store(3, 0),
    ]@
}

/// The code of `2DROP`: move the stack pointer up two cells.
spec fn two_drop_code(stack: u32) -> Seq<Instr> {
    [Instr::GetGlobal(stack), Instr::I32Const(8), Instr::I32Add, Instr::SetGlobal(stack)]@
}

/// The code of `2SWAP`: exchange the top two pairs of cells in place, 64
/// bits at a time.
spec fn two_swap_code(stack: u32) -> Seq<Instr> {
    [
        Instr::GetGlobal(stack), Instr::TeeLocal(0), Instr::GetLocal(0), Instr::I64Load(3, 0),
        Instr::GetLocal(0), Instr::GetLocal(0), Instr::I64Load(3, 8), Instr::I64Store(3, 0),
        Instr::I64Store(3, 8),
    ]@
}

/// The code of `TUCK`: move the stack pointer down a cell, swap the old top
/// two cells in place and copy the old top into the new cell.
spec fn tuck_code(stack: u32) -> Seq<Instr> {
    [
        Instr::GetGlobal(stack), Instr::I32Const(4), Instr::I32Sub, Instr::TeeLocal(0),
        Instr::I32Load(2, 4), Instr::SetLocal(1), Instr::GetLocal(0), Instr::GetLocal(0),
        Instr::I32Load(2, 8), Instr::I32Store(2, 4), Instr::GetLocal(0), Instr::GetLocal(1),
        Instr::I32Store(2, 8), Instr::GetLocal(0), Instr::GetLocal(1), Instr::I32Store(2, 0),
        Instr::GetLocal(0), Instr::SetGlobal(stack),
    ]@
}

/// Law (`2DUP`): in the compiler every build starts from, the word `2DUP`
/// takes `( a b -- a b a b )`: the top two cells are copied on top, in their
/// order, for a stack with room for two more cells below it.
#[verifier::spinoff_prover]
#[verifier::rlimit(100)]
pub proof fn lemma_default_two_dup(m: Machine, n: nat, fuel: nat)
    requires
        word_frame(m, default_compiler().stack, n),
        n >= 2,
        8 <= stack_pointer(m, default_compiler().stack),
    ensures
        ({
            let c = default_compiler();
            let s = data_stack(m, c.stack, n);
            let r = exec(module_functions(c.assembler), word_body(c.codes["2DUP"@]), 0, m, fuel);
            &&& c.codes.contains_key("2DUP"@)
            &&& r is Some
            &&& data_stack(r.unwrap(), c.stack, n + 2) == s.push(s[n - 2]).push(s[n - 1])
        }),
{
    let c = default_compiler();
    lemma_default_code_two_dup();
    let funcs = module_functions(c.assembler);
    let stack = c.stack;
    let s = data_stack(m, stack, n);
    let sp = stack_pointer(m, stack);
    let a = s[n - 2];
    let b = s[n - 1];
    assert(load32(m.memory, sp) == b);
    assert(load32(m.memory, sp + 4) == a);
    lemma_halves(b, a, join(b, a));
    let code = word_body(two_dup_code(stack));
    lemma_exec_step(funcs, code, 0, m, fuel);
    let m1 = step(code[0], m).unwrap();
    lemma_exec_step(funcs, code, 1, m1, fuel);
    let m2 = step(code[1], m1).unwrap();
    lemma_exec_step(funcs, code, 2, m2, fuel);
    let m3 = step(code[2], m2).unwrap();
    lemma_exec_step(funcs, code, 3, m3, fuel);
    let m4 = step(code[3], m3).unwrap();
    lemma_exec_step(funcs, code, 4, m4, fuel);
    let m5 = step(code[4], m4).unwrap();
    lemma_exec_step(funcs, code, 5, m5, fuel);
    let m6 = step(code[5], m5).unwrap();
    lemma_exec_step(funcs, code, 6, m6, fuel);
    let m7 = step(code[6], m6).unwrap();
    lemma_exec_step(funcs, code, 7, m7, fuel);
    let m8 = step(code[7], m7).unwrap();
    assert(m8.operands =~= seq![Value::I32((sp - 8) as i32), Value::I64(join(b, a))]);
    lemma_exec_step(funcs, code, 8, m8, fuel);
    let m9 = step(code[8], m8).unwrap();
    lemma_exec_step(funcs, code, 9, m9, fuel);
    let m10 = step(code[9], m9).unwrap();
    lemma_exec_done(funcs, code, m10, fuel);
    let mem1 = store32(m.memory, sp - 8, b);
    assert(m10.memory == store32(mem1, sp - 4, a));
    assert(stack_pointer(m10, stack) == sp - 8);
    assert forall|i: int| 0 <= i < n + 2 implies #[trigger] data_stack(m10, stack, n + 2)[i] == s.push(a).push(b)[i] by {
        let addr = sp - 8 + 4 * (n + 1 - i);
        lemma_store_load(mem1, sp - 4, a, addr);
        lemma_store_load(m.memory, sp - 8, b, addr);
    }
    assert(data_stack(m10, stack, n + 2) =~= s.push(a).push(b));
}

/// Law (`2DROP`): in the compiler every build starts from, the word `2DROP`
/// takes `( a b -- )`: the top two cells are dropped.
#[verifier::spinoff_prover]
#[verifier::rlimit(60)]
pub proof fn lemma_default_two_drop(m: Machine, n: nat, fuel: nat)
    requires
        word_frame(m, default_compiler().stack, n),
        n >= 2,
    ensures
        ({
            let c = default_compiler();
            let s = data_stack(m, c.stack, n);
            let r = exec(module_functions(c.assembler), word_body(c.codes["2DROP"@]), 0, m, fuel);
            &&& c.codes.contains_key("2DROP"@)
            &&& r is Some
            &&& data_stack(r.unwrap(), c.stack, (n - 2) as nat) == s.take(n - 2)
        }),
{
    let c = default_compiler();
    lemma_default_code_two_drop();
    let funcs = module_functions(c.assembler);
    let stack = c.stack;
    let s = data_stack(m, stack, n);
    let sp = stack_pointer(m, stack);
    let code = word_body(two_drop_code(stack));
    lemma_exec_step(funcs, code, 0, m, fuel);
    let m1 = step(code[0], m).unwrap();
    lemma_exec_step(funcs, code, 1, m1, fuel);
    let m2 = step(code[1], m1).unwrap();
    lemma_exec_step(funcs, code, 2, m2, fuel);
    let m3 = step(code[2], m2).unwrap();
    lemma_exec_step(funcs, code, 3, m3, fuel);
    let m4 = step(code[3], m3).unwrap();
    lemma_exec_step(funcs, code, 4, m4, fuel);
    let m5 = step(code[4], m4).unwrap();
    lemma_exec_done(funcs, code, m5, fuel);
    assert(stack_pointer(m5, stack) == sp + 8);
    assert(data_stack(m5, stack, (n - 2) as nat) =~= s.take(n - 2));
}

/// Law (`2SWAP`): in the compiler every build starts from, the word `2SWAP`
/// takes `( a b c d -- c d a b )`: the top two pairs of cells change places.
#[verifier::spinoff_prover]
#[verifier::rlimit(100)]
pub proof fn lemma_default_two_swap(m: Machine, n: nat, fuel: nat)
    requires
        word_frame(m, default_compiler().stack, n),
        n >= 4,
    ensures
        ({
            let c = default_compiler();
            let s = data_stack(m, c.stack, n);
            let r = exec(module_functions(c.assembler), word_body(c.codes["2SWAP"@]), 0, m, fuel);
            &&& c.codes.contains_key("2SWAP"@)
            &&& r is Some
            &&& data_stack(r.unwrap(), c.stack, n) == s.take(n - 4).push(s[n - 2]).push(s[n - 1]).push(
                s[n - 4],
            ).push(s[n - 3])
        }),
{
    let c = default_compiler();
    lemma_default_code_two_swap();
    let funcs = module_functions(c.assembler);
    let stack = c.stack;
    let s = data_stack(m, stack, n);
    let sp = stack_pointer(m, stack);
    let a = s[n - 4];
    let b = s[n - 3];
    let x = s[n - 2];
    let y = s[n - 1];
    assert(load32(m.memory, sp) == y);
    assert(load32(m.memory, sp + 4) == x);
    assert(load32(m.memory, sp + 8) == b);
    assert(load32(m.memory, sp + 12) == a);
    lemma_halves(y, x, join(y, x));
    lemma_halves(b, a, join(b, a));
    let code = word_body(two_swap_code(stack));
    lemma_exec_step(funcs, code, 0, m, fuel);
    let m1 = step(code[0], m).unwrap();
    lemma_exec_step(funcs, code, 1, m1, fuel);
    let m2 = step(code[1], m1).unwrap();
    lemma_exec_step(funcs, code, 2, m2, fuel);
    let m3 = step(code[2], m2).unwrap();
    lemma_exec_step(funcs, code, 3, m3, fuel);
    let m4 = step(code[3], m3).unwrap();
    lemma_exec_step(funcs, code, 4, m4, fuel);
    let m5 = step(code[4], m4).unwrap();
    lemma_exec_step(funcs, code, 5, m5, fuel);
    let m6 = step(code[5], m5).unwrap();
    lemma_exec_step(funcs, code, 6, m6, fuel);
    let m7 = step(code[6], m6).unwrap();
    assert(m7.operands =~= seq![
        Value::I32(sp as i32), Value::I64(join(y, x)), Value::I32(sp as i32), Value::I64(join(b, a)),
    ]);
    lemma_exec_step(funcs, code, 7, m7, fuel);
    let m8 = step(code[7], m7).unwrap();
    assert(m8.operands =~= seq![Value::I32(sp as i32), Value::I64(join(y, x))]);
    lemma_exec_step(funcs, code, 8, m8, fuel);
    let m9 = step(code[8], m8).unwrap();
    lemma_exec_step(funcs, code, 9, m9, fuel);
    let m10 = step(code[9], m9).unwrap();
    lemma_exec_done(funcs, code, m10, fuel);
    let mem1 = store32(m.memory, sp, b);
    let mem2 = store32(mem1, sp + 4, a);
    let mem3 = store32(mem2, sp + 8, y);
    assert(m10.memory == store32(mem3, sp + 12, x));
    assert(stack_pointer(m10, stack) == sp);
    let t = s.take(n - 4).push(x).push(y).push(a).push(b);
    assert forall|i: int| 0 <= i < n implies #[trigger] data_stack(m10, stack, n)[i] == t[i] by {
        let addr = sp + 4 * (n - 1 - i);
        lemma_store_load(mem3, sp + 12, x, addr);
        lemma_store_load(mem2, sp + 8, y, addr);
        lemma_store_load(mem1, sp + 4, a, addr);
        lemma_store_load(m.memory, sp, b, addr);
    }
    assert(data_stack(m10, stack, n) =~= t);
}

/// Law (`TUCK`): in the compiler every build starts from, the word `TUCK`
/// takes `( a b -- b a b )`: a copy of the top cell goes under the second.
#[verifier::spinoff_prover]
#[verifier::rlimit(100)]
pub proof fn lemma_default_tuck(m: Machine, n: nat, fuel: nat)
    requires
        word_frame(m, default_compiler().stack, n),
        n >= 2,
    ensures
        ({
            let c = default_compiler();
            let s = data_stack(m, c.stack, n);
            let r = exec(module_functions(c.assembler), word_body(c.codes["TUCK"@]), 0, m, fuel);
            &&& c.codes.contains_key("TUCK"@)
            &&& r is Some
            &&& data_stack(r.unwrap(), c.stack, n + 1) == s.take(n - 2).push(s[n - 1]).push(s[n - 2]).push(
                s[n - 1],
            )
        }),
{
    let c = default_compiler();
    lemma_default_code_tuck();
    let funcs = module_functions(c.assembler);
    let stack = c.stack;
    let s = data_stack(m, stack, n);
    let sp = stack_pointer(m, stack);
    let a = s[n - 2];
    let b = s[n - 1];
    assert(load32(m.memory, sp) == b);
    assert(load32(m.memory, sp + 4) == a);
    let code = word_body(tuck_code(stack));
    lemma_exec_step(funcs, code, 0, m, fuel);
    let m1 = step(code[0], m).unwrap();
    lemma_exec_step(funcs, code, 1, m1, fuel);
    let m2 = step(code[1], m1).unwrap();
    lemma_exec_step(funcs, code, 2, m2, fuel);
    let m3 = step(code[2], m2).unwrap();
    lemma_exec_step(funcs, code, 3, m3, fuel);
    let m4 = step(code[3], m3).unwrap();
    lemma_exec_step(funcs, code, 4, m4, fuel);
    let m5 = step(code[4], m4).unwrap();
    lemma_exec_step(funcs, code, 5, m5, fuel);
    let m6 = step(code[5], m5).unwrap();
    assert(m6.locals[1] == Value::I32(b));
    lemma_exec_step(funcs, code, 6, m6, fuel);
    let m7 = step(code[6], m6).unwrap();
    lemma_exec_step(funcs, code, 7, m7, fuel);
    let m8 = step(code[7], m7).unwrap();
    lemma_exec_step(funcs, code, 8, m8, fuel);
    let m9 = step(code[8], m8).unwrap();
    assert(m9.operands =~= seq![Value::I32((sp - 4) as i32), Value::I32(a)]);
    lemma_exec_step(funcs, code, 9, m9, fuel);
    let m10 = step(code[9], m9).unwrap();
    let mem1 = store32(m.memory, sp, a);
    assert(m10.memory == mem1);
    lemma_exec_step(funcs, code, 10, m10, fuel);
    let m11 = step(code[10], m10).unwrap();
    lemma_exec_step(funcs, code, 11, m11, fuel);
    let m12 = step(code[11], m11).unwrap();
    lemma_exec_step(funcs, code, 12, m12, fuel);
    let m13 = step(code[12], m12).unwrap();
    let mem2 = store32(mem1, sp + 4, b);
    assert(m13.memory == mem2);
    lemma_exec_step(funcs, code, 13, m13, fuel);
    let m14 = step(code[13], m13).unwrap();
    lemma_exec_step(funcs, code, 14, m14, fuel);
    let m15 = step(code[14], m14).unwrap();
    lemma_exec_step(funcs, code, 15, m15, fuel);
    let m16 = step(code[15], m15).unwrap();
    assert(m16.memory == store32(mem2, sp - 4, b));
    lemma_exec_step(funcs, code, 16, m16, fuel);
    let m17 = step(code[16], m16).unwrap();
    lemma_exec_step(funcs, code, 17, m17, fuel);
    let m18 = step(code[17], m17).unwrap();
    lemma_exec_step(funcs, code, 18, m18, fuel);
    let m19 = step(code[18], m18).unwrap();
    lemma_exec_done(funcs, code, m19, fuel);
    assert(stack_pointer(m19, stack) == sp - 4);
    let t = s.take(n - 2).push(b).push(a).push(b);
    assert forall|i: int| 0 <= i < n + 1 implies #[trigger] data_stack(m19, stack, n + 1)[i] == t[i] by {
        let addr = sp - 4 + 4 * (n - i);
        lemma_store_load(mem2, sp - 4, b, addr);
        lemma_store_load(mem1, sp + 4, b, addr);
        lemma_store_load(m.memory, sp, a, addr);
    }
    assert(data_stack(m19, stack, n + 1) =~= t);
}

/// The code of `PICK`: replace the top cell `u` by the cell `u + 1` cells
/// above it.
spec fn pick_code(stack: u32) -> Seq<Instr> {
    [
        Instr::GetGlobal(stack), Instr::TeeLocal(0), Instr::GetLocal(0), Instr::I32Load(2, 0),
        Instr::I32Const(1), Instr::I32Add, Instr::I32Const(2), Instr::I32Shl, Instr::GetLocal(0),
        Instr::I32Add, Instr::I32Load(2, 0), Instr::I32Store(2, 0),
    ]@
}

/// The code of `DEPTH` in a compiler with the given push function: push the
/// number of cells between the stack pointer and the base of the stack.
spec fn depth_code(stack: u32, push: u32) -> Seq<Instr> {
    [
        Instr::I32Const(PARAM_STACK_BASE), Instr::GetGlobal(stack), Instr::I32Sub, Instr::I32Const(2),
        Instr::I32ShrU, Instr::Call(push),
    ]@
}

/// Law (`PICK`): in the compiler every build starts from, the word `PICK`
/// takes `( x_u ... x_0 u -- x_u ... x_0 x_u )`: the top cell `u`, below the
/// number of other cells on the stack, is replaced by a copy of the cell `u`
/// places below it.
#[verifier::spinoff_prover]
#[verifier::rlimit(100)]
pub proof fn lemma_default_pick(m: Machine, n: nat, fuel: nat)
    requires
        word_frame(m, default_compiler().stack, n),
        n >= 2,
        0 <= data_stack(m, default_compiler().stack, n)[n - 1] < n - 1,
    ensures
        ({
            let c = default_compiler();
            let s = data_stack(m, c.stack, n);
            let r = exec(module_functions(c.assembler), word_body(c.codes["PICK"@]), 0, m, fuel);
            &&& c.codes.contains_key("PICK"@)
            &&& r is Some
            &&& data_stack(r.unwrap(), c.stack, n) == s.update(n - 1, s[n - 2 - s[n - 1]])
        }),
{
    let c = default_compiler();
    lemma_default_code_pick();
    let funcs = module_functions(c.assembler);
    let stack = c.stack;
    let s = data_stack(m, stack, n);
    let sp = stack_pointer(m, stack);
    let u = s[n - 1];
    let v = (u + 1) as i32;
    assert(load32(m.memory, sp) == u);
    assert(v << 2u32 == v * 4) by (bit_vector)
        requires
            0 <= v < 0x2000_0000i32,
    ;
    let x = s[n - 2 - u];
    assert(load32(m.memory, sp + 4 * v) == x);
    let code = word_body(pick_code(stack));
    lemma_exec_step(funcs, code, 0, m, fuel);
    let m1 = step(code[0], m).unwrap();
    lemma_exec_step(funcs, code, 1, m1, fuel);
    let m2 = step(code[1], m1).unwrap();
    lemma_exec_step(funcs, code, 2, m2, fuel);
    let m3 = step(code[2], m2).unwrap();
    lemma_exec_step(funcs, code, 3, m3, fuel);
    let m4 = step(code[3], m3).unwrap();
    lemma_exec_step(funcs, code, 4, m4, fuel);
    let m5 = step(code[4], m4).unwrap();
    lemma_exec_step(funcs, code, 5, m5, fuel);
    let m6 = step(code[5], m5).unwrap();
    assert(m6.operands =~= seq![Value::I32(sp as i32), Value::I32(v)]);
    lemma_exec_step(funcs, code, 6, m6, fuel);
    let m7 = step(code[6], m6).unwrap();
    lemma_exec_step(funcs, code, 7, m7, fuel);
    let m8 = step(code[7], m7).unwrap();
    assert(m8.operands =~= seq![Value::I32(sp as i32), Value::I32((v * 4) as i32)]);
    lemma_exec_step(funcs, code, 8, m8, fuel);
    let m9 = step(code[8], m8).unwrap();
    lemma_exec_step(funcs, code, 9, m9, fuel);
    let m10 = step(code[9], m9).unwrap();
    assert(m10.operands =~= seq![Value::I32(sp as i32), Value::I32((sp + 4 * v) as i32)]);
    lemma_exec_step(funcs, code, 10, m10, fuel);
    let m11 = step(code[10], m10).unwrap();
    assert(m11.operands =~= seq![Value::I32(sp as i32), Value::I32(x)]);
    lemma_exec_step(funcs, code, 11, m11, fuel);
    let m12 = step(code[11], m11).unwrap();
    lemma_exec_step(funcs, code, 12, m12, fuel);
    let m13 = step(code[12], m12).unwrap();
    lemma_exec_done(funcs, code, m13, fuel);
    assert(m13.memory == store32(m.memory, sp, x));
    assert(stack_pointer(m13, stack) == sp);
    let t = s.update(n - 1, x);
    assert forall|i: int| 0 <= i < n implies #[trigger] data_stack(m13, stack, n)[i] == t[i] by {
        lemma_store_load(m.memory, sp, x, sp + 4 * (n - 1 - i));
    }
    assert(data_stack(m13, stack, n) =~= t);
}

/// Law (`DEPTH`): in the compiler every build starts from, the word `DEPTH`
/// takes `( -- n )`: it pushes the number of cells on the data stack, the
/// distance in cells from the stack pointer up to the base of the stack.
#[verifier::spinoff_prover]
#[verifier::rlimit(100)]
pub proof fn lemma_default_depth(m: Machine, n: nat, fuel: nat)
    requires
        word_frame(m, default_compiler().stack, n),
        fuel >= 1,
        stack_pointer(m, default_compiler().stack) <= PARAM_STACK_BASE,
    ensures
        ({
            let c = default_compiler();
            let s = data_stack(m, c.stack, n);
            let r = exec(module_functions(c.assembler), word_body(c.codes["DEPTH"@]), 0, m, fuel);
            &&& c.codes.contains_key("DEPTH"@)
            &&& r is Some
            &&& data_stack(r.unwrap(), c.stack, n + 1) == s.push(
                ((PARAM_STACK_BASE - stack_pointer(m, c.stack)) / 4) as i32,
            )
        }),
{
    let c = default_compiler();
    lemma_default_code_depth();
    lemma_default_stack_functions();
    let funcs = module_functions(c.assembler);
    let stack = c.stack;
    let push = c.push;
    let pop = c.pop;
    let s = data_stack(m, stack, n);
    let sp = stack_pointer(m, stack);
    let d = (PARAM_STACK_BASE - sp) as i32;
    let res = ((PARAM_STACK_BASE - sp) / 4) as i32;
    assert(((d as u32) >> 2u32) as i32 == d / 4) by (bit_vector)
        requires
            0 <= d,
    ;
    let code = word_body(depth_code(stack, push));
    lemma_exec_step(funcs, code, 0, m, fuel);
    let m1 = step(code[0], m).unwrap();
    lemma_exec_step(funcs, code, 1, m1, fuel);
    let m2 = step(code[1], m1).unwrap();
    lemma_exec_step(funcs, code, 2, m2, fuel);
    let m3 = step(code[2], m2).unwrap();
    assert(m3.operands =~= seq![Value::I32(d)]);
    lemma_exec_step(funcs, code, 3, m3, fuel);
    let m4 = step(code[3], m3).unwrap();
    lemma_exec_step(funcs, code, 4, m4, fuel);
    let m5 = step(code[4], m4).unwrap();
    assert(m5.operands =~= seq![Value::I32(res)]);
    lemma_call_push(funcs, stack, push, pop, code, 5, m5, res, fuel);
    let m6 = pushed(m5, stack, res);
    lemma_pushed_stack(m5, stack, res, n);
    lemma_exec_step(funcs, code, 6, m6, fuel);
    lemma_exec_done(funcs, code, m6, fuel);
}

/// Adding a native word keeps the recorded colon programs.
pub broadcast proof fn lemma_native_word_colons(c: CompilerSpec, name: Seq<char>, locals: Seq<ValType>, body: Seq<Instr>)
    ensures
        #[trigger] c.with_native_word(name, locals, body).colons == c.colons,
{
    reveal(CompilerSpec::with_native_word);
    reveal(CompilerSpec::with_entry);
}

/// The arithmetic words record the programs of `/` and `MOD`; the bit logic
/// and comparison words keep the recorded programs.
#[verifier::spinoff_prover]
#[verifier::rlimit(100)]
proof fn lemma_math_colons(c: CompilerSpec)
    ensures
        with_arithmetic_words(c).colons == c.colons.insert(
            "/"@,
            [ColonValue::XT("/MOD"), ColonValue::XT("NIP")]@,
        ).insert("MOD"@, [ColonValue::XT("/MOD"), ColonValue::XT("DROP")]@),
        with_bit_logic_words(c).colons == c.colons,
        with_comparison_words(c).colons == c.colons,
{
    broadcast use lemma_native_word_colons, lemma_entry_colons;
    reveal(with_arithmetic_words);
    reveal(with_bit_logic_words);
    reveal(with_comparison_words);
}

/// The compiler every build starts from records the programs of `/` and
/// `MOD`.
#[verifier::spinoff_prover]
#[verifier::rlimit(100)]
proof fn lemma_default_math_colons()
    ensures
        ({
            let d = default_compiler();
            &&& d.colons.contains_key("/"@)
            &&& d.colons["/"@] == [ColonValue::XT("/MOD"), ColonValue::XT("NIP")]@
            &&& d.colons.contains_key("MOD"@)
            &&& d.colons["MOD"@] == [ColonValue::XT("/MOD"), ColonValue::XT("DROP")]@
        }),
{
    lemma_stages();
    lemma_math_colons(stage(3));
    lemma_math_colons(stage(4));
    lemma_math_colons(stage(5));
    lemma_name_summaries();
}

/// The words of the colon programs of `/` and `MOD` are told apart from the
/// earlier cases of `run_word`.
proof fn lemma_math_word_names()
    ensures
        "/MOD"@ != "DUP"@,
        "/MOD"@ != "SWAP"@,
        "/MOD"@ != "NAME>XT"@,
        "/MOD"@ != "NAME>IMMEDIATE?"@,
        "/MOD"@ != "EXECUTE"@,
        "/MOD"@ != ","@,
        "/MOD"@ != "DROP"@,
        "/MOD"@ != "NIP"@,
        "NIP"@ != "DUP"@,
        "NIP"@ != "SWAP"@,
        "NIP"@ != "NAME>XT"@,
        "NIP"@ != "NAME>IMMEDIATE?"@,
        "NIP"@ != "EXECUTE"@,
        "NIP"@ != ","@,
        "NIP"@ != "DROP"@,
        "DROP"@ != "DUP"@,
        "DROP"@ != "SWAP"@,
        "DROP"@ != "NAME>XT"@,
        "DROP"@ != "NAME>IMMEDIATE?"@,
        "DROP"@ != "EXECUTE"@,
        "DROP"@ != ","@,
{
    lemma_name_summaries();
    reveal_strlit("NAME>XT");
    reveal_strlit("NAME>IMMEDIATE?");
    reveal_strlit(",");
    assert("NAME>XT"@.len() == 7 && "NAME>IMMEDIATE?"@.len() == 15 && ","@.len() == 1);
}

/// Law (`/`): in the compiler every build starts from, the colon word `/`
/// takes `( a b -- q )` with `q` the quotient of `a` by `b` rounded toward
/// negative infinity, for a nonzero `b` and other than `i32::MIN -1`: it
/// runs `/MOD` and drops the remainder.
#[verifier::spinoff_prover]
#[verifier::rlimit(100)]
pub proof fn lemma_default_divide(below: Seq<i32>, a: i32, b: i32, names: Names)
    requires
        b != 0,
        !(a == i32::MIN && b == -1),
    ensures
        ({
            let c = default_compiler();
            &&& c.colons.contains_key("/"@)
            &&& run_program(
                c.colons["/"@],
                0,
                Thread { stack: below.push(a).push(b), compiled: seq![], executed: seq![] },
                names,
                3,
            ) == Some(
                Thread { stack: below.push(floor_div(a as int, b as int) as i32), compiled: seq![], executed: seq![] },
            )
        }),
{
    lemma_default_math_colons();
    lemma_math_word_names();
    let t0 = Thread { stack: below.push(a).push(b), compiled: seq![], executed: seq![] };
    let t1 = Thread {
        stack: below.push(floor_mod(a as int, b as int) as i32).push(floor_div(a as int, b as int) as i32),
        ..t0
    };
    assert(t0.stack.take(t0.stack.len() - 2) =~= below);
    assert(run_word("/MOD", t0, names) == Some(t1));
    let t2 = Thread { stack: below.push(floor_div(a as int, b as int) as i32), ..t0 };
    assert(t1.stack.take(t1.stack.len() - 2) =~= below);
    assert(run_word("NIP", t1, names) == Some(t2));
    reveal_with_fuel(run_program, 3);
}

/// Law (`MOD`): in the compiler every build starts from, the colon word
/// `MOD` takes `( a b -- r )` with `r` the remainder of `a` by `b` when the
/// quotient is rounded toward negative infinity (it has the sign of `b`), for
/// a nonzero `b` and other than `i32::MIN -1`: it runs `/MOD` and drops the
/// quotient.
#[verifier::spinoff_prover]
#[verifier::rlimit(100)]
pub proof fn lemma_default_modulo(below: Seq<i32>, a: i32, b: i32, names: Names)
    requires
        b != 0,
        !(a == i32::MIN && b == -1),
    ensures
        ({
            let c = default_compiler();
            &&& c.colons.contains_key("MOD"@)
            &&& run_program(
                c.colons["MOD"@],
                0,
                Thread { stack: below.push(a).push(b), compiled: seq![], executed: seq![] },
                names,
                3,
            ) == Some(
                Thread { stack: below.push(floor_mod(a as int, b as int) as i32), compiled: seq![], executed: seq![] },
            )
        }),
{
    lemma_default_math_colons();
    lemma_math_word_names();
    let t0 = Thread { stack: below.push(a).push(b), compiled: seq![], executed: seq![] };
    let t1 = Thread {
        stack: below.push(floor_mod(a as int, b as int) as i32).push(floor_div(a as int, b as int) as i32),
        ..t0
    };
    assert(t0.stack.take(t0.stack.len() - 2) =~= below);
    assert(run_word("/MOD", t0, names) == Some(t1));
    let t2 = Thread { stack: below.push(floor_mod(a as int, b as int) as i32), ..t0 };
    assert(t1.stack.drop_last() =~= below.push(floor_mod(a as int, b as int) as i32));
    assert(run_word("DROP", t1, names) == Some(t2));
    reveal_with_fuel(run_program, 3);
}

/// The code of a word that applies `op` to the top cell and the constant
/// `k`, leaving the result in its place.
spec fn unary_code(pop: u32, push: u32, k: i32, op: Instr) -> Seq<Instr> {
    [Instr::Call(pop), Instr::I32Const(k), op, Instr::Call(push)]@
}

/// The code of `MIN` (with `I32LtS`) and `MAX` (with `I32GtS`): keep the top
/// cell where `op` holds of it and the second, the second otherwise.
spec fn select_code(pop: u32, push: u32, op: Instr) -> Seq<Instr> {
    [
        Instr::Call(pop), Instr::TeeLocal(0), Instr::Call(pop), Instr::TeeLocal(1),
        Instr::GetLocal(0), Instr::GetLocal(1), op, Instr::Select, Instr::Call(push),
    ]@
}

/// The code of `=0`: replace the top cell by -1 where it is zero and 0
/// otherwise.
spec fn zero_equal_code(pop: u32, push: u32) -> Seq<Instr> {
    [Instr::I32Const(0), Instr::Call(pop), Instr::I32Eqz, Instr::I32Sub, Instr::Call(push)]@
}

/// The code of `<>0`, `<0` and `>0`: replace the top cell by -1 where `op`
/// holds of it and zero, and by 0 otherwise.
spec fn zero_compare_code(pop: u32, push: u32, op: Instr) -> Seq<Instr> {
    [Instr::I32Const(0), Instr::Call(pop), Instr::I32Const(0), op, Instr::I32Sub, Instr::Call(push)]@
}

/// What `op` gives on `x` and `k` as the code of `unary_code` runs it.
spec fn unary_result(op: Instr, x: i32, k: i32) -> i32 {
    if op is I32Shl {
        x << ((k as u32) % 32)
    } else {
        crate::semantics::i32_binary(op, x, k).unwrap()
    }
}

/// Running `unary_code` replaces the top cell `x` by what `op` gives on `x`
/// and `k`.
#[verifier::spinoff_prover]
#[verifier::rlimit(60)]
proof fn lemma_unary(m: Machine, n: nat, fuel: nat, k: i32, op: Instr)
    requires
        word_frame(m, default_compiler().stack, n),
        n >= 1,
        fuel >= 1,
        op is I32Add || op is I32Sub || op is I32Xor || op is I32ShrS || op is I32Shl,
    ensures
        ({
            let c = default_compiler();
            let s = data_stack(m, c.stack, n);
            let r = exec(module_functions(c.assembler), word_body(unary_code(c.pop, c.push, k, op)), 0, m, fuel);
            &&& r is Some
            &&& data_stack(r.unwrap(), c.stack, n) == s.take(n - 1).push(unary_result(op, s[n - 1], k))
        }),
{
    let c = default_compiler();
    lemma_default_stack_functions();
    let funcs = module_functions(c.assembler);
    let stack = c.stack;
    let push = c.push;
    let pop = c.pop;
    let s = data_stack(m, stack, n);
    let x = s[n - 1];
    let res = unary_result(op, x, k);
    let code = word_body(unary_code(pop, push, k, op));
    lemma_call_pop(funcs, stack, push, pop, code, 0, m, fuel);
    let m1 = popped(m, stack);
    lemma_popped_stack(m, stack, n);
    lemma_exec_step(funcs, code, 1, m1, fuel);
    let m2 = step(code[1], m1).unwrap();
    assert(m2.operands =~= seq![Value::I32(x), Value::I32(k)]);
    lemma_exec_step(funcs, code, 2, m2, fuel);
    let m3 = step(code[2], m2).unwrap();
    assert(m3.operands =~= seq![Value::I32(res)]);
    lemma_call_push(funcs, stack, push, pop, code, 3, m3, res, fuel);
    let m4 = pushed(m3, stack, res);
    lemma_pushed_stack(m3, stack, res, (n - 1) as nat);
    assert(data_stack(m3, stack, (n - 1) as nat) == data_stack(m1, stack, (n - 1) as nat));
    lemma_exec_step(funcs, code, 4, m4, fuel);
    lemma_exec_done(funcs, code, m4, fuel);
    assert(data_stack(m1, stack, (n - 1) as nat) =~= s.take(n - 1));
}

/// Law (`1+`): in the compiler every build starts from, the word `1+` takes
/// `( x -- x + 1 )`, wrapping.
pub proof fn lemma_default_one_plus(m: Machine, n: nat, fuel: nat)
    requires
        word_frame(m, default_compiler().stack, n),
        n >= 1,
        fuel >= 1,
    ensures
        ({
            let c = default_compiler();
            let s = data_stack(m, c.stack, n);
            let r = exec(module_functions(c.assembler), word_body(c.codes["1+"@]), 0, m, fuel);
            &&& c.codes.contains_key("1+"@)
            &&& r is Some
            &&& data_stack(r.unwrap(), c.stack, n) == s.take(n - 1).push(add32(s[n - 1], 1))
        }),
{
    lemma_default_code_one_plus();
    lemma_unary(m, n, fuel, 1, Instr::I32Add);
}

/// Law (`1-`): in the compiler every build starts from, the word `1-` takes
/// `( x -- x - 1 )`, wrapping.
pub proof fn lemma_default_one_minus(m: Machine, n: nat, fuel: nat)
    requires
        word_frame(m, default_compiler().stack, n),
        n >= 1,
        fuel >= 1,
    ensures
        ({
            let c = default_compiler();
            let s = data_stack(m, c.stack, n);
            let r = exec(module_functions(c.assembler), word_body(c.codes["1-"@]), 0, m, fuel);
            &&& c.codes.contains_key("1-"@)
            &&& r is Some
            &&& data_stack(r.unwrap(), c.stack, n) == s.take(n - 1).push(sub32(s[n - 1], 1))
        }),
{
    lemma_default_code_one_minus();
    lemma_unary(m, n, fuel, 1, Instr::I32Sub);
}

/// Law (`INVERT`): in the compiler every build starts from, the word
/// `INVERT` takes `( x -- !x )`: every bit of the top cell is flipped.
pub proof fn lemma_default_invert(m: Machine, n: nat, fuel: nat)
    requires
        word_frame(m, default_compiler().stack, n),
        n >= 1,
        fuel >= 1,
    ensures
        ({
            let c = default_compiler();
            let s = data_stack(m, c.stack, n);
            let r = exec(module_functions(c.assembler), word_body(c.codes["INVERT"@]), 0, m, fuel);
            &&& c.codes.contains_key("INVERT"@)
            &&& r is Some
            &&& data_stack(r.unwrap(), c.stack, n) == s.take(n - 1).push(!s[n - 1])
        }),
{
    let c = default_compiler();
    lemma_default_code_invert();
    lemma_unary(m, n, fuel, -1i32, Instr::I32Xor);
    let x = data_stack(m, c.stack, n)[n - 1];
    assert(x ^ -1i32 == !x) by (bit_vector);
}

/// Law (`2*`): in the compiler every build starts from, the word `2*` takes
/// `( x -- x << 1 )`: the bits move up one place and the top bit is lost.
pub proof fn lemma_default_two_star(m: Machine, n: nat, fuel: nat)
    requires
        word_frame(m, default_compiler().stack, n),
        n >= 1,
        fuel >= 1,
    ensures
        ({
            let c = default_compiler();
            let s = data_stack(m, c.stack, n);
            let r = exec(module_functions(c.assembler), word_body(c.codes["2*"@]), 0, m, fuel);
            &&& c.codes.contains_key("2*"@)
            &&& r is Some
            &&& data_stack(r.unwrap(), c.stack, n) == s.take(n - 1).push(s[n - 1] << 1u32)
        }),
{
    lemma_default_code_two_star();
    lemma_unary(m, n, fuel, 1, Instr::I32Shl);
    assert((1i32 as u32) % 32 == 1u32);
}

/// Law (`2/`): in the compiler every build starts from, the word `2/` takes
/// `( x -- x >> 1 )`, arithmetic: the bits move down one place and the sign
/// bit is kept.
pub proof fn lemma_default_two_slash(m: Machine, n: nat, fuel: nat)
    requires
        word_frame(m, default_compiler().stack, n),
        n >= 1,
        fuel >= 1,
    ensures
        ({
            let c = default_compiler();
            let s = data_stack(m, c.stack, n);
            let r = exec(module_functions(c.assembler), word_body(c.codes["2/"@]), 0, m, fuel);
            &&& c.codes.contains_key("2/"@)
            &&& r is Some
            &&& data_stack(r.unwrap(), c.stack, n) == s.take(n - 1).push(s[n - 1] >> 1u32)
        }),
{
    lemma_default_code_two_slash();
    lemma_unary(m, n, fuel, 1, Instr::I32ShrS);
    assert((1i32 as u32) % 32 == 1u32);
}

/// Running `select_code` with `op` leaves the top cell `b` where `op` holds
/// of it and the second cell `a`, and `a` otherwise, in place of both.
#[verifier::spinoff_prover]
#[verifier::rlimit(60)]
proof fn lemma_select(m: Machine, n: nat, fuel: nat, op: Instr)
    requires
        word_frame(m, default_compiler().stack, n),
        n >= 2,
        fuel >= 1,
        op is I32LtS || op is I32GtS,
    ensures
        ({
            let c = default_compiler();
            let s = data_stack(m, c.stack, n);
            let r = exec(module_functions(c.assembler), word_body(select_code(c.pop, c.push, op)), 0, m, fuel);
            &&& r is Some
            &&& data_stack(r.unwrap(), c.stack, (n - 1) as nat) == s.take(n - 2).push(
                if crate::semantics::i32_binary(op, s[n - 1], s[n - 2]).unwrap() != 0 { s[n - 1] } else { s[n - 2] },
            )
        }),
{
    let c = default_compiler();
    lemma_default_stack_functions();
    let funcs = module_functions(c.assembler);
    let stack = c.stack;
    let push = c.push;
    let pop = c.pop;
    let s = data_stack(m, stack, n);
    let a = s[n - 2];
    let b = s[n - 1];
    let f = crate::semantics::i32_binary(op, b, a).unwrap();
    let res = if f != 0 { b } else { a };
    let code = word_body(select_code(pop, push, op));
    lemma_call_pop(funcs, stack, push, pop, code, 0, m, fuel);
    let m1 = popped(m, stack);
    lemma_popped_stack(m, stack, n);
    lemma_exec_step(funcs, code, 1, m1, fuel);
    let m2 = step(code[1], m1).unwrap();
    assert(data_stack(m2, stack, (n - 1) as nat) == data_stack(m1, stack, (n - 1) as nat));
    lemma_call_pop(funcs, stack, push, pop, code, 2, m2, fuel);
    let m3 = popped(m2, stack);
    lemma_popped_stack(m2, stack, (n - 1) as nat);
    lemma_exec_step(funcs, code, 3, m3, fuel);
    let m4 = step(code[3], m3).unwrap();
    lemma_exec_step(funcs, code, 4, m4, fuel);
    let m5 = step(code[4], m4).unwrap();
    lemma_exec_step(funcs, code, 5, m5, fuel);
    let m6 = step(code[5], m5).unwrap();
    assert(m6.operands =~= seq![Value::I32(b), Value::I32(a), Value::I32(b), Value::I32(a)]);
    lemma_exec_step(funcs, code, 6, m6, fuel);
    let m7 = step(code[6], m6).unwrap();
    assert(m7.operands =~= seq![Value::I32(b), Value::I32(a), Value::I32(f)]);
    lemma_exec_step(funcs, code, 7, m7, fuel);
    let m8 = step(code[7], m7).unwrap();
    assert(m8.operands =~= seq![Value::I32(res)]);
    lemma_call_push(funcs, stack, push, pop, code, 8, m8, res, fuel);
    let m9 = pushed(m8, stack, res);
    lemma_pushed_stack(m8, stack, res, (n - 2) as nat);
    assert(data_stack(m8, stack, (n - 2) as nat) == data_stack(m3, stack, (n - 2) as nat));
    lemma_exec_step(funcs, code, 9, m9, fuel);
    lemma_exec_done(funcs, code, m9, fuel);
    assert(data_stack(m3, stack, (n - 2) as nat) =~= s.take(n - 2));
}

/// Law (`MIN`): in the compiler every build starts from, the word `MIN`
/// takes `( a b -- m )` with `m` the smaller of `a` and `b` as signed 32-bit
/// integers.
pub proof fn lemma_default_min(m: Machine, n: nat, fuel: nat)
    requires
        word_frame(m, default_compiler().stack, n),
        n >= 2,
        fuel >= 1,
    ensures
        ({
            let c = default_compiler();
            let s = data_stack(m, c.stack, n);
            let r = exec(module_functions(c.assembler), word_body(c.codes["MIN"@]), 0, m, fuel);
            &&& c.codes.contains_key("MIN"@)
            &&& r is Some
            &&& data_stack(r.unwrap(), c.stack, (n - 1) as nat) == s.take(n - 2).push(
                if s[n - 2] <= s[n - 1] { s[n - 2] } else { s[n - 1] },
            )
        }),
{
    lemma_default_code_min();
    lemma_select(m, n, fuel, Instr::I32LtS);
}

/// Law (`MAX`): in the compiler every build starts from, the word `MAX`
/// takes `( a b -- m )` with `m` the larger of `a` and `b` as signed 32-bit
/// integers.
pub proof fn lemma_default_max(m: Machine, n: nat, fuel: nat)
    requires
        word_frame(m, default_compiler().stack, n),
        n >= 2,
        fuel >= 1,
    ensures
        ({
            let c = default_compiler();
            let s = data_stack(m, c.stack, n);
            let r = exec(module_functions(c.assembler), word_body(c.codes["MAX"@]), 0, m, fuel);
            &&& c.codes.contains_key("MAX"@)
            &&& r is Some
            &&& data_stack(r.unwrap(), c.stack, (n - 1) as nat) == s.take(n - 2).push(
                if s[n - 2] >= s[n - 1] { s[n - 2] } else { s[n - 1] },
            )
        }),
{
    lemma_default_code_max();
    lemma_select(m, n, fuel, Instr::I32GtS);
}

/// What the code of `=0` (with `op` none) or of `zero_compare_code` with
/// `op` leaves as the WebAssembly boolean before it is turned into a flag.
spec fn zero_test(op: Option<Instr>, x: i32) -> i32 {
    match op {
        Some(o) => crate::semantics::i32_binary(o, x, 0).unwrap(),
        None => flag(x == 0),
    }
}

/// Running the code of `=0`, or `zero_compare_code` with `op`, replaces the
/// top cell by `0 - zero_test(op, x)`.
#[verifier::spinoff_prover]
#[verifier::rlimit(60)]
proof fn lemma_zero_compare(m: Machine, n: nat, fuel: nat, op: Option<Instr>)
    requires
        word_frame(m, default_compiler().stack, n),
        n >= 1,
        fuel >= 1,
        op matches Some(o) ==> (o is I32Ne || o is I32LtS || o is I32GtS),
    ensures
        ({
            let c = default_compiler();
            let s = data_stack(m, c.stack, n);
            let code = match op {
                Some(o) => zero_compare_code(c.pop, c.push, o),
                None => zero_equal_code(c.pop, c.push),
            };
            let r = exec(module_functions(c.assembler), word_body(code), 0, m, fuel);
            &&& r is Some
            &&& data_stack(r.unwrap(), c.stack, n) == s.take(n - 1).push(sub32(0, zero_test(op, s[n - 1])))
        }),
{
    let c = default_compiler();
    lemma_default_stack_functions();
    let funcs = module_functions(c.assembler);
    let stack = c.stack;
    let push = c.push;
    let pop = c.pop;
    let s = data_stack(m, stack, n);
    let x = s[n - 1];
    let f = zero_test(op, x);
    let res = sub32(0, f);
    let code = word_body(
        match op {
            Some(o) => zero_compare_code(pop, push, o),
            None => zero_equal_code(pop, push),
        },
    );
    lemma_popped_stack(m, stack, n);
    lemma_exec_step(funcs, code, 0, m, fuel);
    let m1 = step(code[0], m).unwrap();
    lemma_call_pop(funcs, stack, push, pop, code, 1, m1, fuel);
    let m2 = popped(m1, stack);
    assert(m2.operands =~= seq![Value::I32(0i32), Value::I32(x)]);
    assert(data_stack(m2, stack, (n - 1) as nat) =~= s.take(n - 1));
    lemma_exec_step(funcs, code, 2, m2, fuel);
    let m3 = step(code[2], m2).unwrap();
    if op is Some {
        lemma_exec_step(funcs, code, 3, m3, fuel);
        let m4 = step(code[3], m3).unwrap();
        assert(m4.operands =~= seq![Value::I32(0i32), Value::I32(f)]);
        lemma_exec_step(funcs, code, 4, m4, fuel);
        let m5 = step(code[4], m4).unwrap();
        assert(m5.operands =~= seq![Value::I32(res)]);
        lemma_call_push(funcs, stack, push, pop, code, 5, m5, res, fuel);
        let m6 = pushed(m5, stack, res);
        lemma_pushed_stack(m5, stack, res, (n - 1) as nat);
        lemma_exec_step(funcs, code, 6, m6, fuel);
        lemma_exec_done(funcs, code, m6, fuel);
    } else {
        assert(m3.operands =~= seq![Value::I32(0i32), Value::I32(f)]);
        lemma_exec_step(funcs, code, 3, m3, fuel);
        let m4 = step(code[3], m3).unwrap();
        assert(m4.operands =~= seq![Value::I32(res)]);
        lemma_call_push(funcs, stack, push, pop, code, 4, m4, res, fuel);
        let m5 = pushed(m4, stack, res);
        lemma_pushed_stack(m4, stack, res, (n - 1) as nat);
        lemma_exec_step(funcs, code, 5, m5, fuel);
        lemma_exec_done(funcs, code, m5, fuel);
    }
}

/// Law (`=0`): in the compiler every build starts from, the word `=0`
/// takes `( x -- flag )`: -1 (all bits set) where `x == 0`, and 0 otherwise.
pub proof fn lemma_default_zero_equal(m: Machine, n: nat, fuel: nat)
    requires
        word_frame(m, default_compiler().stack, n),
        n >= 1,
        fuel >= 1,
    ensures
        ({
            let c = default_compiler();
            let s = data_stack(m, c.stack, n);
            let r = exec(module_functions(c.assembler), word_body(c.codes["=0"@]), 0, m, fuel);
            &&& c.codes.contains_key("=0"@)
            &&& r is Some
            &&& data_stack(r.unwrap(), c.stack, n) == s.take(n - 1).push(if s[n - 1] == 0 { -1i32 } else { 0i32 })
        }),
{
    let c = default_compiler();
    let s = data_stack(m, c.stack, n);
    lemma_default_code_zero_equal();
    lemma_zero_compare(m, n, fuel, None);
    assert(sub32(0, zero_test(None, s[n - 1])) == if s[n - 1] == 0 { -1i32 } else { 0i32 });
}

/// Law (`<>0`): in the compiler every build starts from, the word `<>0`
/// takes `( x -- flag )`: -1 (all bits set) where `x != 0`, and 0 otherwise.
pub proof fn lemma_default_zero_not_equal(m: Machine, n: nat, fuel: nat)
    requires
        word_frame(m, default_compiler().stack, n),
        n >= 1,
        fuel >= 1,
    ensures
        ({
            let c = default_compiler();
            let s = data_stack(m, c.stack, n);
            let r = exec(module_functions(c.assembler), word_body(c.codes["<>0"@]), 0, m, fuel);
            &&& c.codes.contains_key("<>0"@)
            &&& r is Some
            &&& data_stack(r.unwrap(), c.stack, n) == s.take(n - 1).push(if s[n - 1] != 0 { -1i32 } else { 0i32 })
        }),
{
    let c = default_compiler();
    let s = data_stack(m, c.stack, n);
    lemma_default_code_zero_not_equal();
    lemma_zero_compare(m, n, fuel, Some(Instr::I32Ne));
    assert(sub32(0, zero_test(Some(Instr::I32Ne), s[n - 1])) == if s[n - 1] != 0 { -1i32 } else { 0i32 });
}

/// Law (`<0`): in the compiler every build starts from, the word `<0`
/// takes `( x -- flag )`: -1 (all bits set) where `x < 0`, and 0 otherwise.
pub proof fn lemma_default_zero_less(m: Machine, n: nat, fuel: nat)
    requires
        word_frame(m, default_compiler().stack, n),
        n >= 1,
        fuel >= 1,
    ensures
        ({
            let c = default_compiler();
            let s = data_stack(m, c.stack, n);
            let r = exec(module_functions(c.assembler), word_body(c.codes["<0"@]), 0, m, fuel);
            &&& c.codes.contains_key("<0"@)
            &&& r is Some
            &&& data_stack(r.unwrap(), c.stack, n) == s.take(n - 1).push(if s[n - 1] < 0 { -1i32 } else { 0i32 })
        }),
{
    let c = default_compiler();
    let s = data_stack(m, c.stack, n);
    lemma_default_code_zero_less();
    lemma_zero_compare(m, n, fuel, Some(Instr::I32LtS));
    assert(sub32(0, zero_test(Some(Instr::I32LtS), s[n - 1])) == if s[n - 1] < 0 { -1i32 } else { 0i32 });
}

/// Law (`>0`): in the compiler every build starts from, the word `>0`
/// takes `( x -- flag )`: -1 (all bits set) where `x > 0`, and 0 otherwise.
pub proof fn lemma_default_zero_greater(m: Machine, n: nat, fuel: nat)
    requires
        word_frame(m, default_compiler().stack, n),
        n >= 1,
        fuel >= 1,
    ensures
        ({
            let c = default_compiler();
            let s = data_stack(m, c.stack, n);
            let r = exec(module_functions(c.assembler), word_body(c.codes[">0"@]), 0, m, fuel);
            &&& c.codes.contains_key(">0"@)
            &&& r is Some
            &&& data_stack(r.unwrap(), c.stack, n) == s.take(n - 1).push(if s[n - 1] > 0 { -1i32 } else { 0i32 })
        }),
{
    let c = default_compiler();
    let s = data_stack(m, c.stack, n);
    lemma_default_code_zero_greater();
    lemma_zero_compare(m, n, fuel, Some(Instr::I32GtS));
    assert(sub32(0, zero_test(Some(Instr::I32GtS), s[n - 1])) == if s[n - 1] > 0 { -1i32 } else { 0i32 });
}

} // verus!
