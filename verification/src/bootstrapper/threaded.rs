//! What a colon word's program does when the threaded-code interpreter runs
//! it, observed at the level of Forth: the data stack, the cells appended to
//! the dictionary, and the words run through `EXECUTE`.
use vstd::prelude::*;
use crate::bootstrapper::bootstrapped_interpreter::{with_interpreter_words, with_outer_words, with_start};
use crate::bootstrapper::compiler::{default_compiler, finished, ColonValue, CompilerSpec};
use crate::bootstrapper::words::{floor_div, floor_mod};

verus! {

/// The state a colon program works on: the data stack (top last), the cells
/// appended to the dictionary with `,` (oldest first), and the execution
/// tokens run with `EXECUTE` (oldest first).
pub struct Thread {
    pub stack: Seq<i32>,
    pub compiled: Seq<i32>,
    pub executed: Seq<i32>,
}

/// The dictionary a program runs against, as far as the words below read
/// it: the execution token of each name token, and the first byte of each
/// name's header (its flags and length).
pub struct Names {
    pub xt_of: spec_fn(i32) -> i32,
    pub header: spec_fn(i32) -> u8,
}

/// `t` with `v` pushed on the data stack.
pub open spec fn pushed_cell(t: Thread, v: i32) -> Thread {
    Thread { stack: t.stack.push(v), ..t }
}

/// `t` with the top of its data stack removed.
pub open spec fn dropped_cell(t: Thread) -> Thread {
    Thread { stack: t.stack.drop_last(), ..t }
}

/// What running the word `w` does: `DUP`, `SWAP`, `DROP` and `NIP` as in Forth,
/// `NAME>XT` replaces a name token by its execution token,
/// `NAME>IMMEDIATE?` replaces it by a true flag (-1) where the immediate bit
/// (0x80) of its header byte is set and a false one (0) where it is clear,
/// `EXECUTE` runs the execution token on top, and `,` appends the top cell to
/// the dictionary, and `/MOD` leaves the floored remainder and quotient, as
/// the native word does (see `lemma_default_div_mod`). `None` for another
/// word, a stack too short or a division `/MOD` refuses.
pub open spec fn run_word(w: &str, t: Thread, names: Names) -> Option<Thread> {
    let s = t.stack;
    let n = s.len();
    if w@ == "DUP"@ {
        if n >= 1 { Some(pushed_cell(t, s[n - 1])) } else { None }
    } else if w@ == "SWAP"@ {
        if n >= 2 {
            Some(Thread { stack: s.take(n - 2).push(s[n - 1]).push(s[n - 2]), ..t })
        } else {
            None
        }
    } else if w@ == "NAME>XT"@ {
        if n >= 1 { Some(pushed_cell(dropped_cell(t), (names.xt_of)(s[n - 1]))) } else { None }
    } else if w@ == "NAME>IMMEDIATE?"@ {
        if n >= 1 {
            Some(pushed_cell(dropped_cell(t), if (names.header)(s[n - 1]) & 0x80 != 0 { -1i32 } else { 0i32 }))
        } else {
            None
        }
    } else if w@ == "EXECUTE"@ {
        if n >= 1 { Some(Thread { executed: t.executed.push(s[n - 1]), ..dropped_cell(t) }) } else { None }
    } else if w@ == ","@ {
        if n >= 1 { Some(Thread { compiled: t.compiled.push(s[n - 1]), ..dropped_cell(t) }) } else { None }
    } else if w@ == "DROP"@ {
        if n >= 1 { Some(dropped_cell(t)) } else { None }
    } else if w@ == "NIP"@ {
        if n >= 2 { Some(Thread { stack: s.take(n - 2).push(s[n - 1]), ..t }) } else { None }
    } else if w@ == "/MOD"@ {
        if n >= 2 && s[n - 1] != 0 && !(s[n - 2] == i32::MIN && s[n - 1] == -1) {
            let a = s[n - 2] as int;
            let b = s[n - 1] as int;
            Some(Thread { stack: s.take(n - 2).push(floor_mod(a, b) as i32).push(floor_div(a, b) as i32), ..t })
        } else {
            None
        }
    } else {
        None
    }
}

/// The number of bytes an item takes in the compiled program.
pub open spec fn item_size(v: ColonValue) -> int {
    match v {
        ColonValue::XT(_) => 4,
        ColonValue::Lit(_) => 8,
        ColonValue::Branch(_) => 8,
        ColonValue::QBranch(_) => 8,
        ColonValue::StringLit(_) => 0,
    }
}

/// The byte offset of item `i` from the start of the program.
pub open spec fn item_offset(values: Seq<ColonValue>, i: int) -> int
    decreases i,
{
    if i <= 0 {
        0
    } else {
        item_offset(values, i - 1) + item_size(values[i - 1])
    }
}

/// The first index from `j` on, up to the end of the program, whose item
/// starts at byte `target`; -1 where there is none.
pub open spec fn item_at(values: Seq<ColonValue>, target: int, j: int) -> int
    decreases values.len() + 1 - j,
{
    if j < 0 || j > values.len() {
        -1
    } else if item_offset(values, j) == target {
        j
    } else {
        item_at(values, target, j + 1)
    }
}

/// Running `values` from item `i` on `t` until it leaves through its end
/// (`EXIT`), in at most `fuel` steps: `None` where it gets stuck or the fuel
/// runs out. A branch jumps by its offset in bytes from the end of the
/// branch; `?BRANCH` pops a flag and jumps where it is zero.
pub open spec fn run_program(values: Seq<ColonValue>, i: int, t: Thread, names: Names, fuel: nat) -> Option<Thread>
    decreases fuel,
{
    if fuel == 0 || i < 0 || i > values.len() {
        None
    } else if i == values.len() {
        Some(t)
    } else {
        match values[i] {
            ColonValue::XT(w) => match run_word(w, t, names) {
                Some(t2) => run_program(values, i + 1, t2, names, (fuel - 1) as nat),
                None => None,
            },
            ColonValue::Lit(v) => run_program(values, i + 1, pushed_cell(t, v), names, (fuel - 1) as nat),
            ColonValue::Branch(offset) => run_program(
                values,
                item_at(values, item_offset(values, i) + 8 + offset, 0),
                t,
                names,
                (fuel - 1) as nat,
            ),
            ColonValue::QBranch(offset) => if t.stack.len() == 0 {
                None
            } else if t.stack.last() == 0 {
                run_program(
                    values,
                    item_at(values, item_offset(values, i) + 8 + offset, 0),
                    dropped_cell(t),
                    names,
                    (fuel - 1) as nat,
                )
            } else {
                run_program(values, i + 1, dropped_cell(t), names, (fuel - 1) as nat)
            },
            ColonValue::StringLit(_) => None,
        }
    }
}

/// Adding an entry keeps the recorded colon programs.
pub broadcast proof fn lemma_entry_colons(c: CompilerSpec, name: Seq<char>, code: u32, parameter: Seq<u8>)
    ensures
        #[trigger] c.with_entry(name, code, parameter).colons == c.colons,
{
    reveal(CompilerSpec::with_entry);
}

/// The program the outer interpreter words give `COMPILE-NAME`.
#[verifier::spinoff_prover]
#[verifier::rlimit(60)]
proof fn lemma_outer_words_compile_name(c: CompilerSpec)
    ensures
        with_outer_words(c).colons.contains_key("COMPILE-NAME"@),
        with_outer_words(c).colons["COMPILE-NAME"@] == [
            ColonValue::XT("DUP"), ColonValue::XT("NAME>XT"), ColonValue::XT("SWAP"),
            ColonValue::XT("NAME>IMMEDIATE?"), ColonValue::QBranch(12), ColonValue::XT("EXECUTE"),
            ColonValue::Branch(4), ColonValue::XT(","),
        ]@,
{
    broadcast use lemma_entry_colons;
    reveal(with_outer_words);
    reveal_strlit("COMPILE-NAME");
    reveal_strlit("INTERPRET");
    reveal_strlit("INCLUDED");
    assert("COMPILE-NAME"@.len() != "INTERPRET"@.len());
    assert("COMPILE-NAME"@.len() != "INCLUDED"@.len());
}

/// Law (`COMPILE-NAME`): in the dictionary of the bootstrap interpreter,
/// running `COMPILE-NAME` on a name token `nt` whose header byte has the
/// immediate bit (0x80) clear appends the word's execution token to the
/// dictionary with `,` and runs nothing; with the bit set it runs the word
/// with `EXECUTE` and appends nothing. Either way the cells below `nt` are
/// left as they were.
#[verifier::spinoff_prover]
#[verifier::rlimit(100)]
pub proof fn lemma_compile_name(below: Seq<i32>, nt: i32, names: Names)
    ensures
        ({
            let c = with_interpreter_words(default_compiler());
            let xt = (names.xt_of)(nt);
            &&& c.colons.contains_key("COMPILE-NAME"@)
            &&& run_program(
                c.colons["COMPILE-NAME"@],
                0,
                Thread { stack: below.push(nt), compiled: seq![], executed: seq![] },
                names,
                16,
            ) == Some(
                if (names.header)(nt) & 0x80 == 0 {
                    Thread { stack: below, compiled: seq![xt], executed: seq![] }
                } else {
                    Thread { stack: below, compiled: seq![], executed: seq![xt] }
                },
            )
        }),
{
    let c = with_interpreter_words(default_compiler());
    lemma_outer_words_compile_name(
        crate::bootstrapper::bootstrapped_interpreter::with_name_words(
            crate::bootstrapper::bootstrapped_interpreter::with_parser_words(
                crate::bootstrapper::bootstrapped_interpreter::with_io_words(
                    crate::bootstrapper::bootstrapped_interpreter::with_error_words(default_compiler()),
                ),
            ),
        ),
    );
    let p = c.colons["COMPILE-NAME"@];
    reveal_strlit("DUP");
    reveal_strlit("SWAP");
    reveal_strlit("NAME>XT");
    reveal_strlit("NAME>IMMEDIATE?");
    reveal_strlit("EXECUTE");
    reveal_strlit(",");
    assert("NAME>XT"@.len() != "DUP"@.len());
    assert("NAME>XT"@.len() != "SWAP"@.len());
    assert("SWAP"@.len() != "DUP"@.len());
    assert("NAME>IMMEDIATE?"@.len() != "DUP"@.len());
    assert("NAME>IMMEDIATE?"@.len() != "SWAP"@.len());
    assert("NAME>IMMEDIATE?"@.len() != "NAME>XT"@.len());
    assert("EXECUTE"@.len() != "DUP"@.len());
    assert("EXECUTE"@.len() != "SWAP"@.len());
    assert("EXECUTE"@[0] != "NAME>XT"@[0]);
    assert("EXECUTE"@.len() != "NAME>IMMEDIATE?"@.len());
    assert(","@.len() != "DUP"@.len());
    assert(","@.len() != "SWAP"@.len());
    assert(","@.len() != "NAME>XT"@.len());
    assert(","@.len() != "NAME>IMMEDIATE?"@.len());
    assert(","@.len() != "EXECUTE"@.len());
    reveal_with_fuel(item_offset, 9);
    assert(item_offset(p, 4) == 16);
    assert(item_offset(p, 6) == 28);
    assert(item_offset(p, 7) == 36);
    assert(item_offset(p, 8) == 40);
    reveal_with_fuel(item_at, 10);
    assert(item_at(p, 36, 0) == 7);
    assert(item_at(p, 40, 0) == 8);
    let xt = (names.xt_of)(nt);
    let imm = (names.header)(nt) & 0x80 != 0;
    let f: i32 = if imm { -1i32 } else { 0i32 };
    let t0 = Thread { stack: below.push(nt), compiled: seq![], executed: seq![] };
    let t1 = pushed_cell(t0, nt);
    let t2 = pushed_cell(dropped_cell(t1), xt);
    assert(t2.stack =~= below.push(nt).push(xt));
    let t3 = Thread { stack: below.push(xt).push(nt), ..t2 };
    assert(t3.stack =~= t2.stack.take(t2.stack.len() - 2).push(t2.stack.last()).push(t2.stack[t2.stack.len() - 2]));
    let t4 = pushed_cell(dropped_cell(t3), f);
    assert(dropped_cell(t3).stack =~= below.push(xt));
    let t5 = dropped_cell(t4);
    assert(t5.stack =~= below.push(xt));
    assert(run_word("DUP", t0, names) == Some(t1));
    assert(run_word("NAME>XT", t1, names) == Some(t2));
    assert(run_word("SWAP", t2, names) == Some(t3));
    assert(run_word("NAME>IMMEDIATE?", t3, names) == Some(t4));
    assert(dropped_cell(t5).stack =~= below);
    reveal_with_fuel(run_program, 10);
    if imm {
        let t6 = Thread { executed: seq![xt], ..dropped_cell(t5) };
        assert(run_word("EXECUTE", t5, names) == Some(t6));
        assert(t6 == Thread { stack: below, compiled: seq![], executed: seq![xt] });
    } else {
        let t6 = Thread { compiled: seq![xt], ..dropped_cell(t5) };
        assert(run_word(",", t5, names) == Some(t6));
        assert(t6 == Thread { stack: below, compiled: seq![xt], executed: seq![] });
    }
}

/// The program the outer interpreter words give `INTERPRET-NAME`.
#[verifier::spinoff_prover]
#[verifier::rlimit(60)]
proof fn lemma_outer_words_interpret_name(c: CompilerSpec)
    ensures
        with_outer_words(c).colons.contains_key("INTERPRET-NAME"@),
        with_outer_words(c).colons["INTERPRET-NAME"@] == [ColonValue::XT("NAME>XT"), ColonValue::XT("EXECUTE")]@,
{
    broadcast use lemma_entry_colons;
    reveal(with_outer_words);
    reveal_strlit("INTERPRET-NAME");
    reveal_strlit("COMPILE-NAME");
    reveal_strlit("INTERPRET");
    reveal_strlit("INCLUDED");
    assert("INTERPRET-NAME"@.len() != "COMPILE-NAME"@.len());
    assert("INTERPRET-NAME"@.len() != "INTERPRET"@.len());
    assert("INTERPRET-NAME"@.len() != "INCLUDED"@.len());
}

/// Law (`INTERPRET-NAME`): in the dictionary of the bootstrap interpreter,
/// running `INTERPRET-NAME` on a name token runs the word it names with
/// `EXECUTE`, whether or not it is immediate, and appends nothing to the
/// dictionary; the cells below the token are left as they were.
#[verifier::spinoff_prover]
#[verifier::rlimit(100)]
pub proof fn lemma_interpret_name(below: Seq<i32>, nt: i32, names: Names)
    ensures
        ({
            let c = with_interpreter_words(default_compiler());
            &&& c.colons.contains_key("INTERPRET-NAME"@)
            &&& run_program(
                c.colons["INTERPRET-NAME"@],
                0,
                Thread { stack: below.push(nt), compiled: seq![], executed: seq![] },
                names,
                4,
            ) == Some(Thread { stack: below, compiled: seq![], executed: seq![(names.xt_of)(nt)] })
        }),
{
    lemma_outer_words_interpret_name(
        crate::bootstrapper::bootstrapped_interpreter::with_name_words(
            crate::bootstrapper::bootstrapped_interpreter::with_parser_words(
                crate::bootstrapper::bootstrapped_interpreter::with_io_words(
                    crate::bootstrapper::bootstrapped_interpreter::with_error_words(default_compiler()),
                ),
            ),
        ),
    );
    reveal_strlit("DUP");
    reveal_strlit("SWAP");
    reveal_strlit("NAME>XT");
    reveal_strlit("NAME>IMMEDIATE?");
    reveal_strlit("EXECUTE");
    assert("NAME>XT"@.len() != "DUP"@.len());
    assert("NAME>XT"@.len() != "SWAP"@.len());
    assert("EXECUTE"@.len() != "DUP"@.len());
    assert("EXECUTE"@.len() != "SWAP"@.len());
    assert("EXECUTE"@[0] != "NAME>XT"@[0]);
    assert("EXECUTE"@.len() != "NAME>IMMEDIATE?"@.len());
    let t0 = Thread { stack: below.push(nt), compiled: seq![], executed: seq![] };
    let t1 = pushed_cell(dropped_cell(t0), (names.xt_of)(nt));
    assert(dropped_cell(t0).stack =~= below);
    assert(run_word("NAME>XT", t0, names) == Some(t1));
    let t2 = Thread { executed: seq![(names.xt_of)(nt)], ..dropped_cell(t1) };
    assert(dropped_cell(t1).stack =~= below);
    assert(run_word("EXECUTE", t1, names) == Some(t2));
    reveal_with_fuel(run_program, 4);
}

/// Law (finished interpreter): the module a build finishes, whatever
/// program its `_start` runs, keeps the programs of `COMPILE-NAME` and
/// `INTERPRET-NAME` that the interpreter words record, so the laws above
/// hold of the interpreter that is built.
#[verifier::spinoff_prover]
#[verifier::rlimit(60)]
pub proof fn lemma_finished_keeps_outer_programs(program: Seq<ColonValue>)
    ensures
        ({
            let c = with_interpreter_words(default_compiler());
            let f = finished(with_start(c, program));
            &&& f.colons.contains_key("COMPILE-NAME"@)
            &&& f.colons["COMPILE-NAME"@] == c.colons["COMPILE-NAME"@]
            &&& f.colons.contains_key("INTERPRET-NAME"@)
            &&& f.colons["INTERPRET-NAME"@] == c.colons["INTERPRET-NAME"@]
        }),
{
    broadcast use lemma_entry_colons;
    let inner = crate::bootstrapper::bootstrapped_interpreter::with_name_words(
        crate::bootstrapper::bootstrapped_interpreter::with_parser_words(
            crate::bootstrapper::bootstrapped_interpreter::with_io_words(
                crate::bootstrapper::bootstrapped_interpreter::with_error_words(default_compiler()),
            ),
        ),
    );
    lemma_outer_words_compile_name(inner);
    lemma_outer_words_interpret_name(inner);
    reveal_strlit("COMPILE-NAME");
    reveal_strlit("INTERPRET-NAME");
    reveal_strlit("_start");
    reveal_strlit("RUN-WORD");
    assert("COMPILE-NAME"@.len() != "_start"@.len());
    assert("COMPILE-NAME"@.len() != "RUN-WORD"@.len());
    assert("INTERPRET-NAME"@.len() != "_start"@.len());
    assert("INTERPRET-NAME"@.len() != "RUN-WORD"@.len());
}

} // verus!
