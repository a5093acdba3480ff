//! What the current compiler's words do when they run: laws, over the
//! semantics of [`crate::semantics`], about the code each word is compiled
//! to, stated on the Forth data stack that the module keeps in linear memory.
use vstd::prelude::*;
use crate::bootstrapper::compiler::{
    abs_code, binary_i32_bool_code, binary_i64_code, fm_mod_code, pop_d_code, push_d_code, sm_rem_code, ud_mod_code, binary_i32_code, bitmanip_code, divmod_code, negate_code, drop_code, minus_rot_code, nip_code, over_code, pop_code, push_code, rot_code,
    qdup_code, swap_code,
};
use crate::layout::{add32, sub32};
use crate::layout::{le32, lemma_le32};
use crate::semantics::{
    abs, flag, i32_binary, i64_binary, join, lemma_halves, load64, high, low, rotl64, store64, trunc_div, trunc_rem,
    after_call, block_close, call_args, exec, frame, lemma_exec_call, lemma_exec_done, lemma_exec_if, lemma_exec_step,
    load32, replace_top, step, store32,
    Function, Machine, Value,
};
use crate::assembler::{AssemblerSpec, FuncSlot};
use crate::bootstrapper::compiler::{
    with_arithmetic_words, with_bit_logic_words, with_comparison_words, with_execution_words, with_memory_words,
    with_stack_functions, with_stack_word_defs, with_stack_words, CompilerSpec,
};
use crate::wasm::{Instr, ValType};

verus! {

/// The push function of the stack whose pointer is global `stack`.
pub open spec fn push_function(stack: u32) -> Function {
    Function { params: 1, locals: seq![], body: push_code(stack) }
}

/// The pop function of the stack whose pointer is global `stack`.
pub open spec fn pop_function(stack: u32) -> Function {
    Function { params: 0, locals: seq![], body: pop_code(stack) }
}

/// The stack pointer held in global `stack`, as a byte address.
pub open spec fn stack_pointer(m: Machine, stack: u32) -> int {
    m.globals[stack as int] as int
}

/// Reading a cell just written gives the value written; cells elsewhere are
/// unchanged.
#[verifier::spinoff_prover]
#[verifier::rlimit(60)]
pub proof fn lemma_store_load(memory: Map<int, u8>, a: int, v: i32, b: int)
    ensures
        load32(store32(memory, a, v), a) == v,
        b + 4 <= a || a + 4 <= b ==> load32(store32(memory, a, v), b) == load32(memory, b),
{
    lemma_le32(v);
    let bytes = le32(v);
    let m2 = store32(memory, a, v);
    assert(seq![m2[a], m2[a + 1], m2[a + 2], m2[a + 3]] =~= bytes);
    if b + 4 <= a || a + 4 <= b {
        assert(seq![m2[b], m2[b + 1], m2[b + 2], m2[b + 3]] =~= seq![memory[b], memory[b + 1], memory[b + 2], memory[b + 3]]);
    }
}

/// Running the push function's body with argument `v` moves the stack
/// pointer down a cell and stores `v` there.
#[verifier::spinoff_prover]
#[verifier::rlimit(60)]
pub proof fn lemma_push_body(funcs: Map<u32, Function>, stack: u32, m: Machine, v: i32, fuel: nat)
    requires
        stack < m.globals.len(),
        m.operands.len() == 0,
        m.locals.len() >= 1,
        m.locals[0] == Value::I32(v),
        4 <= stack_pointer(m, stack) <= m.memory_size,
    ensures
        exec(funcs, push_code(stack), 0, m, fuel) is Some,
        exec(funcs, push_code(stack), 0, m, fuel).unwrap().operands.len() == 0,
        exec(funcs, push_code(stack), 0, m, fuel).unwrap().globals == m.globals.update(stack as int, (stack_pointer(m, stack) - 4) as i32),
        exec(funcs, push_code(stack), 0, m, fuel).unwrap().memory == store32(m.memory, stack_pointer(m, stack) - 4, v),
{
    reveal_with_fuel(exec, 10);
}

/// Running the pop function's body takes the cell at the stack pointer and
/// moves the stack pointer up a cell.
#[verifier::rlimit(60)]
#[verifier::spinoff_prover]
pub proof fn lemma_pop_body(funcs: Map<u32, Function>, stack: u32, m: Machine, fuel: nat)
    requires
        stack < m.globals.len(),
        m.operands.len() == 0,
        0 <= stack_pointer(m, stack),
        stack_pointer(m, stack) + 4 <= m.memory_size,
        stack_pointer(m, stack) + 4 <= i32::MAX,
    ensures
        exec(funcs, pop_code(stack), 0, m, fuel) is Some,
        exec(funcs, pop_code(stack), 0, m, fuel).unwrap().operands == seq![
            Value::I32(load32(m.memory, stack_pointer(m, stack))),
        ],
        exec(funcs, pop_code(stack), 0, m, fuel).unwrap().globals == m.globals.update(stack as int, (stack_pointer(m, stack) + 4) as i32),
        exec(funcs, pop_code(stack), 0, m, fuel).unwrap().memory == m.memory,
{
    reveal_with_fuel(exec, 10);
    let r = exec(funcs, pop_code(stack), 0, m, fuel).unwrap();
    assert(r.operands =~= seq![Value::I32(load32(m.memory, stack_pointer(m, stack)))]);
}

/// The top `n` cells of the data stack whose pointer is global `stack`,
/// oldest first: the last one is the cell at the stack pointer.
pub open spec fn data_stack(m: Machine, stack: u32, n: nat) -> Seq<i32> {
    Seq::new(n, |i: int| load32(m.memory, stack_pointer(m, stack) + 4 * (n - 1 - i)))
}

/// The data stack whose pointer is global `stack` holds at least `n` cells
/// within memory, with room for one more below.
pub open spec fn stack_fits(m: Machine, stack: u32, n: nat) -> bool {
    &&& stack < m.globals.len()
    &&& 4 <= stack_pointer(m, stack)
    &&& stack_pointer(m, stack) + 4 * n + 4 <= m.memory_size
    &&& m.memory_size <= i32::MAX
}

/// The environment of a word: the functions `push` and `pop` of the data
/// stack whose pointer is global `stack`.
pub open spec fn stack_functions(funcs: Map<u32, Function>, stack: u32, push: u32, pop: u32) -> bool {
    &&& funcs.contains_key(push)
    &&& funcs[push] == push_function(stack)
    &&& funcs.contains_key(pop)
    &&& funcs[pop] == pop_function(stack)
}

/// The machine after a call of `push` with `v` on top of its operands.
pub open spec fn pushed(m: Machine, stack: u32, v: i32) -> Machine {
    Machine {
        operands: m.operands.drop_last(),
        globals: m.globals.update(stack as int, (stack_pointer(m, stack) - 4) as i32),
        memory: store32(m.memory, stack_pointer(m, stack) - 4, v),
        ..m
    }
}

/// The machine after a call of `pop`.
pub open spec fn popped(m: Machine, stack: u32) -> Machine {
    Machine {
        operands: m.operands.push(Value::I32(load32(m.memory, stack_pointer(m, stack)))),
        globals: m.globals.update(stack as int, (stack_pointer(m, stack) + 4) as i32),
        ..m
    }
}

/// A call of `push` pushes the top operand onto the data stack.
#[verifier::spinoff_prover]
#[verifier::rlimit(60)]
pub proof fn lemma_call_push(
    funcs: Map<u32, Function>,
    stack: u32,
    push: u32,
    pop: u32,
    code: Seq<Instr>,
    pc: int,
    m: Machine,
    v: i32,
    fuel: nat,
)
    requires
        stack_functions(funcs, stack, push, pop),
        0 <= pc < code.len(),
        code[pc] == Instr::Call(push),
        fuel >= 1,
        m.operands.len() >= 1,
        m.operands.last() == Value::I32(v),
        stack < m.globals.len(),
        4 <= stack_pointer(m, stack) <= m.memory_size,
    ensures
        exec(funcs, code, pc, m, fuel) == exec(funcs, code, pc + 1, pushed(m, stack, v), fuel),
{
    let callee = frame(funcs[push], call_args(m, 1), m);
    assert(callee.locals =~= seq![Value::I32(v)]);
    lemma_push_body(funcs, stack, callee, v, (fuel - 1) as nat);
    lemma_exec_call(funcs, code, pc, m, fuel, push);
    let r = exec(funcs, push_code(stack), 0, callee, (fuel - 1) as nat).unwrap();
    assert(after_call(m, 1, r).operands =~= m.operands.drop_last());
    assert(after_call(m, 1, r) == pushed(m, stack, v));
}

/// A call of `pop` moves the top of the data stack onto the operands.
#[verifier::spinoff_prover]
#[verifier::rlimit(60)]
pub proof fn lemma_call_pop(
    funcs: Map<u32, Function>,
    stack: u32,
    push: u32,
    pop: u32,
    code: Seq<Instr>,
    pc: int,
    m: Machine,
    fuel: nat,
)
    requires
        stack_functions(funcs, stack, push, pop),
        0 <= pc < code.len(),
        code[pc] == Instr::Call(pop),
        fuel >= 1,
        stack < m.globals.len(),
        0 <= stack_pointer(m, stack),
        stack_pointer(m, stack) + 4 <= m.memory_size,
        m.memory_size <= i32::MAX,
    ensures
        exec(funcs, code, pc, m, fuel) == exec(funcs, code, pc + 1, popped(m, stack), fuel),
{
    let callee = frame(funcs[pop], call_args(m, 0), m);
    lemma_pop_body(funcs, stack, callee, (fuel - 1) as nat);
    lemma_exec_call(funcs, code, pc, m, fuel, pop);
    let r = exec(funcs, pop_code(stack), 0, callee, (fuel - 1) as nat).unwrap();
    assert(after_call(m, 0, r).operands =~= popped(m, stack).operands);
    assert(after_call(m, 0, r) == popped(m, stack));
}

/// Pushing `v` adds it on top of the data stack.
#[verifier::spinoff_prover]
#[verifier::rlimit(60)]
pub proof fn lemma_pushed_stack(m: Machine, stack: u32, v: i32, n: nat)
    requires
        stack < m.globals.len(),
        4 <= stack_pointer(m, stack),
    ensures
        stack_pointer(pushed(m, stack, v), stack) == stack_pointer(m, stack) - 4,
        data_stack(pushed(m, stack, v), stack, n + 1) == data_stack(m, stack, n).push(v),
{
    let sp = stack_pointer(m, stack);
    let r = pushed(m, stack, v);
    assert forall|i: int| 0 <= i < n + 1 implies #[trigger] data_stack(r, stack, n + 1)[i]
        == data_stack(m, stack, n).push(v)[i] by {
        lemma_store_load(m.memory, sp - 4, v, sp - 4 + 4 * (n - i));
    }
    assert(data_stack(r, stack, n + 1) =~= data_stack(m, stack, n).push(v));
}

/// Popping takes the top of the data stack; the cells below stay.
#[verifier::spinoff_prover]
#[verifier::rlimit(60)]
pub proof fn lemma_popped_stack(m: Machine, stack: u32, n: nat)
    requires
        stack < m.globals.len(),
        n >= 1,
        stack_pointer(m, stack) + 4 <= i32::MAX,
    ensures
        stack_pointer(popped(m, stack), stack) == stack_pointer(m, stack) + 4,
        popped(m, stack).operands.last() == Value::I32(data_stack(m, stack, n)[n - 1]),
        data_stack(popped(m, stack), stack, (n - 1) as nat) == data_stack(m, stack, n).drop_last(),
{
    assert(data_stack(popped(m, stack), stack, (n - 1) as nat) =~= data_stack(m, stack, n).drop_last());
}

/// Law (`DUP`): `( x -- x x )`.
#[verifier::spinoff_prover]
#[verifier::rlimit(60)]
pub proof fn lemma_dup(funcs: Map<u32, Function>, stack: u32, push: u32, pop: u32, m: Machine, n: nat, fuel: nat)
    requires
        stack_functions(funcs, stack, push, pop),
        stack_fits(m, stack, n),
        n >= 1,
        m.operands.len() == 0,
        fuel >= 1,
    ensures
        exec(funcs, crate::bootstrapper::compiler::dup_code(stack, push).push(Instr::End), 0, m, fuel) is Some,
        ({
            let r = exec(funcs, crate::bootstrapper::compiler::dup_code(stack, push).push(Instr::End), 0, m, fuel).unwrap();
            data_stack(r, stack, n + 1) == data_stack(m, stack, n).push(data_stack(m, stack, n)[n - 1])
        }),
{
    let code = crate::bootstrapper::compiler::dup_code(stack, push).push(Instr::End);
    let sp = stack_pointer(m, stack);
    let x = load32(m.memory, sp);
    let m1 = step(code[0], m).unwrap();
    lemma_exec_step(funcs, code, 0, m, fuel);
    let m2 = step(code[1], m1).unwrap();
    lemma_exec_step(funcs, code, 1, m1, fuel);
    assert(m2.operands =~= seq![Value::I32(x)]);
    let callee = frame(funcs[push], call_args(m2, 1), m2);
    assert(callee.locals =~= seq![Value::I32(x)]);
    lemma_push_body(funcs, stack, callee, x, (fuel - 1) as nat);
    lemma_exec_call(funcs, code, 2, m2, fuel, push);
    let m3 = after_call(m2, 1, exec(funcs, push_code(stack), 0, callee, (fuel - 1) as nat).unwrap());
    lemma_exec_step(funcs, code, 3, m3, fuel);
    lemma_exec_done(funcs, code, m3, fuel);
    let r = exec(funcs, code, 0, m, fuel).unwrap();
    assert(stack_pointer(r, stack) == sp - 4);
    assert forall|i: int| 0 <= i < n + 1 implies #[trigger] data_stack(r, stack, n + 1)[i]
        == data_stack(m, stack, n).push(x)[i] by {
        lemma_store_load(m.memory, sp - 4, x, sp - 4 + 4 * (n - i));
    }
    assert(data_stack(r, stack, n + 1) =~= data_stack(m, stack, n).push(x));
}

/// The data stack whose pointer is global `stack` holds `n` cells within
/// memory, with room for one more below, and the frame a word runs on has
/// no operands and its two parameters as its first locals.
pub open spec fn word_frame(m: Machine, stack: u32, n: nat) -> bool {
    &&& stack_fits(m, stack, n)
    &&& m.operands.len() == 0
    &&& m.locals.len() >= 2
}

/// The body of the function a native word with code `code` runs.
pub open spec fn word_body(code: Seq<Instr>) -> Seq<Instr> {
    code.push(Instr::End)
}

/// Law (binary words such as `+`, `-`, `*`, `AND`, `OR`, `XOR`):
/// `( a b -- r )` where `r` is the result of `op` on `a` and `b`.
#[verifier::spinoff_prover]
#[verifier::rlimit(60)]
pub proof fn lemma_binary(
    funcs: Map<u32, Function>,
    stack: u32,
    push: u32,
    pop: u32,
    op: Instr,
    m: Machine,
    n: nat,
    fuel: nat,
)
    requires
        stack_functions(funcs, stack, push, pop),
        word_frame(m, stack, n),
        n >= 2,
        fuel >= 1,
        crate::semantics::i32_binary(op, data_stack(m, stack, n)[n - 2], data_stack(m, stack, n)[n - 1]) is Some,
    ensures
        ({
            let s = data_stack(m, stack, n);
            let r = exec(funcs, word_body(binary_i32_code(pop, push, op)), 0, m, fuel);
            &&& r is Some
            &&& data_stack(r.unwrap(), stack, (n - 1) as nat) == s.take(n - 2).push(
                crate::semantics::i32_binary(op, s[n - 2], s[n - 1]).unwrap(),
            )
        }),
{
    let s = data_stack(m, stack, n);
    let code = word_body(binary_i32_code(pop, push, op));
    let a = s[n - 2];
    let b = s[n - 1];
    let res = crate::semantics::i32_binary(op, a, b).unwrap();
    lemma_call_pop(funcs, stack, push, pop, code, 0, m, fuel);
    let m1 = popped(m, stack);
    lemma_popped_stack(m, stack, n);
    lemma_exec_step(funcs, code, 1, m1, fuel);
    let m2 = step(code[1], m1).unwrap();
    lemma_call_pop(funcs, stack, push, pop, code, 2, m2, fuel);
    let m3 = popped(m2, stack);
    lemma_popped_stack(m2, stack, (n - 1) as nat);
    assert(data_stack(m2, stack, (n - 1) as nat) == data_stack(m1, stack, (n - 1) as nat));
    lemma_exec_step(funcs, code, 3, m3, fuel);
    let m4 = step(code[3], m3).unwrap();
    assert(m4.operands =~= seq![Value::I32(a), Value::I32(b)]);
    lemma_exec_step(funcs, code, 4, m4, fuel);
    let m5 = step(code[4], m4).unwrap();
    assert(m5.operands =~= seq![Value::I32(res)]);
    lemma_call_push(funcs, stack, push, pop, code, 5, m5, res, fuel);
    let m6 = pushed(m5, stack, res);
    lemma_pushed_stack(m5, stack, res, (n - 2) as nat);
    assert(data_stack(m5, stack, (n - 2) as nat) == data_stack(m3, stack, (n - 2) as nat));
    lemma_exec_step(funcs, code, 6, m6, fuel);
    lemma_exec_done(funcs, code, m6, fuel);
    assert(data_stack(m3, stack, (n - 2) as nat) =~= s.take(n - 2));
}

/// Division rounded toward negative infinity (floored), for a nonzero
/// divisor.
pub open spec fn floor_div(a: int, b: int) -> int {
    if b > 0 {
        a / b
    } else {
        (-a) / (-b)
    }
}

/// The remainder of `floor_div`: it has the divisor's sign.
pub open spec fn floor_mod(a: int, b: int) -> int {
    a - b * floor_div(a, b)
}

/// Floored division is truncated division corrected by one where the signs
/// of the operands differ and the remainder is not zero.
#[verifier::spinoff_prover]
#[verifier::rlimit(60)]
pub proof fn lemma_floored_from_truncated(a: int, b: int)
    requires
        b != 0,
    ensures
        ({
            let q = trunc_div(a, b);
            let r = trunc_rem(a, b);
            let fix = ((a < 0) != (b < 0)) && r != 0;
            &&& floor_div(a, b) == (if fix { q - 1 } else { q })
            &&& floor_mod(a, b) == (if fix { r + b } else { r })
            &&& abs(r) < abs(b)
            &&& (a >= 0 ==> r >= 0)
            &&& (a < 0 ==> r <= 0)
        }),
{
    let x = abs(a);
    let d = abs(b);
    let q0 = x / d;
    let s = x % d;
    vstd::arithmetic::div_mod::lemma_fundamental_div_mod(x, d);
    vstd::arithmetic::div_mod::lemma_mod_pos_bound(x, d);
    assert(x == d * q0 + s);
    assert(trunc_div(a, b) == (if (a < 0) == (b < 0) { q0 } else { -q0 }));
    if a >= 0 && b > 0 {
        assert(trunc_rem(a, b) == s) by (nonlinear_arith)
            requires x == a, d == b, x == d * q0 + s, trunc_rem(a, b) == a - b * q0;
    } else if a < 0 && b < 0 {
        assert(trunc_rem(a, b) == -s) by (nonlinear_arith)
            requires x == -a, d == -b, x == d * q0 + s, trunc_rem(a, b) == a - b * q0;
        assert(-a == q0 * (-b) + s) by (nonlinear_arith)
            requires x == -a, d == -b, x == d * q0 + s;
        vstd::arithmetic::div_mod::lemma_fundamental_div_mod_converse(-a, -b, q0, s);
    } else if a >= 0 {
        assert(trunc_rem(a, b) == s) by (nonlinear_arith)
            requires x == a, d == -b, x == d * q0 + s, trunc_rem(a, b) == a - b * (-q0);
        if s == 0 {
            assert(-a == -q0 * (-b) + 0) by (nonlinear_arith)
                requires x == a, d == -b, x == d * q0 + s, s == 0;
            vstd::arithmetic::div_mod::lemma_fundamental_div_mod_converse(-a, -b, -q0, 0);
        } else {
            assert(-a == (-q0 - 1) * (-b) + (d - s)) by (nonlinear_arith)
                requires x == a, d == -b, x == d * q0 + s;
            vstd::arithmetic::div_mod::lemma_fundamental_div_mod_converse(-a, -b, -q0 - 1, d - s);
            assert(a - b * (-q0 - 1) == s + b) by (nonlinear_arith)
                requires x == a, d == -b, x == d * q0 + s;
        }
    } else {
        assert(trunc_rem(a, b) == -s) by (nonlinear_arith)
            requires x == -a, d == b, x == d * q0 + s, trunc_rem(a, b) == a - b * (-q0);
        if s == 0 {
            assert(a == -q0 * b + 0) by (nonlinear_arith)
                requires x == -a, d == b, x == d * q0 + s, s == 0;
            vstd::arithmetic::div_mod::lemma_fundamental_div_mod_converse(a, b, -q0, 0);
        } else {
            assert(a == (-q0 - 1) * b + (d - s)) by (nonlinear_arith)
                requires x == -a, d == b, x == d * q0 + s;
            vstd::arithmetic::div_mod::lemma_fundamental_div_mod_converse(a, b, -q0 - 1, d - s);
            assert(a - b * (-q0 - 1) == -s + b) by (nonlinear_arith)
                requires x == -a, d == b, x == d * q0 + s;
        }
    }
}

/// For 32-bit operands other than `i32::MIN / -1`, the truncated and
/// floored quotients and remainders are 32-bit numbers.
#[verifier::spinoff_prover]
#[verifier::rlimit(60)]
pub proof fn lemma_division_fits(a: i32, b: i32)
    requires
        b != 0,
        !(a == i32::MIN && b == -1),
    ensures
        i32::MIN <= trunc_div(a as int, b as int) <= i32::MAX,
        i32::MIN <= trunc_rem(a as int, b as int) <= i32::MAX,
        i32::MIN <= floor_div(a as int, b as int) <= i32::MAX,
        i32::MIN <= floor_mod(a as int, b as int) <= i32::MAX,
{
    lemma_floored_from_truncated(a as int, b as int);
    let x = abs(a as int);
    let d = abs(b as int);
    let q0 = x / d;
    let s = x % d;
    vstd::arithmetic::div_mod::lemma_fundamental_div_mod(x, d);
    vstd::arithmetic::div_mod::lemma_mod_pos_bound(x, d);
    assert(q0 <= x) by (nonlinear_arith)
        requires x == d * q0 + s, d >= 1, s >= 0, x >= 0;
    assert(q0 >= 0) by (nonlinear_arith)
        requires x == d * q0 + s, d >= 1, s < d, x >= 0;
    if d == 1 {
        assert(s == 0);
    } else {
        assert(2 * q0 <= x) by (nonlinear_arith)
            requires x == d * q0 + s, d >= 2, s >= 0, q0 >= 0;
    }
}

/// `(a ^ b) < 0` tells whether the signs of `a` and `b` differ, and `&` of
/// two WebAssembly booleans is their conjunction.
#[verifier::spinoff_prover]
#[verifier::rlimit(60)]
pub proof fn lemma_sign_bits(a: i32, b: i32, x: bool, y: bool)
    ensures
        ((a ^ b) < 0) == ((a < 0) != (b < 0)),
        flag(x) & flag(y) == flag(x && y),
{
    assert(((a ^ b) < 0) == ((a < 0) != (b < 0))) by (bit_vector);
    assert(1i32 & 1i32 == 1i32) by (bit_vector);
    assert(1i32 & 0i32 == 0i32) by (bit_vector);
    assert(0i32 & 1i32 == 0i32) by (bit_vector);
    assert(0i32 & 0i32 == 0i32) by (bit_vector);
}

/// The end of `/MOD`: push the remainder, then the quotient less one where
/// `fix` (held in local 0 as a flag) calls for the floored correction.
#[verifier::rlimit(100)]
#[verifier::spinoff_prover]
proof fn lemma_divmod_tail(
    funcs: Map<u32, Function>,
    stack: u32,
    push: u32,
    pop: u32,
    m26: Machine,
    k: nat,
    rem: i32,
    q: i32,
    fix: bool,
    fuel: nat,
)
    requires
        stack_functions(funcs, stack, push, pop),
        stack < m26.globals.len(),
        8 <= stack_pointer(m26, stack),
        stack_pointer(m26, stack) + 4 * k <= m26.memory_size,
        m26.memory_size <= i32::MAX,
        m26.operands =~= seq![Value::I32(rem)],
        m26.locals.len() >= 5,
        m26.locals[3] == Value::I32(q),
        m26.locals[0] == Value::I32(flag(fix)),
        fuel >= 1,
    ensures
        ({
            let code = word_body(divmod_code(pop, push));
            let r = exec(funcs, code, 26, m26, fuel);
            &&& r is Some
            &&& data_stack(r.unwrap(), stack, k + 2) == data_stack(m26, stack, k).push(rem).push(
                crate::layout::sub32(q, if fix { 1i32 } else { 0i32 }),
            )
        }),
{
    let code = word_body(divmod_code(pop, push));
    let sel1 = if fix { 1i32 } else { 0i32 };
    let quo = crate::layout::sub32(q, sel1);
    lemma_call_push(funcs, stack, push, pop, code, 26, m26, rem, fuel);
    let m27 = pushed(m26, stack, rem);
    lemma_pushed_stack(m26, stack, rem, k);
    lemma_exec_step(funcs, code, 27, m27, fuel);
    let m28 = step(code[27], m27).unwrap();
    lemma_exec_step(funcs, code, 28, m28, fuel);
    let m29 = step(code[28], m28).unwrap();
    lemma_exec_step(funcs, code, 29, m29, fuel);
    let m30 = step(code[29], m29).unwrap();
    lemma_exec_step(funcs, code, 30, m30, fuel);
    let m31 = step(code[30], m30).unwrap();
    lemma_exec_step(funcs, code, 31, m31, fuel);
    let m32 = step(code[31], m31).unwrap();
    assert(m32.operands =~= seq![Value::I32(q), Value::I32(sel1)]);
    lemma_exec_step(funcs, code, 32, m32, fuel);
    let m33 = step(code[32], m32).unwrap();
    assert(m33.operands =~= seq![Value::I32(quo)]);
    assert(m33.memory == m27.memory && m33.globals == m27.globals);
    lemma_call_push(funcs, stack, push, pop, code, 33, m33, quo, fuel);
    let m34 = pushed(m33, stack, quo);
    lemma_pushed_stack(m33, stack, quo, k + 1);
    assert(data_stack(m33, stack, k + 1) == data_stack(m27, stack, k + 1));
    lemma_exec_step(funcs, code, 34, m34, fuel);
    let m35 = step(code[34], m34).unwrap();
    lemma_exec_done(funcs, code, m35, fuel);
}

/// Law (`/MOD`): `( a b -- floor_mod(a, b) floor_div(a, b) )`, floored
/// division, for a nonzero divisor `b` and other than `i32::MIN -1`: the
/// quotient is rounded toward negative infinity and the remainder has the
/// divisor's sign.
#[verifier::rlimit(100)]
#[verifier::spinoff_prover]
pub proof fn lemma_divmod(funcs: Map<u32, Function>, stack: u32, push: u32, pop: u32, m: Machine, n: nat, fuel: nat)
    requires
        stack_functions(funcs, stack, push, pop),
        word_frame(m, stack, n),
        m.locals.len() >= 5,
        n >= 2,
        fuel >= 1,
        data_stack(m, stack, n)[n - 1] != 0,
        !(data_stack(m, stack, n)[n - 2] == i32::MIN && data_stack(m, stack, n)[n - 1] == -1),
    ensures
        ({
            let s = data_stack(m, stack, n);
            let a = s[n - 2] as int;
            let b = s[n - 1] as int;
            let r = exec(funcs, word_body(divmod_code(pop, push)), 0, m, fuel);
            &&& r is Some
            &&& data_stack(r.unwrap(), stack, n) == s.take(n - 2).push(floor_mod(a, b) as i32).push(
                floor_div(a, b) as i32,
            )
            &&& i32::MIN <= floor_div(a, b) <= i32::MAX
            &&& i32::MIN <= floor_mod(a, b) <= i32::MAX
        }),
{
    let s = data_stack(m, stack, n);
    let code = word_body(divmod_code(pop, push));
    let a = s[n - 2];
    let b = s[n - 1];
    lemma_division_fits(a, b);
    lemma_floored_from_truncated(a as int, b as int);
    let q = trunc_div(a as int, b as int) as i32;
    let r = trunc_rem(a as int, b as int) as i32;
    let fix = ((a < 0) != (b < 0)) && r != 0;
    lemma_sign_bits(a, b, (a ^ b) < 0, r != 0);
    let fl = flag(fix);
    let sel = if fix { b } else { 0i32 };
    let sel1 = if fix { 1i32 } else { 0i32 };
    let rem = add32(r, sel);
    let quo = crate::layout::sub32(q, sel1);
    assert(rem == floor_mod(a as int, b as int));
    assert(quo == floor_div(a as int, b as int));
    lemma_popped_stack(m, stack, n);
    lemma_popped_stack(popped(m, stack), stack, (n - 1) as nat);
    let m0 = m;
    lemma_call_pop(funcs, stack, push, pop, code, 0, m0, fuel);
    let m1 = popped(m0, stack);
    assert(m1.operands =~= seq![Value::I32(b)]);
    lemma_exec_step(funcs, code, 1, m1, fuel);
    let m2 = step(code[1], m1).unwrap();
    assert(m2.operands =~= Seq::<Value>::empty());
    lemma_call_pop(funcs, stack, push, pop, code, 2, m2, fuel);
    let m3 = popped(m2, stack);
    assert(m3.operands =~= seq![Value::I32(a)]);
    lemma_exec_step(funcs, code, 3, m3, fuel);
    let m4 = step(code[3], m3).unwrap();
    lemma_exec_step(funcs, code, 4, m4, fuel);
    let m5 = step(code[4], m4).unwrap();
    assert(m5.operands =~= seq![Value::I32(a), Value::I32(b)]);
    lemma_exec_step(funcs, code, 5, m5, fuel);
    let m6 = step(code[5], m5).unwrap();
    assert(m6.operands =~= seq![Value::I32(q)]);
    lemma_exec_step(funcs, code, 6, m6, fuel);
    let m7 = step(code[6], m6).unwrap();
    assert(m7.operands =~= Seq::<Value>::empty());
    lemma_exec_step(funcs, code, 7, m7, fuel);
    let m8 = step(code[7], m7).unwrap();
    lemma_exec_step(funcs, code, 8, m8, fuel);
    let m9 = step(code[8], m8).unwrap();
    assert(m9.operands =~= seq![Value::I32(a), Value::I32(b)]);
    lemma_exec_step(funcs, code, 9, m9, fuel);
    let m10 = step(code[9], m9).unwrap();
    assert(m10.operands =~= seq![Value::I32(r)]);
    lemma_exec_step(funcs, code, 10, m10, fuel);
    let m11 = step(code[10], m10).unwrap();
    assert(m11.operands =~= Seq::<Value>::empty());
    lemma_exec_step(funcs, code, 11, m11, fuel);
    let m12 = step(code[11], m11).unwrap();
    lemma_exec_step(funcs, code, 12, m12, fuel);
    let m13 = step(code[12], m12).unwrap();
    lemma_exec_step(funcs, code, 13, m13, fuel);
    let m14 = step(code[13], m13).unwrap();
    lemma_exec_step(funcs, code, 14, m14, fuel);
    let m15 = step(code[14], m14).unwrap();
    lemma_exec_step(funcs, code, 15, m15, fuel);
    let m16 = step(code[15], m15).unwrap();
    lemma_exec_step(funcs, code, 16, m16, fuel);
    let m17 = step(code[16], m16).unwrap();
    assert(m17.operands =~= seq![Value::I32(r), Value::I32(b), Value::I32(0i32), Value::I32(a ^ b)]);
    lemma_exec_step(funcs, code, 17, m17, fuel);
    let m18 = step(code[17], m17).unwrap();
    lemma_exec_step(funcs, code, 18, m18, fuel);
    let m19 = step(code[18], m18).unwrap();
    assert(m19.operands =~= seq![Value::I32(r), Value::I32(b), Value::I32(0i32), Value::I32(flag((a ^ b) < 0))]);
    lemma_exec_step(funcs, code, 19, m19, fuel);
    let m20 = step(code[19], m19).unwrap();
    lemma_exec_step(funcs, code, 20, m20, fuel);
    let m21 = step(code[20], m20).unwrap();
    lemma_exec_step(funcs, code, 21, m21, fuel);
    let m22 = step(code[21], m21).unwrap();
    assert(m22.operands =~= seq![Value::I32(r), Value::I32(b), Value::I32(0i32), Value::I32(flag((a ^ b) < 0)), Value::I32(flag(r != 0))]);
    lemma_exec_step(funcs, code, 22, m22, fuel);
    let m23 = step(code[22], m22).unwrap();
    assert(m23.operands =~= seq![Value::I32(r), Value::I32(b), Value::I32(0i32), Value::I32(fl)]);
    lemma_exec_step(funcs, code, 23, m23, fuel);
    let m24 = step(code[23], m23).unwrap();
    lemma_exec_step(funcs, code, 24, m24, fuel);
    let m25 = step(code[24], m24).unwrap();
    assert(m25.operands =~= seq![Value::I32(r), Value::I32(sel)]);
    lemma_exec_step(funcs, code, 25, m25, fuel);
    let m26 = step(code[25], m25).unwrap();
    assert(m26.operands =~= seq![Value::I32(rem)]);
    assert(m26.memory == m3.memory && m26.globals == m3.globals);
    assert(data_stack(m26, stack, (n - 2) as nat) == data_stack(m3, stack, (n - 2) as nat));
    lemma_divmod_tail(funcs, stack, push, pop, m26, (n - 2) as nat, rem, q, fix, fuel);
    assert(data_stack(m3, stack, (n - 2) as nat) =~= s.take(n - 2));
}

/// Law (`SWAP`): `( a b -- b a )`: the top two cells change places.
#[verifier::spinoff_prover]
#[verifier::rlimit(60)]
pub proof fn lemma_swap(funcs: Map<u32, Function>, stack: u32, push: u32, pop: u32, m: Machine, n: nat, fuel: nat)
    requires
        stack_functions(funcs, stack, push, pop),
        word_frame(m, stack, n),
        n >= 2,
    ensures
        ({
            let s = data_stack(m, stack, n);
            let r = exec(funcs, word_body(swap_code(stack)), 0, m, fuel);
            &&& r is Some
            &&& data_stack(r.unwrap(), stack, n) == s.take(n - 2).push(s[n - 1]).push(s[n - 2])
        }),
{
    let s = data_stack(m, stack, n);
    let code = word_body(swap_code(stack));
    let sp = stack_pointer(m, stack);
    let m0 = m;
    lemma_exec_step(funcs, code, 0, m0, fuel);
    let m1 = step(code[0], m0).unwrap();
    lemma_exec_step(funcs, code, 1, m1, fuel);
    let m2 = step(code[1], m1).unwrap();
    lemma_exec_step(funcs, code, 2, m2, fuel);
    let m3 = step(code[2], m2).unwrap();
    lemma_exec_step(funcs, code, 3, m3, fuel);
    let m4 = step(code[3], m3).unwrap();
    lemma_exec_step(funcs, code, 4, m4, fuel);
    let m5 = step(code[4], m4).unwrap();
    lemma_exec_step(funcs, code, 5, m5, fuel);
    let m6 = step(code[5], m5).unwrap();
    lemma_exec_step(funcs, code, 6, m6, fuel);
    let m7 = step(code[6], m6).unwrap();
    lemma_exec_step(funcs, code, 7, m7, fuel);
    let m8 = step(code[7], m7).unwrap();
    lemma_exec_step(funcs, code, 8, m8, fuel);
    let m9 = step(code[8], m8).unwrap();
    lemma_exec_step(funcs, code, 9, m9, fuel);
    let m10 = step(code[9], m9).unwrap();
    lemma_exec_done(funcs, code, m10, fuel);
    let r = m10;
    assert forall|i: int| 0 <= i < n implies #[trigger] data_stack(r, stack, n)[i] == (s.take(n - 2).push(s[n - 1]).push(s[n - 2]))[i] by {
        lemma_store_load(m.memory, sp, s[n - 2], sp + 4 * (n - 1 - i));
        lemma_store_load(store32(m.memory, sp, s[n - 2]), sp + 4, s[n - 1], sp + 4 * (n - 1 - i));
    }
    assert(data_stack(r, stack, n) =~= s.take(n - 2).push(s[n - 1]).push(s[n - 2]));
}

/// Law (`OVER`): `( a b -- a b a )`: the second cell is copied on top.
#[verifier::spinoff_prover]
#[verifier::rlimit(60)]
pub proof fn lemma_over(funcs: Map<u32, Function>, stack: u32, push: u32, pop: u32, m: Machine, n: nat, fuel: nat)
    requires
        stack_functions(funcs, stack, push, pop),
        word_frame(m, stack, n),
        n >= 2,
    ensures
        ({
            let s = data_stack(m, stack, n);
            let r = exec(funcs, word_body(over_code(stack)), 0, m, fuel);
            &&& r is Some
            &&& data_stack(r.unwrap(), stack, n + 1) == s.push(s[n - 2])
        }),
{
    let s = data_stack(m, stack, n);
    let code = word_body(over_code(stack));
    let sp = stack_pointer(m, stack);
    let m0 = m;
    lemma_exec_step(funcs, code, 0, m0, fuel);
    let m1 = step(code[0], m0).unwrap();
    lemma_exec_step(funcs, code, 1, m1, fuel);
    let m2 = step(code[1], m1).unwrap();
    lemma_exec_step(funcs, code, 2, m2, fuel);
    let m3 = step(code[2], m2).unwrap();
    lemma_exec_step(funcs, code, 3, m3, fuel);
    let m4 = step(code[3], m3).unwrap();
    lemma_exec_step(funcs, code, 4, m4, fuel);
    let m5 = step(code[4], m4).unwrap();
    lemma_exec_step(funcs, code, 5, m5, fuel);
    let m6 = step(code[5], m5).unwrap();
    lemma_exec_step(funcs, code, 6, m6, fuel);
    let m7 = step(code[6], m6).unwrap();
    lemma_exec_step(funcs, code, 7, m7, fuel);
    let m8 = step(code[7], m7).unwrap();
    lemma_exec_step(funcs, code, 8, m8, fuel);
    let m9 = step(code[8], m8).unwrap();
    lemma_exec_step(funcs, code, 9, m9, fuel);
    let m10 = step(code[9], m9).unwrap();
    lemma_exec_done(funcs, code, m10, fuel);
    let r = m10;
    assert forall|i: int| 0 <= i < n + 1 implies #[trigger] data_stack(r, stack, n + 1)[i] == (s.push(s[n - 2]))[i] by {
        lemma_store_load(m.memory, sp - 4, s[n - 2], sp + 4 * (n + 1 - 1 - i));
    }
    assert(data_stack(r, stack, n + 1) =~= s.push(s[n - 2]));
}

/// Law (`NIP`): `( a b -- b )`: the second cell is dropped.
#[verifier::spinoff_prover]
#[verifier::rlimit(60)]
pub proof fn lemma_nip(funcs: Map<u32, Function>, stack: u32, push: u32, pop: u32, m: Machine, n: nat, fuel: nat)
    requires
        stack_functions(funcs, stack, push, pop),
        word_frame(m, stack, n),
        n >= 2,
    ensures
        ({
            let s = data_stack(m, stack, n);
            let r = exec(funcs, word_body(nip_code(stack)), 0, m, fuel);
            &&& r is Some
            &&& data_stack(r.unwrap(), stack, (n - 1) as nat) == s.take(n - 2).push(s[n - 1])
        }),
{
    let s = data_stack(m, stack, n);
    let code = word_body(nip_code(stack));
    let sp = stack_pointer(m, stack);
    let m0 = m;
    lemma_exec_step(funcs, code, 0, m0, fuel);
    let m1 = step(code[0], m0).unwrap();
    lemma_exec_step(funcs, code, 1, m1, fuel);
    let m2 = step(code[1], m1).unwrap();
    lemma_exec_step(funcs, code, 2, m2, fuel);
    let m3 = step(code[2], m2).unwrap();
    lemma_exec_step(funcs, code, 3, m3, fuel);
    let m4 = step(code[3], m3).unwrap();
    lemma_exec_step(funcs, code, 4, m4, fuel);
    let m5 = step(code[4], m4).unwrap();
    lemma_exec_step(funcs, code, 5, m5, fuel);
    let m6 = step(code[5], m5).unwrap();
    lemma_exec_step(funcs, code, 6, m6, fuel);
    let m7 = step(code[6], m6).unwrap();
    lemma_exec_step(funcs, code, 7, m7, fuel);
    let m8 = step(code[7], m7).unwrap();
    lemma_exec_step(funcs, code, 8, m8, fuel);
    let m9 = step(code[8], m8).unwrap();
    lemma_exec_step(funcs, code, 9, m9, fuel);
    let m10 = step(code[9], m9).unwrap();
    lemma_exec_done(funcs, code, m10, fuel);
    let r = m10;
    assert forall|i: int| 0 <= i < (n - 1) as nat implies #[trigger] data_stack(r, stack, (n - 1) as nat)[i] == (s.take(n - 2).push(s[n - 1]))[i] by {
        lemma_store_load(m.memory, sp + 4, s[n - 1], sp + 4 * ((n - 1) as nat - 1 - i));
    }
    assert(data_stack(r, stack, (n - 1) as nat) =~= s.take(n - 2).push(s[n - 1]));
}

/// Law (`ROT`): `( a b c -- b c a )`: the third cell comes to the top.
#[verifier::spinoff_prover]
#[verifier::rlimit(60)]
pub proof fn lemma_rot(funcs: Map<u32, Function>, stack: u32, push: u32, pop: u32, m: Machine, n: nat, fuel: nat)
    requires
        stack_functions(funcs, stack, push, pop),
        word_frame(m, stack, n),
        n >= 3,
    ensures
        ({
            let s = data_stack(m, stack, n);
            let r = exec(funcs, word_body(rot_code(stack)), 0, m, fuel);
            &&& r is Some
            &&& data_stack(r.unwrap(), stack, n) == s.take(n - 3).push(s[n - 2]).push(s[n - 1]).push(s[n - 3])
        }),
{
    let s = data_stack(m, stack, n);
    let code = word_body(rot_code(stack));
    let sp = stack_pointer(m, stack);
    let m0 = m;
    lemma_exec_step(funcs, code, 0, m0, fuel);
    let m1 = step(code[0], m0).unwrap();
    lemma_exec_step(funcs, code, 1, m1, fuel);
    let m2 = step(code[1], m1).unwrap();
    lemma_exec_step(funcs, code, 2, m2, fuel);
    let m3 = step(code[2], m2).unwrap();
    lemma_exec_step(funcs, code, 3, m3, fuel);
    let m4 = step(code[3], m3).unwrap();
    lemma_exec_step(funcs, code, 4, m4, fuel);
    let m5 = step(code[4], m4).unwrap();
    lemma_exec_step(funcs, code, 5, m5, fuel);
    let m6 = step(code[5], m5).unwrap();
    lemma_exec_step(funcs, code, 6, m6, fuel);
    let m7 = step(code[6], m6).unwrap();
    lemma_exec_step(funcs, code, 7, m7, fuel);
    let m8 = step(code[7], m7).unwrap();
    lemma_exec_step(funcs, code, 8, m8, fuel);
    let m9 = step(code[8], m8).unwrap();
    lemma_exec_step(funcs, code, 9, m9, fuel);
    let m10 = step(code[9], m9).unwrap();
    lemma_exec_step(funcs, code, 10, m10, fuel);
    let m11 = step(code[10], m10).unwrap();
    lemma_exec_step(funcs, code, 11, m11, fuel);
    let m12 = step(code[11], m11).unwrap();
    lemma_exec_step(funcs, code, 12, m12, fuel);
    let m13 = step(code[12], m12).unwrap();
    lemma_exec_step(funcs, code, 13, m13, fuel);
    let m14 = step(code[13], m13).unwrap();
    lemma_exec_done(funcs, code, m14, fuel);
    let r = m14;
    assert forall|i: int| 0 <= i < n implies #[trigger] data_stack(r, stack, n)[i] == (s.take(n - 3).push(s[n - 2]).push(s[n - 1]).push(s[n - 3]))[i] by {
        lemma_store_load(m.memory, sp, s[n - 3], sp + 4 * (n - 1 - i));
        lemma_store_load(store32(m.memory, sp, s[n - 3]), sp + 8, s[n - 2], sp + 4 * (n - 1 - i));
        lemma_store_load(store32(store32(m.memory, sp, s[n - 3]), sp + 8, s[n - 2]), sp + 4, s[n - 1], sp + 4 * (n - 1 - i));
    }
    assert(data_stack(r, stack, n) =~= s.take(n - 3).push(s[n - 2]).push(s[n - 1]).push(s[n - 3]));
}

/// Law (`-ROT`): `( a b c -- c a b )`: the top cell goes to the third place.
#[verifier::spinoff_prover]
#[verifier::rlimit(60)]
pub proof fn lemma_minus_rot(funcs: Map<u32, Function>, stack: u32, push: u32, pop: u32, m: Machine, n: nat, fuel: nat)
    requires
        stack_functions(funcs, stack, push, pop),
        word_frame(m, stack, n),
        n >= 3,
    ensures
        ({
            let s = data_stack(m, stack, n);
            let r = exec(funcs, word_body(minus_rot_code(stack)), 0, m, fuel);
            &&& r is Some
            &&& data_stack(r.unwrap(), stack, n) == s.take(n - 3).push(s[n - 1]).push(s[n - 3]).push(s[n - 2])
        }),
{
    let s = data_stack(m, stack, n);
    let code = word_body(minus_rot_code(stack));
    let sp = stack_pointer(m, stack);
    let m0 = m;
    lemma_exec_step(funcs, code, 0, m0, fuel);
    let m1 = step(code[0], m0).unwrap();
    lemma_exec_step(funcs, code, 1, m1, fuel);
    let m2 = step(code[1], m1).unwrap();
    lemma_exec_step(funcs, code, 2, m2, fuel);
    let m3 = step(code[2], m2).unwrap();
    lemma_exec_step(funcs, code, 3, m3, fuel);
    let m4 = step(code[3], m3).unwrap();
    lemma_exec_step(funcs, code, 4, m4, fuel);
    let m5 = step(code[4], m4).unwrap();
    lemma_exec_step(funcs, code, 5, m5, fuel);
    let m6 = step(code[5], m5).unwrap();
    lemma_exec_step(funcs, code, 6, m6, fuel);
    let m7 = step(code[6], m6).unwrap();
    lemma_exec_step(funcs, code, 7, m7, fuel);
    let m8 = step(code[7], m7).unwrap();
    lemma_exec_step(funcs, code, 8, m8, fuel);
    let m9 = step(code[8], m8).unwrap();
    lemma_exec_step(funcs, code, 9, m9, fuel);
    let m10 = step(code[9], m9).unwrap();
    lemma_exec_step(funcs, code, 10, m10, fuel);
    let m11 = step(code[10], m10).unwrap();
    lemma_exec_step(funcs, code, 11, m11, fuel);
    let m12 = step(code[11], m11).unwrap();
    lemma_exec_step(funcs, code, 12, m12, fuel);
    let m13 = step(code[12], m12).unwrap();
    lemma_exec_step(funcs, code, 13, m13, fuel);
    let m14 = step(code[13], m13).unwrap();
    lemma_exec_done(funcs, code, m14, fuel);
    let r = m14;
    assert forall|i: int| 0 <= i < n implies #[trigger] data_stack(r, stack, n)[i] == (s.take(n - 3).push(s[n - 1]).push(s[n - 3]).push(s[n - 2]))[i] by {
        lemma_store_load(m.memory, sp + 4, s[n - 3], sp + 4 * (n - 1 - i));
        lemma_store_load(store32(m.memory, sp + 4, s[n - 3]), sp, s[n - 2], sp + 4 * (n - 1 - i));
        lemma_store_load(store32(store32(m.memory, sp + 4, s[n - 3]), sp, s[n - 2]), sp + 8, s[n - 1], sp + 4 * (n - 1 - i));
    }
    assert(data_stack(r, stack, n) =~= s.take(n - 3).push(s[n - 1]).push(s[n - 3]).push(s[n - 2]));
}

/// Law (`DROP`): `( a -- )`: the top cell is dropped.
#[verifier::spinoff_prover]
#[verifier::rlimit(60)]
pub proof fn lemma_drop(funcs: Map<u32, Function>, stack: u32, push: u32, pop: u32, m: Machine, n: nat, fuel: nat)
    requires
        stack_functions(funcs, stack, push, pop),
        word_frame(m, stack, n),
        n >= 1,
    ensures
        ({
            let s = data_stack(m, stack, n);
            let r = exec(funcs, word_body(drop_code(stack)), 0, m, fuel);
            &&& r is Some
            &&& data_stack(r.unwrap(), stack, (n - 1) as nat) == s.drop_last()
        }),
{
    let s = data_stack(m, stack, n);
    let code = word_body(drop_code(stack));
    let sp = stack_pointer(m, stack);
    let m0 = m;
    lemma_exec_step(funcs, code, 0, m0, fuel);
    let m1 = step(code[0], m0).unwrap();
    lemma_exec_step(funcs, code, 1, m1, fuel);
    let m2 = step(code[1], m1).unwrap();
    lemma_exec_step(funcs, code, 2, m2, fuel);
    let m3 = step(code[2], m2).unwrap();
    lemma_exec_step(funcs, code, 3, m3, fuel);
    let m4 = step(code[3], m3).unwrap();
    lemma_exec_step(funcs, code, 4, m4, fuel);
    let m5 = step(code[4], m4).unwrap();
    lemma_exec_done(funcs, code, m5, fuel);
    let r = m5;
    assert forall|i: int| 0 <= i < (n - 1) as nat implies #[trigger] data_stack(r, stack, (n - 1) as nat)[i] == (s.drop_last())[i] by {
        
    }
    assert(data_stack(r, stack, (n - 1) as nat) =~= s.drop_last());
}

/// Law (`NEGATE`): `( x -- 0 - x )`, wrapping.
#[verifier::spinoff_prover]
#[verifier::rlimit(60)]
pub proof fn lemma_negate(funcs: Map<u32, Function>, stack: u32, push: u32, pop: u32, m: Machine, n: nat, fuel: nat)
    requires
        stack_functions(funcs, stack, push, pop),
        word_frame(m, stack, n),
        n >= 1,
        fuel >= 1,
    ensures
        ({
            let s = data_stack(m, stack, n);
            let r = exec(funcs, word_body(negate_code(push, pop)), 0, m, fuel);
            &&& r is Some
            &&& data_stack(r.unwrap(), stack, n) == s.take(n - 1).push(sub32(0, s[n - 1]))
        }),
{
    let s = data_stack(m, stack, n);
    let code = word_body(negate_code(push, pop));
    let x = s[n - 1];
    let res = sub32(0, x);
    lemma_popped_stack(m, stack, n);
    let m0 = m;
    lemma_exec_step(funcs, code, 0, m0, fuel);
    let m1 = step(code[0], m0).unwrap();
    lemma_call_pop(funcs, stack, push, pop, code, 1, m1, fuel);
    let m2 = popped(m1, stack);
    assert(m2.operands =~= seq![Value::I32(0i32), Value::I32(x)]);
    lemma_exec_step(funcs, code, 2, m2, fuel);
    let m3 = step(code[2], m2).unwrap();
    assert(m3.operands =~= seq![Value::I32(res)]);
    lemma_call_push(funcs, stack, push, pop, code, 3, m3, res, fuel);
    let m4 = pushed(m3, stack, res);
    lemma_exec_step(funcs, code, 4, m4, fuel);
    let m5 = step(code[4], m4).unwrap();
    lemma_exec_done(funcs, code, m5, fuel);
    lemma_pushed_stack(m3, stack, res, (n - 1) as nat);
    assert(data_stack(m3, stack, (n - 1) as nat) == data_stack(m2, stack, (n - 1) as nat));
    assert(data_stack(m2, stack, (n - 1) as nat) =~= s.take(n - 1));
}

/// Law (`ABS`): `( x -- |x| )` for `x` other than `i32::MIN`.
#[verifier::spinoff_prover]
#[verifier::rlimit(60)]
pub proof fn lemma_abs(funcs: Map<u32, Function>, stack: u32, push: u32, pop: u32, m: Machine, n: nat, fuel: nat)
    requires
        stack_functions(funcs, stack, push, pop),
        word_frame(m, stack, n),
        n >= 1,
        fuel >= 1,
        data_stack(m, stack, n)[n - 1] != i32::MIN,
    ensures
        ({
            let s = data_stack(m, stack, n);
            let r = exec(funcs, word_body(abs_code(push, pop)), 0, m, fuel);
            &&& r is Some
            &&& data_stack(r.unwrap(), stack, n) == s.take(n - 1).push(abs(s[n - 1] as int) as i32)
        }),
{
    let s = data_stack(m, stack, n);
    let code = word_body(abs_code(push, pop));
    let x = s[n - 1];
    let sg = x >> 31u32;
    assert(x >= 0 ==> x >> 31u32 == 0i32) by (bit_vector);
    assert(x < 0 ==> x >> 31u32 == -1i32) by (bit_vector);
    assert(0i32 ^ x == x) by (bit_vector);
    assert(-1i32 ^ x == -x - 1) by (bit_vector)
        requires x != i32::MIN;
    let res = sub32(sg ^ x, sg);
    assert(res == abs(x as int));
    lemma_popped_stack(m, stack, n);
    let m0 = m;
    lemma_call_pop(funcs, stack, push, pop, code, 0, m0, fuel);
    let m1 = popped(m0, stack);
    assert(m1.operands =~= seq![Value::I32(x)]);
    lemma_exec_step(funcs, code, 1, m1, fuel);
    let m2 = step(code[1], m1).unwrap();
    lemma_exec_step(funcs, code, 2, m2, fuel);
    let m3 = step(code[2], m2).unwrap();
    lemma_exec_step(funcs, code, 3, m3, fuel);
    let m4 = step(code[3], m3).unwrap();
    assert(m4.operands =~= seq![Value::I32(sg)]);
    lemma_exec_step(funcs, code, 4, m4, fuel);
    let m5 = step(code[4], m4).unwrap();
    lemma_exec_step(funcs, code, 5, m5, fuel);
    let m6 = step(code[5], m5).unwrap();
    lemma_exec_step(funcs, code, 6, m6, fuel);
    let m7 = step(code[6], m6).unwrap();
    assert(m7.operands =~= seq![Value::I32(sg ^ x)]);
    lemma_exec_step(funcs, code, 7, m7, fuel);
    let m8 = step(code[7], m7).unwrap();
    lemma_exec_step(funcs, code, 8, m8, fuel);
    let m9 = step(code[8], m8).unwrap();
    assert(m9.operands =~= seq![Value::I32(res)]);
    lemma_call_push(funcs, stack, push, pop, code, 9, m9, res, fuel);
    let m10 = pushed(m9, stack, res);
    lemma_exec_step(funcs, code, 10, m10, fuel);
    let m11 = step(code[10], m10).unwrap();
    lemma_exec_done(funcs, code, m11, fuel);
    lemma_pushed_stack(m9, stack, res, (n - 1) as nat);
    assert(data_stack(m9, stack, (n - 1) as nat) == data_stack(m1, stack, (n - 1) as nat));
    assert(data_stack(m1, stack, (n - 1) as nat) =~= s.take(n - 1));
}

/// Law (comparison words such as `=`, `<>`, `<`, `U<`, `>`, `<=`, `>=`):
/// `( a b -- flag )` where `flag` is `0 - f` for the WebAssembly boolean `f`
/// that `op` gives on `a` and `b`: -1 (all bits set) for true, 0 for false.
#[verifier::spinoff_prover]
#[verifier::rlimit(60)]
pub proof fn lemma_comparison(
    funcs: Map<u32, Function>,
    stack: u32,
    push: u32,
    pop: u32,
    op: Instr,
    m: Machine,
    n: nat,
    fuel: nat,
)
    requires
        stack_functions(funcs, stack, push, pop),
        word_frame(m, stack, n),
        n >= 2,
        fuel >= 1,
        i32_binary(op, data_stack(m, stack, n)[n - 2], data_stack(m, stack, n)[n - 1]) is Some,
    ensures
        ({
            let s = data_stack(m, stack, n);
            let r = exec(funcs, word_body(binary_i32_bool_code(pop, push, op)), 0, m, fuel);
            &&& r is Some
            &&& data_stack(r.unwrap(), stack, (n - 1) as nat) == s.take(n - 2).push(
                sub32(0, i32_binary(op, s[n - 2], s[n - 1]).unwrap()),
            )
        }),
{
    let s = data_stack(m, stack, n);
    let code = word_body(binary_i32_bool_code(pop, push, op));
    let a = s[n - 2];
    let b = s[n - 1];
    let f = i32_binary(op, a, b).unwrap();
    let res = sub32(0, f);
    lemma_popped_stack(m, stack, n);
    lemma_popped_stack(popped(m, stack), stack, (n - 1) as nat);
    let m0 = m;
    lemma_exec_step(funcs, code, 0, m0, fuel);
    let m1 = step(code[0], m0).unwrap();
    lemma_call_pop(funcs, stack, push, pop, code, 1, m1, fuel);
    let m2 = popped(m1, stack);
    assert(m2.operands =~= seq![Value::I32(0i32), Value::I32(b)]);
    lemma_exec_step(funcs, code, 2, m2, fuel);
    let m3 = step(code[2], m2).unwrap();
    assert(m3.operands =~= seq![Value::I32(0i32)]);
    lemma_call_pop(funcs, stack, push, pop, code, 3, m3, fuel);
    let m4 = popped(m3, stack);
    assert(m4.operands =~= seq![Value::I32(0i32), Value::I32(a)]);
    lemma_exec_step(funcs, code, 4, m4, fuel);
    let m5 = step(code[4], m4).unwrap();
    lemma_exec_step(funcs, code, 5, m5, fuel);
    let m6 = step(code[5], m5).unwrap();
    assert(m6.operands =~= seq![Value::I32(0i32), Value::I32(f)]);
    lemma_exec_step(funcs, code, 6, m6, fuel);
    let m7 = step(code[6], m6).unwrap();
    assert(m7.operands =~= seq![Value::I32(res)]);
    lemma_call_push(funcs, stack, push, pop, code, 7, m7, res, fuel);
    let m8 = pushed(m7, stack, res);
    lemma_exec_step(funcs, code, 8, m8, fuel);
    let m9 = step(code[8], m8).unwrap();
    lemma_exec_done(funcs, code, m9, fuel);
    lemma_pushed_stack(m7, stack, res, (n - 2) as nat);
    assert(data_stack(m7, stack, (n - 2) as nat) == data_stack(m4, stack, (n - 2) as nat));
    assert(data_stack(m4, stack, (n - 2) as nat) =~= s.take(n - 2));
}

/// Law (`CSET`): `( mask addr -- )` sets the bits of `mask` in the cell at `addr`, for
/// a cell within memory that is not one of the stack cells left.
#[verifier::spinoff_prover]
#[verifier::rlimit(60)]
pub proof fn lemma_cset(funcs: Map<u32, Function>, stack: u32, push: u32, pop: u32, m: Machine, n: nat, fuel: nat)
    requires
        stack_functions(funcs, stack, push, pop),
        word_frame(m, stack, n),
        n >= 2,
        fuel >= 1,
        0 <= data_stack(m, stack, n)[n - 1],
        data_stack(m, stack, n)[n - 1] + 4 <= m.memory_size,
        data_stack(m, stack, n)[n - 1] + 4 <= stack_pointer(m, stack) + 8
            || stack_pointer(m, stack) + 4 * n <= data_stack(m, stack, n)[n - 1],
    ensures
        ({
            let s = data_stack(m, stack, n);
            let mask = s[n - 2];
            let addr = s[n - 1];
            let cell = load32(m.memory, addr as int);
            let r = exec(funcs, word_body(bitmanip_code(pop, [Instr::I32Or]@)), 0, m, fuel);
            &&& r is Some
            &&& data_stack(r.unwrap(), stack, (n - 2) as nat) == s.take(n - 2)
            &&& load32(r.unwrap().memory, addr as int) == cell | mask
        }),
{
    let s = data_stack(m, stack, n);
    let code = word_body(bitmanip_code(pop, [Instr::I32Or]@));
    let mask = s[n - 2];
    let addr = s[n - 1];
    let cell = load32(m.memory, addr as int);
    let res = cell | mask;
    lemma_popped_stack(m, stack, n);
    lemma_popped_stack(popped(m, stack), stack, (n - 1) as nat);
    assert(code =~= seq![Instr::Call(pop), Instr::TeeLocal(0), Instr::GetLocal(0), Instr::I32Load(2, 0), Instr::Call(pop)]
        + [Instr::I32Or]@ + seq![Instr::I32Store(2, 0), Instr::End]);
    let m0 = m;
    lemma_call_pop(funcs, stack, push, pop, code, 0, m0, fuel);
    let m1 = popped(m0, stack);
    assert(m1.operands =~= seq![Value::I32(addr)]);
    lemma_exec_step(funcs, code, 1, m1, fuel);
    let m2 = step(code[1], m1).unwrap();
    lemma_exec_step(funcs, code, 2, m2, fuel);
    let m3 = step(code[2], m2).unwrap();
    lemma_exec_step(funcs, code, 3, m3, fuel);
    let m4 = step(code[3], m3).unwrap();
    assert(m4.operands =~= seq![Value::I32(addr), Value::I32(cell)]);
    lemma_call_pop(funcs, stack, push, pop, code, 4, m4, fuel);
    let m5 = popped(m4, stack);
    assert(m5.operands =~= seq![Value::I32(addr), Value::I32(cell), Value::I32(mask)]);
    lemma_exec_step(funcs, code, 5, m5, fuel);
    let m6 = step(code[5], m5).unwrap();
    assert(m6.operands =~= seq![Value::I32(addr), Value::I32(res)]);
    lemma_exec_step(funcs, code, 6, m6, fuel);
    let m7 = step(code[6], m6).unwrap();
    assert(m7.operands =~= Seq::<Value>::empty());
    lemma_exec_step(funcs, code, 7, m7, fuel);
    let m8 = step(code[7], m7).unwrap();
    lemma_exec_done(funcs, code, m8, fuel);
    let r = m8;
    lemma_store_load(m.memory, addr as int, res, addr as int);
    assert forall|i: int| 0 <= i < n - 2 implies #[trigger] data_stack(r, stack, (n - 2) as nat)[i] == s.take(n - 2)[i] by {
        lemma_store_load(m.memory, addr as int, res, stack_pointer(m, stack) + 8 + 4 * (n - 3 - i));
    }
    assert(data_stack(r, stack, (n - 2) as nat) =~= s.take(n - 2));
}

/// Law (`CRESET`): `( mask addr -- )` clears the bits of `mask` in the cell at `addr`, for
/// a cell within memory that is not one of the stack cells left.
#[verifier::spinoff_prover]
#[verifier::rlimit(60)]
pub proof fn lemma_creset(funcs: Map<u32, Function>, stack: u32, push: u32, pop: u32, m: Machine, n: nat, fuel: nat)
    requires
        stack_functions(funcs, stack, push, pop),
        word_frame(m, stack, n),
        n >= 2,
        fuel >= 1,
        0 <= data_stack(m, stack, n)[n - 1],
        data_stack(m, stack, n)[n - 1] + 4 <= m.memory_size,
        data_stack(m, stack, n)[n - 1] + 4 <= stack_pointer(m, stack) + 8
            || stack_pointer(m, stack) + 4 * n <= data_stack(m, stack, n)[n - 1],
    ensures
        ({
            let s = data_stack(m, stack, n);
            let mask = s[n - 2];
            let addr = s[n - 1];
            let cell = load32(m.memory, addr as int);
            let r = exec(funcs, word_body(bitmanip_code(pop, [Instr::I32Const(-1i32), Instr::I32Xor, Instr::I32And]@)), 0, m, fuel);
            &&& r is Some
            &&& data_stack(r.unwrap(), stack, (n - 2) as nat) == s.take(n - 2)
            &&& load32(r.unwrap().memory, addr as int) == cell & (mask ^ -1i32)
        }),
{
    let s = data_stack(m, stack, n);
    let code = word_body(bitmanip_code(pop, [Instr::I32Const(-1i32), Instr::I32Xor, Instr::I32And]@));
    let mask = s[n - 2];
    let addr = s[n - 1];
    let cell = load32(m.memory, addr as int);
    let res = cell & (mask ^ -1i32);
    lemma_popped_stack(m, stack, n);
    lemma_popped_stack(popped(m, stack), stack, (n - 1) as nat);
    assert(code =~= seq![Instr::Call(pop), Instr::TeeLocal(0), Instr::GetLocal(0), Instr::I32Load(2, 0), Instr::Call(pop)]
        + [Instr::I32Const(-1i32), Instr::I32Xor, Instr::I32And]@ + seq![Instr::I32Store(2, 0), Instr::End]);
    let m0 = m;
    lemma_call_pop(funcs, stack, push, pop, code, 0, m0, fuel);
    let m1 = popped(m0, stack);
    assert(m1.operands =~= seq![Value::I32(addr)]);
    lemma_exec_step(funcs, code, 1, m1, fuel);
    let m2 = step(code[1], m1).unwrap();
    lemma_exec_step(funcs, code, 2, m2, fuel);
    let m3 = step(code[2], m2).unwrap();
    lemma_exec_step(funcs, code, 3, m3, fuel);
    let m4 = step(code[3], m3).unwrap();
    assert(m4.operands =~= seq![Value::I32(addr), Value::I32(cell)]);
    lemma_call_pop(funcs, stack, push, pop, code, 4, m4, fuel);
    let m5 = popped(m4, stack);
    assert(m5.operands =~= seq![Value::I32(addr), Value::I32(cell), Value::I32(mask)]);
    lemma_exec_step(funcs, code, 5, m5, fuel);
    let m6 = step(code[5], m5).unwrap();
    lemma_exec_step(funcs, code, 6, m6, fuel);
    let m7 = step(code[6], m6).unwrap();
    lemma_exec_step(funcs, code, 7, m7, fuel);
    let m8 = step(code[7], m7).unwrap();
    assert(m8.operands =~= seq![Value::I32(addr), Value::I32(res)]);
    lemma_exec_step(funcs, code, 8, m8, fuel);
    let m9 = step(code[8], m8).unwrap();
    assert(m9.operands =~= Seq::<Value>::empty());
    lemma_exec_step(funcs, code, 9, m9, fuel);
    let m10 = step(code[9], m9).unwrap();
    lemma_exec_done(funcs, code, m10, fuel);
    let r = m10;
    lemma_store_load(m.memory, addr as int, res, addr as int);
    assert forall|i: int| 0 <= i < n - 2 implies #[trigger] data_stack(r, stack, (n - 2) as nat)[i] == s.take(n - 2)[i] by {
        lemma_store_load(m.memory, addr as int, res, stack_pointer(m, stack) + 8 + 4 * (n - 3 - i));
    }
    assert(data_stack(r, stack, (n - 2) as nat) =~= s.take(n - 2));
}

/// Law (`CTOGGLE`): `( mask addr -- )` flips the bits of `mask` in the cell at `addr`, for
/// a cell within memory that is not one of the stack cells left.
#[verifier::spinoff_prover]
#[verifier::rlimit(60)]
pub proof fn lemma_ctoggle(funcs: Map<u32, Function>, stack: u32, push: u32, pop: u32, m: Machine, n: nat, fuel: nat)
    requires
        stack_functions(funcs, stack, push, pop),
        word_frame(m, stack, n),
        n >= 2,
        fuel >= 1,
        0 <= data_stack(m, stack, n)[n - 1],
        data_stack(m, stack, n)[n - 1] + 4 <= m.memory_size,
        data_stack(m, stack, n)[n - 1] + 4 <= stack_pointer(m, stack) + 8
            || stack_pointer(m, stack) + 4 * n <= data_stack(m, stack, n)[n - 1],
    ensures
        ({
            let s = data_stack(m, stack, n);
            let mask = s[n - 2];
            let addr = s[n - 1];
            let cell = load32(m.memory, addr as int);
            let r = exec(funcs, word_body(bitmanip_code(pop, [Instr::I32Xor]@)), 0, m, fuel);
            &&& r is Some
            &&& data_stack(r.unwrap(), stack, (n - 2) as nat) == s.take(n - 2)
            &&& load32(r.unwrap().memory, addr as int) == cell ^ mask
        }),
{
    let s = data_stack(m, stack, n);
    let code = word_body(bitmanip_code(pop, [Instr::I32Xor]@));
    let mask = s[n - 2];
    let addr = s[n - 1];
    let cell = load32(m.memory, addr as int);
    let res = cell ^ mask;
    lemma_popped_stack(m, stack, n);
    lemma_popped_stack(popped(m, stack), stack, (n - 1) as nat);
    assert(code =~= seq![Instr::Call(pop), Instr::TeeLocal(0), Instr::GetLocal(0), Instr::I32Load(2, 0), Instr::Call(pop)]
        + [Instr::I32Xor]@ + seq![Instr::I32Store(2, 0), Instr::End]);
    let m0 = m;
    lemma_call_pop(funcs, stack, push, pop, code, 0, m0, fuel);
    let m1 = popped(m0, stack);
    assert(m1.operands =~= seq![Value::I32(addr)]);
    lemma_exec_step(funcs, code, 1, m1, fuel);
    let m2 = step(code[1], m1).unwrap();
    lemma_exec_step(funcs, code, 2, m2, fuel);
    let m3 = step(code[2], m2).unwrap();
    lemma_exec_step(funcs, code, 3, m3, fuel);
    let m4 = step(code[3], m3).unwrap();
    assert(m4.operands =~= seq![Value::I32(addr), Value::I32(cell)]);
    lemma_call_pop(funcs, stack, push, pop, code, 4, m4, fuel);
    let m5 = popped(m4, stack);
    assert(m5.operands =~= seq![Value::I32(addr), Value::I32(cell), Value::I32(mask)]);
    lemma_exec_step(funcs, code, 5, m5, fuel);
    let m6 = step(code[5], m5).unwrap();
    assert(m6.operands =~= seq![Value::I32(addr), Value::I32(res)]);
    lemma_exec_step(funcs, code, 6, m6, fuel);
    let m7 = step(code[6], m6).unwrap();
    assert(m7.operands =~= Seq::<Value>::empty());
    lemma_exec_step(funcs, code, 7, m7, fuel);
    let m8 = step(code[7], m7).unwrap();
    lemma_exec_done(funcs, code, m8, fuel);
    let r = m8;
    lemma_store_load(m.memory, addr as int, res, addr as int);
    assert forall|i: int| 0 <= i < n - 2 implies #[trigger] data_stack(r, stack, (n - 2) as nat)[i] == s.take(n - 2)[i] by {
        lemma_store_load(m.memory, addr as int, res, stack_pointer(m, stack) + 8 + 4 * (n - 3 - i));
    }
    assert(data_stack(r, stack, (n - 2) as nat) =~= s.take(n - 2));
}

/// Law (`?DUP`): `( x -- x x )` when `x` is not zero, `( x -- x )` when it
/// is.
#[verifier::spinoff_prover]
#[verifier::rlimit(60)]
pub proof fn lemma_qdup(funcs: Map<u32, Function>, stack: u32, push: u32, pop: u32, m: Machine, n: nat, fuel: nat)
    requires
        stack_functions(funcs, stack, push, pop),
        word_frame(m, stack, n),
        n >= 1,
        fuel >= 1,
    ensures
        ({
            let s = data_stack(m, stack, n);
            let r = exec(funcs, word_body(qdup_code(stack, push)), 0, m, fuel);
            &&& r is Some
            &&& s[n - 1] != 0 ==> data_stack(r.unwrap(), stack, n + 1) == s.push(s[n - 1])
            &&& s[n - 1] == 0 ==> data_stack(r.unwrap(), stack, n) == s
        }),
{
    let s = data_stack(m, stack, n);
    let code = word_body(qdup_code(stack, push));
    let x = s[n - 1];
    let m0 = m;
    lemma_exec_step(funcs, code, 0, m0, fuel);
    let m1 = step(code[0], m0).unwrap();
    lemma_exec_step(funcs, code, 1, m1, fuel);
    let m2 = step(code[1], m1).unwrap();
    lemma_exec_step(funcs, code, 2, m2, fuel);
    let m3 = step(code[2], m2).unwrap();
    assert(m3.operands =~= seq![Value::I32(x)]);
    lemma_exec_if(funcs, code, 3, m3, fuel, x);
    let m4 = replace_top(m3, 1, seq![]);
    if x != 0 {
        lemma_exec_step(funcs, code, 4, m4, fuel);
        let m5 = step(code[4], m4).unwrap();
        assert(m5.operands =~= seq![Value::I32(x)]);
        lemma_call_push(funcs, stack, push, pop, code, 5, m5, x, fuel);
        let m6 = pushed(m5, stack, x);
        lemma_pushed_stack(m5, stack, x, n);
        lemma_exec_step(funcs, code, 6, m6, fuel);
        lemma_exec_step(funcs, code, 7, m6, fuel);
        lemma_exec_done(funcs, code, m6, fuel);
        assert(data_stack(m5, stack, n) == s);
    } else {
        reveal_with_fuel(block_close, 4);
        assert(block_close(code, 4, 0) == 6);
        lemma_exec_step(funcs, code, 7, m4, fuel);
        lemma_exec_done(funcs, code, m4, fuel);
        assert(data_stack(m4, stack, n) =~= s);
    }
}

/// The double-cell push function of the stack whose pointer is global
/// `stack`.
pub open spec fn push_d_function(stack: u32) -> Function {
    Function { params: 1, locals: seq![], body: push_d_code(stack) }
}

/// The double-cell pop function of the stack whose pointer is global
/// `stack`.
pub open spec fn pop_d_function(stack: u32) -> Function {
    Function { params: 0, locals: seq![], body: pop_d_code(stack) }
}

/// The environment of a double-cell word: the functions `push_d` and
/// `pop_d` of the data stack whose pointer is global `stack`.
pub open spec fn double_functions(funcs: Map<u32, Function>, stack: u32, push_d: u32, pop_d: u32) -> bool {
    &&& funcs.contains_key(push_d)
    &&& funcs[push_d] == push_d_function(stack)
    &&& funcs.contains_key(pop_d)
    &&& funcs[pop_d] == pop_d_function(stack)
}

/// The machine after a call of `push_d` with `v` on top of its operands: the
/// low half of `v` lands in the lower cell, the high half on top.
pub open spec fn pushed_d(m: Machine, stack: u32, v: i64) -> Machine {
    Machine {
        operands: m.operands.drop_last(),
        globals: m.globals.update(stack as int, (stack_pointer(m, stack) - 8) as i32),
        memory: store64(m.memory, stack_pointer(m, stack) - 8, rotl64(v, 32)),
        ..m
    }
}

/// The machine after a call of `pop_d`.
pub open spec fn popped_d(m: Machine, stack: u32) -> Machine {
    Machine {
        operands: m.operands.push(Value::I64(rotl64(load64(m.memory, stack_pointer(m, stack)), 32))),
        globals: m.globals.update(stack as int, (stack_pointer(m, stack) + 8) as i32),
        ..m
    }
}

/// Running the double-cell push function's body.
#[verifier::spinoff_prover]
#[verifier::rlimit(60)]
pub proof fn lemma_push_d_body(funcs: Map<u32, Function>, stack: u32, m: Machine, v: i64, fuel: nat)
    requires
        stack < m.globals.len(),
        m.operands.len() == 0,
        m.locals.len() >= 1,
        m.locals[0] == Value::I64(v),
        8 <= stack_pointer(m, stack) <= m.memory_size,
    ensures
        exec(funcs, push_d_code(stack), 0, m, fuel) is Some,
        exec(funcs, push_d_code(stack), 0, m, fuel).unwrap().operands.len() == 0,
        exec(funcs, push_d_code(stack), 0, m, fuel).unwrap().globals == m.globals.update(stack as int, (stack_pointer(m, stack) - 8) as i32),
        exec(funcs, push_d_code(stack), 0, m, fuel).unwrap().memory == store64(m.memory, stack_pointer(m, stack) - 8, rotl64(v, 32)),
{
    reveal_with_fuel(exec, 12);
}

/// Running the double-cell pop function's body.
#[verifier::rlimit(60)]
#[verifier::spinoff_prover]
pub proof fn lemma_pop_d_body(funcs: Map<u32, Function>, stack: u32, m: Machine, fuel: nat)
    requires
        stack < m.globals.len(),
        m.operands.len() == 0,
        0 <= stack_pointer(m, stack),
        stack_pointer(m, stack) + 8 <= m.memory_size,
        m.memory_size <= i32::MAX,
    ensures
        exec(funcs, pop_d_code(stack), 0, m, fuel) is Some,
        exec(funcs, pop_d_code(stack), 0, m, fuel).unwrap().operands == seq![
            Value::I64(rotl64(load64(m.memory, stack_pointer(m, stack)), 32)),
        ],
        exec(funcs, pop_d_code(stack), 0, m, fuel).unwrap().globals == m.globals.update(stack as int, (stack_pointer(m, stack) + 8) as i32),
        exec(funcs, pop_d_code(stack), 0, m, fuel).unwrap().memory == m.memory,
{
    reveal_with_fuel(exec, 11);
    let r = exec(funcs, pop_d_code(stack), 0, m, fuel).unwrap();
    assert(r.operands =~= seq![Value::I64(rotl64(load64(m.memory, stack_pointer(m, stack)), 32))]);
}

/// A call of `push_d` pushes the top operand onto the data stack as two
/// cells.
#[verifier::spinoff_prover]
#[verifier::rlimit(60)]
pub proof fn lemma_call_push_d(
    funcs: Map<u32, Function>,
    stack: u32,
    push_d: u32,
    pop_d: u32,
    code: Seq<Instr>,
    pc: int,
    m: Machine,
    v: i64,
    fuel: nat,
)
    requires
        double_functions(funcs, stack, push_d, pop_d),
        0 <= pc < code.len(),
        code[pc] == Instr::Call(push_d),
        fuel >= 1,
        m.operands.len() >= 1,
        m.operands.last() == Value::I64(v),
        stack < m.globals.len(),
        8 <= stack_pointer(m, stack) <= m.memory_size,
    ensures
        exec(funcs, code, pc, m, fuel) == exec(funcs, code, pc + 1, pushed_d(m, stack, v), fuel),
{
    let callee = frame(funcs[push_d], call_args(m, 1), m);
    assert(callee.locals =~= seq![Value::I64(v)]);
    lemma_push_d_body(funcs, stack, callee, v, (fuel - 1) as nat);
    lemma_exec_call(funcs, code, pc, m, fuel, push_d);
    let r = exec(funcs, push_d_code(stack), 0, callee, (fuel - 1) as nat).unwrap();
    assert(after_call(m, 1, r).operands =~= m.operands.drop_last());
    assert(after_call(m, 1, r) == pushed_d(m, stack, v));
}

/// A call of `pop_d` moves the top two cells of the data stack onto the
/// operands as one 64-bit value.
#[verifier::spinoff_prover]
#[verifier::rlimit(60)]
pub proof fn lemma_call_pop_d(
    funcs: Map<u32, Function>,
    stack: u32,
    push_d: u32,
    pop_d: u32,
    code: Seq<Instr>,
    pc: int,
    m: Machine,
    fuel: nat,
)
    requires
        double_functions(funcs, stack, push_d, pop_d),
        0 <= pc < code.len(),
        code[pc] == Instr::Call(pop_d),
        fuel >= 1,
        stack < m.globals.len(),
        0 <= stack_pointer(m, stack),
        stack_pointer(m, stack) + 8 <= m.memory_size,
        m.memory_size <= i32::MAX,
    ensures
        exec(funcs, code, pc, m, fuel) == exec(funcs, code, pc + 1, popped_d(m, stack), fuel),
{
    let callee = frame(funcs[pop_d], call_args(m, 0), m);
    lemma_pop_d_body(funcs, stack, callee, (fuel - 1) as nat);
    lemma_exec_call(funcs, code, pc, m, fuel, pop_d);
    let r = exec(funcs, pop_d_code(stack), 0, callee, (fuel - 1) as nat).unwrap();
    assert(after_call(m, 0, r).operands =~= popped_d(m, stack).operands);
    assert(after_call(m, 0, r) == popped_d(m, stack));
}

/// Pushing a double cell adds its low half, then its high half on top.
#[verifier::spinoff_prover]
#[verifier::rlimit(60)]
pub proof fn lemma_pushed_d_stack(m: Machine, stack: u32, v: i64, n: nat)
    requires
        stack < m.globals.len(),
        8 <= stack_pointer(m, stack),
    ensures
        stack_pointer(pushed_d(m, stack, v), stack) == stack_pointer(m, stack) - 8,
        data_stack(pushed_d(m, stack, v), stack, n + 2) == data_stack(m, stack, n).push(low(v)).push(high(v)),
{
    let sp = stack_pointer(m, stack);
    let r = pushed_d(m, stack, v);
    lemma_halves(low(v), high(v), v);
    lemma_halves(high(v), low(v), v);
    let rot = rotl64(join(low(v), high(v)), 32);
    assert(rot == rotl64(v, 32));
    assert(low(rot) == high(v) && high(rot) == low(v));
    let mem1 = store32(m.memory, sp - 8, high(v));
    assert forall|i: int| 0 <= i < n + 2 implies #[trigger] data_stack(r, stack, n + 2)[i]
        == data_stack(m, stack, n).push(low(v)).push(high(v))[i] by {
        lemma_store_load(m.memory, sp - 8, high(v), sp - 8 + 4 * (n + 1 - i));
        lemma_store_load(mem1, sp - 4, low(v), sp - 8 + 4 * (n + 1 - i));
    }
    assert(data_stack(r, stack, n + 2) =~= data_stack(m, stack, n).push(low(v)).push(high(v)));
}

/// Popping a double cell takes the top two cells, the upper one as the high
/// half; the cells below stay.
#[verifier::spinoff_prover]
#[verifier::rlimit(60)]
pub proof fn lemma_popped_d_stack(m: Machine, stack: u32, n: nat)
    requires
        stack < m.globals.len(),
        n >= 2,
        stack_pointer(m, stack) + 8 <= i32::MAX,
    ensures
        stack_pointer(popped_d(m, stack), stack) == stack_pointer(m, stack) + 8,
        popped_d(m, stack).operands.last() == Value::I64(join(data_stack(m, stack, n)[n - 2], data_stack(m, stack, n)[n - 1])),
        data_stack(popped_d(m, stack), stack, (n - 2) as nat) == data_stack(m, stack, n).take(n - 2),
{
    let s = data_stack(m, stack, n);
    let sp = stack_pointer(m, stack);
    lemma_halves(s[n - 1], s[n - 2], 0);
    assert(load64(m.memory, sp) == join(s[n - 1], s[n - 2]));
    assert(data_stack(popped_d(m, stack), stack, (n - 2) as nat) =~= s.take(n - 2));
}

/// Law (binary double-cell words such as `D+` and `D-`):
/// `( d1 d2 -- r )` where `r` is the result of `op` on the double cells `d1`
/// and `d2`, each a low cell below a high cell.
#[verifier::spinoff_prover]
#[verifier::rlimit(60)]
pub proof fn lemma_binary_double(
    funcs: Map<u32, Function>,
    stack: u32,
    push_d: u32,
    pop_d: u32,
    op: Instr,
    m: Machine,
    n: nat,
    fuel: nat,
)
    requires
        double_functions(funcs, stack, push_d, pop_d),
        word_frame(m, stack, n),
        m.locals.len() >= 3,
        n >= 4,
        fuel >= 1,
        i64_binary(
            op,
            join(data_stack(m, stack, n)[n - 4], data_stack(m, stack, n)[n - 3]),
            join(data_stack(m, stack, n)[n - 2], data_stack(m, stack, n)[n - 1]),
        ) matches Some(Value::I64(_)),
    ensures
        ({
            let s = data_stack(m, stack, n);
            let d1 = join(s[n - 4], s[n - 3]);
            let d2 = join(s[n - 2], s[n - 1]);
            let v = i64_binary(op, d1, d2).unwrap()->I64_0;
            let r = exec(funcs, word_body(binary_i64_code(pop_d, push_d, op)), 0, m, fuel);
            &&& r is Some
            &&& data_stack(r.unwrap(), stack, (n - 2) as nat) == s.take(n - 4).push(low(v)).push(high(v))
        }),
{
    let s = data_stack(m, stack, n);
    let code = word_body(binary_i64_code(pop_d, push_d, op));
    let d1 = join(s[n - 4], s[n - 3]);
    let d2 = join(s[n - 2], s[n - 1]);
    let res = i64_binary(op, d1, d2).unwrap()->I64_0;
    lemma_popped_d_stack(m, stack, n);
    let m0 = m;
    lemma_call_pop_d(funcs, stack, push_d, pop_d, code, 0, m0, fuel);
    let m1 = popped_d(m0, stack);
    assert(m1.operands =~= seq![Value::I64(d2)]);
    lemma_exec_step(funcs, code, 1, m1, fuel);
    let m2 = step(code[1], m1).unwrap();
    assert(m2.operands =~= Seq::<Value>::empty());
    lemma_popped_d_stack(m2, stack, (n - 2) as nat);
    assert(data_stack(m2, stack, (n - 2) as nat) == data_stack(m1, stack, (n - 2) as nat));
    lemma_call_pop_d(funcs, stack, push_d, pop_d, code, 2, m2, fuel);
    let m3 = popped_d(m2, stack);
    assert(m3.operands =~= seq![Value::I64(d1)]);
    lemma_exec_step(funcs, code, 3, m3, fuel);
    let m4 = step(code[3], m3).unwrap();
    assert(m4.operands =~= seq![Value::I64(d1), Value::I64(d2)]);
    lemma_exec_step(funcs, code, 4, m4, fuel);
    let m5 = step(code[4], m4).unwrap();
    assert(m5.operands =~= seq![Value::I64(res)]);
    lemma_call_push_d(funcs, stack, push_d, pop_d, code, 5, m5, res, fuel);
    let m6 = pushed_d(m5, stack, res);
    lemma_pushed_d_stack(m5, stack, res, (n - 4) as nat);
    assert(data_stack(m5, stack, (n - 4) as nat) == data_stack(m3, stack, (n - 4) as nat));
    lemma_exec_step(funcs, code, 6, m6, fuel);
    let m7 = step(code[6], m6).unwrap();
    lemma_exec_done(funcs, code, m7, fuel);
    assert(data_stack(m1, stack, (n - 2) as nat).take(n - 4) =~= s.take(n - 4));
    assert(data_stack(m3, stack, (n - 4) as nat) =~= s.take(n - 4));
}

/// Law (`SM/REM`): `( d x -- rem quot )`, symmetric division of the double
/// cell `d` by `x`: the quotient truncated toward zero and the remainder with
/// the dividend's sign, each cut to a cell, for a nonzero divisor and other
/// than `i64::MIN -1`.
#[verifier::rlimit(100)]
#[verifier::spinoff_prover]
pub proof fn lemma_sm_rem(
    funcs: Map<u32, Function>,
    stack: u32,
    push: u32,
    pop: u32,
    push_d: u32,
    pop_d: u32,
    m: Machine,
    n: nat,
    fuel: nat,
)
    requires
        stack_functions(funcs, stack, push, pop),
        double_functions(funcs, stack, push_d, pop_d),
        word_frame(m, stack, n),
        m.locals.len() >= 4,
        n >= 3,
        fuel >= 1,
        data_stack(m, stack, n)[n - 1] != 0,
        !(join(data_stack(m, stack, n)[n - 3], data_stack(m, stack, n)[n - 2]) == i64::MIN
            && data_stack(m, stack, n)[n - 1] == -1),
    ensures
        ({
            let s = data_stack(m, stack, n);
            let d = join(s[n - 3], s[n - 2]) as int;
            let x = s[n - 1] as int;
            let r = exec(funcs, word_body(sm_rem_code(push, pop, pop_d)), 0, m, fuel);
            &&& r is Some
            &&& data_stack(r.unwrap(), stack, (n - 1) as nat) == s.take(n - 3).push(
                low(trunc_rem(d, x) as i64),
            ).push(low(trunc_div(d, x) as i64))
        }),
{
    let s = data_stack(m, stack, n);
    let code = word_body(sm_rem_code(push, pop, pop_d));
    let x = s[n - 1];
    let d = join(s[n - 3], s[n - 2]);
    let rem = trunc_rem(d as int, x as int) as i64;
    let quo = trunc_div(d as int, x as int) as i64;
    lemma_popped_stack(m, stack, n);
    let m0 = m;
    lemma_call_pop(funcs, stack, push, pop, code, 0, m0, fuel);
    let m1 = popped(m0, stack);
    assert(m1.operands =~= seq![Value::I32(x)]);
    lemma_exec_step(funcs, code, 1, m1, fuel);
    let m2 = step(code[1], m1).unwrap();
    lemma_exec_step(funcs, code, 2, m2, fuel);
    let m3 = step(code[2], m2).unwrap();
    assert(m3.operands =~= Seq::<Value>::empty());
    lemma_popped_d_stack(m3, stack, (n - 1) as nat);
    assert(data_stack(m3, stack, (n - 1) as nat) == data_stack(m1, stack, (n - 1) as nat));
    lemma_call_pop_d(funcs, stack, push_d, pop_d, code, 3, m3, fuel);
    let m4 = popped_d(m3, stack);
    assert(m4.operands =~= seq![Value::I64(d)]);
    lemma_exec_step(funcs, code, 4, m4, fuel);
    let m5 = step(code[4], m4).unwrap();
    lemma_exec_step(funcs, code, 5, m5, fuel);
    let m6 = step(code[5], m5).unwrap();
    assert(m6.operands =~= seq![Value::I64(d), Value::I64(x as i64)]);
    lemma_exec_step(funcs, code, 6, m6, fuel);
    let m7 = step(code[6], m6).unwrap();
    lemma_exec_step(funcs, code, 7, m7, fuel);
    let m8 = step(code[7], m7).unwrap();
    assert(m8.operands =~= seq![Value::I32(low(rem))]);
    lemma_call_push(funcs, stack, push, pop, code, 8, m8, low(rem), fuel);
    let m9 = pushed(m8, stack, low(rem));
    lemma_pushed_stack(m8, stack, low(rem), (n - 3) as nat);
    assert(data_stack(m8, stack, (n - 3) as nat) == data_stack(m4, stack, (n - 3) as nat));
    lemma_exec_step(funcs, code, 9, m9, fuel);
    let m10 = step(code[9], m9).unwrap();
    lemma_exec_step(funcs, code, 10, m10, fuel);
    let m11 = step(code[10], m10).unwrap();
    assert(m11.operands =~= seq![Value::I64(d), Value::I64(x as i64)]);
    lemma_exec_step(funcs, code, 11, m11, fuel);
    let m12 = step(code[11], m11).unwrap();
    lemma_exec_step(funcs, code, 12, m12, fuel);
    let m13 = step(code[12], m12).unwrap();
    assert(m13.operands =~= seq![Value::I32(low(quo))]);
    assert(data_stack(m13, stack, (n - 2) as nat) == data_stack(m9, stack, (n - 2) as nat));
    lemma_call_push(funcs, stack, push, pop, code, 13, m13, low(quo), fuel);
    let m14 = pushed(m13, stack, low(quo));
    lemma_pushed_stack(m13, stack, low(quo), (n - 2) as nat);
    lemma_exec_step(funcs, code, 14, m14, fuel);
    let m15 = step(code[14], m14).unwrap();
    lemma_exec_done(funcs, code, m15, fuel);
    assert(data_stack(m4, stack, (n - 3) as nat) =~= s.take(n - 3));
}

/// Law (`UD/MOD`): `( ud x -- rem udquot )`, unsigned division of the
/// double cell `ud` by `x`, read as the unsigned 64-bit number its
/// sign-extension gives: the remainder as a cell and the quotient as a
/// double cell, for a nonzero divisor.
#[verifier::rlimit(100)]
#[verifier::spinoff_prover]
pub proof fn lemma_ud_mod(
    funcs: Map<u32, Function>,
    stack: u32,
    push: u32,
    pop: u32,
    push_d: u32,
    pop_d: u32,
    m: Machine,
    n: nat,
    fuel: nat,
)
    requires
        stack_functions(funcs, stack, push, pop),
        double_functions(funcs, stack, push_d, pop_d),
        word_frame(m, stack, n),
        m.locals.len() >= 4,
        n >= 3,
        fuel >= 1,
        data_stack(m, stack, n)[n - 1] != 0,
    ensures
        ({
            let s = data_stack(m, stack, n);
            let d = join(s[n - 3], s[n - 2]) as u64;
            let x = (s[n - 1] as i64) as u64;
            let q = (d / x) as i64;
            let r = exec(funcs, word_body(ud_mod_code(push, pop, push_d, pop_d)), 0, m, fuel);
            &&& r is Some
            &&& data_stack(r.unwrap(), stack, n) == s.take(n - 3).push(low((d % x) as i64)).push(low(q)).push(
                high(q),
            )
        }),
{
    let s = data_stack(m, stack, n);
    let code = word_body(ud_mod_code(push, pop, push_d, pop_d));
    let x = s[n - 1];
    let d = join(s[n - 3], s[n - 2]);
    let rem = ((d as u64) % ((x as i64) as u64)) as i64;
    let quo = ((d as u64) / ((x as i64) as u64)) as i64;
    lemma_popped_stack(m, stack, n);
    let m0 = m;
    lemma_call_pop(funcs, stack, push, pop, code, 0, m0, fuel);
    let m1 = popped(m0, stack);
    assert(m1.operands =~= seq![Value::I32(x)]);
    lemma_exec_step(funcs, code, 1, m1, fuel);
    let m2 = step(code[1], m1).unwrap();
    lemma_exec_step(funcs, code, 2, m2, fuel);
    let m3 = step(code[2], m2).unwrap();
    assert(m3.operands =~= Seq::<Value>::empty());
    lemma_popped_d_stack(m3, stack, (n - 1) as nat);
    assert(data_stack(m3, stack, (n - 1) as nat) == data_stack(m1, stack, (n - 1) as nat));
    lemma_call_pop_d(funcs, stack, push_d, pop_d, code, 3, m3, fuel);
    let m4 = popped_d(m3, stack);
    assert(m4.operands =~= seq![Value::I64(d)]);
    lemma_exec_step(funcs, code, 4, m4, fuel);
    let m5 = step(code[4], m4).unwrap();
    lemma_exec_step(funcs, code, 5, m5, fuel);
    let m6 = step(code[5], m5).unwrap();
    assert(m6.operands =~= seq![Value::I64(d), Value::I64(x as i64)]);
    lemma_exec_step(funcs, code, 6, m6, fuel);
    let m7 = step(code[6], m6).unwrap();
    lemma_exec_step(funcs, code, 7, m7, fuel);
    let m8 = step(code[7], m7).unwrap();
    assert(m8.operands =~= seq![Value::I32(low(rem))]);
    lemma_call_push(funcs, stack, push, pop, code, 8, m8, low(rem), fuel);
    let m9 = pushed(m8, stack, low(rem));
    lemma_pushed_stack(m8, stack, low(rem), (n - 3) as nat);
    assert(data_stack(m8, stack, (n - 3) as nat) == data_stack(m4, stack, (n - 3) as nat));
    lemma_exec_step(funcs, code, 9, m9, fuel);
    let m10 = step(code[9], m9).unwrap();
    lemma_exec_step(funcs, code, 10, m10, fuel);
    let m11 = step(code[10], m10).unwrap();
    assert(m11.operands =~= seq![Value::I64(d), Value::I64(x as i64)]);
    lemma_exec_step(funcs, code, 11, m11, fuel);
    let m12 = step(code[11], m11).unwrap();
    assert(m12.operands =~= seq![Value::I64(quo)]);
    assert(data_stack(m12, stack, (n - 2) as nat) == data_stack(m9, stack, (n - 2) as nat));
    lemma_call_push_d(funcs, stack, push_d, pop_d, code, 12, m12, quo, fuel);
    let m13 = pushed_d(m12, stack, quo);
    lemma_pushed_d_stack(m12, stack, quo, (n - 2) as nat);
    lemma_exec_step(funcs, code, 13, m13, fuel);
    let m14 = step(code[13], m13).unwrap();
    lemma_exec_done(funcs, code, m14, fuel);
    assert(data_stack(m4, stack, (n - 3) as nat) =~= s.take(n - 3));
}

/// For 64-bit operands other than `i64::MIN / -1`, the truncated and
/// floored quotients and remainders are 64-bit numbers.
#[verifier::spinoff_prover]
#[verifier::rlimit(60)]
pub proof fn lemma_division_fits64(a: i64, b: i64)
    requires
        b != 0,
        !(a == i64::MIN && b == -1),
    ensures
        i64::MIN <= trunc_div(a as int, b as int) <= i64::MAX,
        i64::MIN <= trunc_rem(a as int, b as int) <= i64::MAX,
        i64::MIN <= floor_div(a as int, b as int) <= i64::MAX,
        i64::MIN <= floor_mod(a as int, b as int) <= i64::MAX,
{
    lemma_floored_from_truncated(a as int, b as int);
    let x = abs(a as int);
    let d = abs(b as int);
    let q0 = x / d;
    let s = x % d;
    vstd::arithmetic::div_mod::lemma_fundamental_div_mod(x, d);
    vstd::arithmetic::div_mod::lemma_mod_pos_bound(x, d);
    assert(q0 <= x) by (nonlinear_arith)
        requires x == d * q0 + s, d >= 1, s >= 0, x >= 0;
    assert(q0 >= 0) by (nonlinear_arith)
        requires x == d * q0 + s, d >= 1, s < d, x >= 0;
    if d == 1 {
        assert(s == 0);
    } else {
        assert(2 * q0 <= x) by (nonlinear_arith)
            requires x == d * q0 + s, d >= 2, s >= 0, q0 >= 0;
    }
}

/// `(a ^ b) < 0` tells whether the signs of 64-bit `a` and `b` differ.
#[verifier::spinoff_prover]
#[verifier::rlimit(60)]
pub proof fn lemma_sign_bits64(a: i64, b: i64)
    ensures
        ((a ^ b) < 0) == ((a < 0) != (b < 0)),
{
    assert(((a ^ b) < 0) == ((a < 0) != (b < 0))) by (bit_vector);
}

/// The second half of `FM/MOD`: from the truncated quotient `q` and
/// remainder `r` in locals 4 and 5 to the pushed floored results.
#[verifier::rlimit(100)]
#[verifier::spinoff_prover]
proof fn lemma_fm_mod_tail(
    funcs: Map<u32, Function>,
    stack: u32,
    push: u32,
    pop: u32,
    pop_d: u32,
    m12: Machine,
    k: nat,
    d: i64,
    xx: i64,
    q: i64,
    r: i64,
    fuel: nat,
)
    requires
        stack_functions(funcs, stack, push, pop),
        stack_fits(m12, stack, k),
        m12.operands.len() == 0,
        m12.locals.len() >= 6,
        m12.locals[2] == Value::I64(d),
        m12.locals[3] == Value::I64(xx),
        m12.locals[4] == Value::I64(q),
        m12.locals[5] == Value::I64(r),
        fuel >= 1,
        8 <= stack_pointer(m12, stack),
        ((d < 0) != (xx < 0)) && r != 0 ==> i64::MIN <= r as int + xx as int <= i64::MAX,
        ((d < 0) != (xx < 0)) && r != 0 ==> i64::MIN <= q as int - 1 <= i64::MAX,
    ensures
        ({
            let fix = ((d < 0) != (xx < 0)) && r != 0;
            let rem = if fix { (r + xx) as i64 } else { r };
            let quo = if fix { (q - 1) as i64 } else { q };
            let code = word_body(fm_mod_code(push, pop, pop_d));
            &&& exec(funcs, code, 12, m12, fuel) is Some
            &&& data_stack(exec(funcs, code, 12, m12, fuel).unwrap(), stack, k + 2) == data_stack(m12, stack, k).push(low(rem)).push(low(quo))
        }),
{
    let code = word_body(fm_mod_code(push, pop, pop_d));
    let fix = ((d < 0) != (xx < 0)) && r != 0;
    lemma_sign_bits64(d, xx);
    lemma_sign_bits(0, 0, (d ^ xx) < 0, r != 0);
    let fl = flag(fix);
    let sel = if fix { xx } else { 0i64 };
    let sel1 = if fix { 1i64 } else { 0i64 };
    let rem = crate::semantics::add64(r, sel);
    let quo = crate::semantics::sub64(q, sel1);
    assert(rem == if fix { (r + xx) as i64 } else { r });
    assert(quo == if fix { (q - 1) as i64 } else { q });
    let n: nat = k + 3;
    lemma_exec_step(funcs, code, 12, m12, fuel);
    let m13 = step(code[12], m12).unwrap();
    lemma_exec_step(funcs, code, 13, m13, fuel);
    let m14 = step(code[13], m13).unwrap();
    lemma_exec_step(funcs, code, 14, m14, fuel);
    let m15 = step(code[14], m14).unwrap();
    lemma_exec_step(funcs, code, 15, m15, fuel);
    let m16 = step(code[15], m15).unwrap();
    lemma_exec_step(funcs, code, 16, m16, fuel);
    let m17 = step(code[16], m16).unwrap();
    lemma_exec_step(funcs, code, 17, m17, fuel);
    let m18 = step(code[17], m17).unwrap();
    assert(m18.operands =~= seq![Value::I64(r), Value::I64(xx), Value::I64(0i64), Value::I64(d ^ xx)]);
    lemma_exec_step(funcs, code, 18, m18, fuel);
    let m19 = step(code[18], m18).unwrap();
    lemma_exec_step(funcs, code, 19, m19, fuel);
    let m20 = step(code[19], m19).unwrap();
    assert(m20.operands =~= seq![Value::I64(r), Value::I64(xx), Value::I64(0i64), Value::I32(flag((d ^ xx) < 0))]);
    lemma_exec_step(funcs, code, 20, m20, fuel);
    let m21 = step(code[20], m20).unwrap();
    lemma_exec_step(funcs, code, 21, m21, fuel);
    let m22 = step(code[21], m21).unwrap();
    lemma_exec_step(funcs, code, 22, m22, fuel);
    let m23 = step(code[22], m22).unwrap();
    assert(m23.operands =~= seq![Value::I64(r), Value::I64(xx), Value::I64(0i64), Value::I32(flag((d ^ xx) < 0)), Value::I32(flag(r != 0))]);
    lemma_exec_step(funcs, code, 23, m23, fuel);
    let m24 = step(code[23], m23).unwrap();
    assert(m24.operands =~= seq![Value::I64(r), Value::I64(xx), Value::I64(0i64), Value::I32(fl)]);
    lemma_exec_step(funcs, code, 24, m24, fuel);
    let m25 = step(code[24], m24).unwrap();
    lemma_exec_step(funcs, code, 25, m25, fuel);
    let m26 = step(code[25], m25).unwrap();
    assert(m26.operands =~= seq![Value::I64(r), Value::I64(sel)]);
    lemma_exec_step(funcs, code, 26, m26, fuel);
    let m27 = step(code[26], m26).unwrap();
    lemma_exec_step(funcs, code, 27, m27, fuel);
    let m28 = step(code[27], m27).unwrap();
    assert(m28.operands =~= seq![Value::I32(low(rem))]);
    assert(m28.memory == m12.memory && m28.globals == m12.globals);
    lemma_call_push(funcs, stack, push, pop, code, 28, m28, low(rem), fuel);
    let m29 = pushed(m28, stack, low(rem));
    lemma_pushed_stack(m28, stack, low(rem), (n - 3) as nat);
    assert(data_stack(m28, stack, (n - 3) as nat) == data_stack(m12, stack, (n - 3) as nat));
    lemma_exec_step(funcs, code, 29, m29, fuel);
    let m30 = step(code[29], m29).unwrap();
    assert(m30.operands =~= seq![Value::I64(q)]);
    lemma_exec_step(funcs, code, 30, m30, fuel);
    let m31 = step(code[30], m30).unwrap();
    lemma_exec_step(funcs, code, 31, m31, fuel);
    let m32 = step(code[31], m31).unwrap();
    lemma_exec_step(funcs, code, 32, m32, fuel);
    let m33 = step(code[32], m32).unwrap();
    lemma_exec_step(funcs, code, 33, m33, fuel);
    let m34 = step(code[33], m33).unwrap();
    assert(m34.operands =~= seq![Value::I64(q), Value::I64(sel1)]);
    lemma_exec_step(funcs, code, 34, m34, fuel);
    let m35 = step(code[34], m34).unwrap();
    lemma_exec_step(funcs, code, 35, m35, fuel);
    let m36 = step(code[35], m35).unwrap();
    assert(m36.operands =~= seq![Value::I32(low(quo))]);
    assert(m36.memory == m29.memory && m36.globals == m29.globals);
    assert(data_stack(m36, stack, (n - 2) as nat) == data_stack(m29, stack, (n - 2) as nat));
    lemma_call_push(funcs, stack, push, pop, code, 36, m36, low(quo), fuel);
    let m37 = pushed(m36, stack, low(quo));
    lemma_pushed_stack(m36, stack, low(quo), (n - 2) as nat);
    lemma_exec_step(funcs, code, 37, m37, fuel);
    let m38 = step(code[37], m37).unwrap();
    lemma_exec_done(funcs, code, m38, fuel);
}

/// Law (`FM/MOD`): `( d x -- rem quot )`, floored division of the double
/// cell `d` by `x`: the quotient rounded toward negative infinity and the
/// remainder with the divisor's sign, each cut to a cell, for a nonzero
/// divisor and other than `i64::MIN -1`.
#[verifier::rlimit(100)]
#[verifier::spinoff_prover]
pub proof fn lemma_fm_mod(
    funcs: Map<u32, Function>,
    stack: u32,
    push: u32,
    pop: u32,
    push_d: u32,
    pop_d: u32,
    m: Machine,
    n: nat,
    fuel: nat,
)
    requires
        stack_functions(funcs, stack, push, pop),
        double_functions(funcs, stack, push_d, pop_d),
        word_frame(m, stack, n),
        m.locals.len() >= 6,
        n >= 3,
        fuel >= 1,
        data_stack(m, stack, n)[n - 1] != 0,
        !(join(data_stack(m, stack, n)[n - 3], data_stack(m, stack, n)[n - 2]) == i64::MIN
            && data_stack(m, stack, n)[n - 1] == -1),
    ensures
        ({
            let s = data_stack(m, stack, n);
            let d = join(s[n - 3], s[n - 2]) as int;
            let x = s[n - 1] as int;
            let r = exec(funcs, word_body(fm_mod_code(push, pop, pop_d)), 0, m, fuel);
            &&& r is Some
            &&& data_stack(r.unwrap(), stack, (n - 1) as nat) == s.take(n - 3).push(
                low(floor_mod(d, x) as i64),
            ).push(low(floor_div(d, x) as i64))
        }),
{
    let s = data_stack(m, stack, n);
    let code = word_body(fm_mod_code(push, pop, pop_d));
    let x = s[n - 1];
    let xx = x as i64;
    let d = join(s[n - 3], s[n - 2]);
    lemma_division_fits64(d, xx);
    lemma_floored_from_truncated(d as int, xx as int);
    lemma_sign_bits64(d, xx);
    let q = trunc_div(d as int, xx as int) as i64;
    let r = trunc_rem(d as int, xx as int) as i64;
    lemma_popped_stack(m, stack, n);
    let m0 = m;
    lemma_call_pop(funcs, stack, push, pop, code, 0, m0, fuel);
    let m1 = popped(m0, stack);
    assert(m1.operands =~= seq![Value::I32(x)]);
    lemma_exec_step(funcs, code, 1, m1, fuel);
    let m2 = step(code[1], m1).unwrap();
    lemma_exec_step(funcs, code, 2, m2, fuel);
    let m3 = step(code[2], m2).unwrap();
    assert(m3.operands =~= Seq::<Value>::empty());
    lemma_popped_d_stack(m3, stack, (n - 1) as nat);
    assert(data_stack(m3, stack, (n - 1) as nat) == data_stack(m1, stack, (n - 1) as nat));
    lemma_call_pop_d(funcs, stack, push_d, pop_d, code, 3, m3, fuel);
    let m4 = popped_d(m3, stack);
    assert(m4.operands =~= seq![Value::I64(d)]);
    lemma_exec_step(funcs, code, 4, m4, fuel);
    let m5 = step(code[4], m4).unwrap();
    lemma_exec_step(funcs, code, 5, m5, fuel);
    let m6 = step(code[5], m5).unwrap();
    assert(m6.operands =~= seq![Value::I64(d), Value::I64(xx)]);
    lemma_exec_step(funcs, code, 6, m6, fuel);
    let m7 = step(code[6], m6).unwrap();
    assert(m7.operands =~= seq![Value::I64(q)]);
    lemma_exec_step(funcs, code, 7, m7, fuel);
    let m8 = step(code[7], m7).unwrap();
    assert(m8.operands =~= Seq::<Value>::empty());
    lemma_exec_step(funcs, code, 8, m8, fuel);
    let m9 = step(code[8], m8).unwrap();
    lemma_exec_step(funcs, code, 9, m9, fuel);
    let m10 = step(code[9], m9).unwrap();
    assert(m10.operands =~= seq![Value::I64(d), Value::I64(xx)]);
    lemma_exec_step(funcs, code, 10, m10, fuel);
    let m11 = step(code[10], m10).unwrap();
    assert(m11.operands =~= seq![Value::I64(r)]);
    lemma_exec_step(funcs, code, 11, m11, fuel);
    let m12 = step(code[11], m11).unwrap();
    assert(m12.operands =~= Seq::<Value>::empty());
    assert(m12.operands =~= Seq::<Value>::empty());
    assert(data_stack(m12, stack, (n - 3) as nat) =~= s.take(n - 3));
    assert(stack_pointer(m12, stack) == stack_pointer(m, stack) + 12);
    lemma_fm_mod_tail(funcs, stack, push, pop, pop_d, m12, (n - 3) as nat, d, xx, q, r, fuel);
}

/// The defined function with id `id` in the module `a`, if `id` names one.
pub open spec fn native_function(a: AssemblerSpec, id: u32) -> Option<Function> {
    if id < a.slots.len() {
        match a.slots[id as int] {
            FuncSlot::Native(k) => if k < a.natives.len() && a.natives[k as int].type_index < a.types.len() {
                let n = a.natives[k as int];
                Some(Function { params: a.types[n.type_index as int].params.len(), locals: n.locals, body: n.body })
            } else {
                None
            },
            _ => None,
        }
    } else {
        None
    }
}

/// The defined functions of the module `a`, by id: what a `call` reaches.
pub open spec fn module_functions(a: AssemblerSpec) -> Map<u32, Function> {
    Map::new(|id: u32| native_function(a, id) is Some, |id: u32| native_function(a, id).unwrap())
}

/// Adding a defined function keeps every function already defined.
pub broadcast proof fn lemma_with_native_keeps(
    a: AssemblerSpec,
    params: Seq<ValType>,
    results: Seq<ValType>,
    locals: Seq<ValType>,
    body: Seq<Instr>,
    id: u32,
)
    ensures
        native_function(a, id) is Some ==> #[trigger] native_function(a.with_native(params, results, locals, body), id)
            == native_function(a, id),
{
}

/// Adding a table slot keeps every function.
pub broadcast proof fn lemma_table_entry_keeps(a: AssemblerSpec, f: u32, id: u32)
    ensures
        #[trigger] native_function(a.with_table_entry(f), id) == native_function(a, id),
{
}

/// Adding a defined function defines it under the next id.
pub proof fn lemma_with_native_new(
    a: AssemblerSpec,
    params: Seq<ValType>,
    results: Seq<ValType>,
    locals: Seq<ValType>,
    body: Seq<Instr>,
)
    requires
        a.slots.len() < u32::MAX,
        a.natives.len() < u32::MAX,
        a.types.len() < u32::MAX,
    ensures
        native_function(a.with_native(params, results, locals, body), a.slots.len() as u32) == Some(
            Function { params: params.len(), locals, body },
        ),
{
}

/// Adding a native word keeps every function already defined.
pub broadcast proof fn lemma_native_word_keeps(c: CompilerSpec, name: Seq<char>, locals: Seq<ValType>, body: Seq<Instr>, id: u32)
    ensures
        native_function(c.assembler, id) is Some ==> #[trigger] native_function(
            c.with_native_word(name, locals, body).assembler,
            id,
        ) == native_function(c.assembler, id),
{
    reveal(CompilerSpec::with_native_word);
    reveal(CompilerSpec::with_entry);
    lemma_with_native_keeps(c.assembler, seq![ValType::I32, ValType::I32], seq![], locals, body.push(Instr::End), id);
}

/// Adding an entry keeps every function already defined.
pub broadcast proof fn lemma_entry_keeps(c: CompilerSpec, name: Seq<char>, code: u32, parameter: Seq<u8>, id: u32)
    ensures
        #[trigger] native_function(c.with_entry(name, code, parameter).assembler, id) == native_function(c.assembler, id),
{
    reveal(CompilerSpec::with_entry);
}

/// The memory words keep every function already defined.
#[verifier::spinoff_prover]
#[verifier::rlimit(60)]
proof fn lemma_memory_words_keep_functions(c: CompilerSpec, id: u32)
    requires
        native_function(c.assembler, id) is Some,
    ensures
        native_function(with_memory_words(c).assembler, id) == native_function(c.assembler, id),
{
    broadcast use lemma_native_word_keeps, lemma_entry_keeps, lemma_with_native_keeps, lemma_table_entry_keeps;
    reveal(with_memory_words);
}

/// The execution words keep every function already defined.
#[verifier::spinoff_prover]
#[verifier::rlimit(60)]
proof fn lemma_execution_words_keep_functions(c: CompilerSpec, id: u32)
    requires
        native_function(c.assembler, id) is Some,
    ensures
        native_function(with_execution_words(c).assembler, id) == native_function(c.assembler, id),
{
    broadcast use lemma_native_word_keeps, lemma_entry_keeps, lemma_with_native_keeps, lemma_table_entry_keeps;
    reveal(with_execution_words);
}

/// The arithmetic words keep every function already defined.
#[verifier::spinoff_prover]
#[verifier::rlimit(60)]
proof fn lemma_arithmetic_words_keep_functions(c: CompilerSpec, id: u32)
    requires
        native_function(c.assembler, id) is Some,
    ensures
        native_function(with_arithmetic_words(c).assembler, id) == native_function(c.assembler, id),
{
    broadcast use lemma_native_word_keeps, lemma_entry_keeps, lemma_with_native_keeps, lemma_table_entry_keeps;
    reveal(with_arithmetic_words);
}

/// The bit logic words keep every function already defined.
#[verifier::spinoff_prover]
#[verifier::rlimit(60)]
proof fn lemma_bit_logic_words_keep_functions(c: CompilerSpec, id: u32)
    requires
        native_function(c.assembler, id) is Some,
    ensures
        native_function(with_bit_logic_words(c).assembler, id) == native_function(c.assembler, id),
{
    broadcast use lemma_native_word_keeps, lemma_entry_keeps, lemma_with_native_keeps, lemma_table_entry_keeps;
    reveal(with_bit_logic_words);
}

/// The comparison words keep every function already defined.
#[verifier::spinoff_prover]
#[verifier::rlimit(60)]
proof fn lemma_comparison_words_keep_functions(c: CompilerSpec, id: u32)
    requires
        native_function(c.assembler, id) is Some,
    ensures
        native_function(with_comparison_words(c).assembler, id) == native_function(c.assembler, id),
{
    broadcast use lemma_native_word_keeps, lemma_entry_keeps, lemma_with_native_keeps, lemma_table_entry_keeps;
    reveal(with_comparison_words);
}

/// The function ids and stack global of a compiler that the words' code
/// refers to.
pub open spec fn stack_ids(c: CompilerSpec) -> (u32, u32, u32, u32, u32) {
    (c.stack, c.push, c.pop, c.push_d, c.pop_d)
}

/// Adding a native word keeps the stack ids.
pub broadcast proof fn lemma_words_keep_ids(c: CompilerSpec, name: Seq<char>, locals: Seq<ValType>, body: Seq<Instr>)
    ensures
        stack_ids(#[trigger] c.with_native_word(name, locals, body)) == stack_ids(c),
{
    reveal(CompilerSpec::with_native_word);
    reveal(CompilerSpec::with_entry);
}

/// Adding an entry keeps the stack ids.
pub broadcast proof fn lemma_entry_keeps_ids(c: CompilerSpec, name: Seq<char>, code: u32, parameter: Seq<u8>)
    ensures
        stack_ids(#[trigger] c.with_entry(name, code, parameter)) == stack_ids(c),
{
    reveal(CompilerSpec::with_entry);
}

/// `with_memory_words` keeps the stack ids.
#[verifier::spinoff_prover]
#[verifier::rlimit(60)]
pub proof fn lemma_memory_keep_ids(c: CompilerSpec)
    ensures
        stack_ids(with_memory_words(c)) == stack_ids(c),
{
    broadcast use lemma_words_keep_ids, lemma_entry_keeps_ids;
    reveal(with_memory_words);
}

/// `with_execution_words` keeps the stack ids.
#[verifier::spinoff_prover]
#[verifier::rlimit(60)]
pub proof fn lemma_execution_keep_ids(c: CompilerSpec)
    ensures
        stack_ids(with_execution_words(c)) == stack_ids(c),
{
    broadcast use lemma_words_keep_ids, lemma_entry_keeps_ids;
    reveal(with_execution_words);
}

/// `with_arithmetic_words` keeps the stack ids.
#[verifier::spinoff_prover]
#[verifier::rlimit(60)]
pub proof fn lemma_arithmetic_keep_ids(c: CompilerSpec)
    ensures
        stack_ids(with_arithmetic_words(c)) == stack_ids(c),
{
    broadcast use lemma_words_keep_ids, lemma_entry_keeps_ids;
    reveal(with_arithmetic_words);
}

/// `with_bit_logic_words` keeps the stack ids.
#[verifier::spinoff_prover]
#[verifier::rlimit(60)]
pub proof fn lemma_bit_logic_keep_ids(c: CompilerSpec)
    ensures
        stack_ids(with_bit_logic_words(c)) == stack_ids(c),
{
    broadcast use lemma_words_keep_ids, lemma_entry_keeps_ids;
    reveal(with_bit_logic_words);
}

/// `with_comparison_words` keeps the stack ids.
#[verifier::spinoff_prover]
#[verifier::rlimit(60)]
pub proof fn lemma_comparison_keep_ids(c: CompilerSpec)
    ensures
        stack_ids(with_comparison_words(c)) == stack_ids(c),
{
    broadcast use lemma_words_keep_ids, lemma_entry_keeps_ids;
    reveal(with_comparison_words);
}

/// `with_stack_word_defs` keeps the stack ids.
#[verifier::spinoff_prover]
#[verifier::rlimit(60)]
pub proof fn lemma_stack_word_defs_keep_ids(c: CompilerSpec, r_stack: u32)
    ensures
        stack_ids(with_stack_word_defs(c, r_stack)) == stack_ids(c),
{
    broadcast use lemma_words_keep_ids, lemma_entry_keeps_ids;
    reveal(with_stack_word_defs);
}

/// The stack-manipulation words keep every function already defined.
#[verifier::spinoff_prover]
#[verifier::rlimit(60)]
proof fn lemma_stack_word_defs_keep_functions(c: CompilerSpec, r_stack: u32, id: u32)
    requires
        native_function(c.assembler, id) is Some,
    ensures
        native_function(with_stack_word_defs(c, r_stack).assembler, id) == native_function(c.assembler, id),
{
    broadcast use lemma_native_word_keeps, lemma_entry_keeps, lemma_with_native_keeps, lemma_table_entry_keeps;
    reveal(with_stack_word_defs);
}

/// In an empty module, the stacks' functions are the cell and double-cell
/// push and pop functions of the data stack.
#[verifier::spinoff_prover]
#[verifier::rlimit(60)]
proof fn lemma_stack_functions_defined(c: CompilerSpec)
    requires
        c.assembler.slots.len() == 0,
        c.assembler.natives.len() == 0,
        c.assembler.types.len() == 0,
    ensures
        ({
            let d = with_stack_functions(c);
            &&& native_function(d.assembler, d.push) == Some(push_function(d.stack))
            &&& native_function(d.assembler, d.pop) == Some(pop_function(d.stack))
            &&& native_function(d.assembler, d.push_d) == Some(push_d_function(d.stack))
            &&& native_function(d.assembler, d.pop_d) == Some(pop_d_function(d.stack))
        }),
{
    broadcast use lemma_with_native_keeps;
    reveal(with_stack_functions);
    let stack = c.assembler.globals.len() as u32;
    let c1 = c.with_global(crate::bootstrapper::compiler::PARAM_STACK_BASE);
    lemma_with_native_new(c1.assembler, seq![ValType::I32], seq![], seq![], push_code(stack));
    let c2 = c1.with_function(seq![ValType::I32], seq![], seq![], push_code(stack));
    lemma_with_native_new(c2.assembler, seq![], seq![ValType::I32], seq![], pop_code(stack));
    let c3 = c2.with_function(seq![], seq![ValType::I32], seq![], pop_code(stack));
    lemma_with_native_new(c3.assembler, [ValType::I64]@, seq![], seq![], push_d_code(stack));
    let c4 = c3.with_function([ValType::I64]@, seq![], seq![], push_d_code(stack));
    lemma_with_native_new(c4.assembler, seq![], [ValType::I64]@, seq![], pop_d_code(stack));
}

/// Law (module functions): in the compiler every build starts from, the
/// functions the code of the words calls to push and pop cells and double
/// cells are the push and pop functions of its data stack, so the laws of
/// this module apply to its words with `module_functions` of its module.
pub proof fn lemma_default_stack_functions()
    ensures
        ({
            let c = crate::bootstrapper::compiler::default_compiler();
            &&& stack_functions(module_functions(c.assembler), c.stack, c.push, c.pop)
            &&& double_functions(module_functions(c.assembler), c.stack, c.push_d, c.pop_d)
        }),
{
    broadcast use lemma_entry_keeps, lemma_entry_keeps_ids;
    let c0 = crate::bootstrapper::compiler::empty_compiler();
    let c01 = with_stack_functions(c0);
    lemma_stack_functions_defined(c0);
    let c1 = with_stack_words(c0);
    let c2 = with_memory_words(c1);
    let c3 = with_execution_words(c2);
    let c4 = with_arithmetic_words(c3);
    let c5 = with_bit_logic_words(c4);
    let c6 = with_comparison_words(c5);
    lemma_stack_word_defs_keep_ids(c01, (c0.assembler.globals.len() + 1) as u32);
    lemma_memory_keep_ids(c1);
    lemma_execution_keep_ids(c2);
    lemma_arithmetic_keep_ids(c3);
    lemma_bit_logic_keep_ids(c4);
    lemma_comparison_keep_ids(c5);
    assert(c1 == with_stack_word_defs(c01, (c0.assembler.globals.len() + 1) as u32));
    let ids = seq![c1.push, c1.pop, c1.push_d, c1.pop_d];
    assert forall|j: int| 0 <= j < 4 implies native_function(c6.assembler, #[trigger] ids[j]) == native_function(c1.assembler, ids[j]) by {
        let id = ids[j];
        lemma_stack_word_defs_keep_functions(c01, (c0.assembler.globals.len() + 1) as u32, id);
        lemma_memory_words_keep_functions(c1, id);
        lemma_execution_words_keep_functions(c2, id);
        lemma_arithmetic_words_keep_functions(c3, id);
        lemma_bit_logic_words_keep_functions(c4, id);
        lemma_comparison_words_keep_functions(c5, id);
    }
    assert(native_function(c6.assembler, ids[0]) == native_function(c1.assembler, ids[0]));
    assert(native_function(c6.assembler, ids[1]) == native_function(c1.assembler, ids[1]));
    assert(native_function(c6.assembler, ids[2]) == native_function(c1.assembler, ids[2]));
    assert(native_function(c6.assembler, ids[3]) == native_function(c1.assembler, ids[3]));
    let c7 = c6.with_constant("DICT-BASE"@, crate::bootstrapper::compiler::DICTIONARY_BASE);
    let c8 = c7.with_constant("DICT-CAPACITY"@, crate::bootstrapper::compiler::DICTIONARY_CAPACITY);
    let c9 = c8.with_variable("CP"@, crate::bootstrapper::compiler::DICTIONARY_BASE);
    let c10 = c9.with_variable("LATEST"@, crate::bootstrapper::compiler::DICTIONARY_BASE);
    assert(stack_ids(c10) == stack_ids(c6));
    let c = crate::bootstrapper::compiler::default_compiler();
    assert(c == c10);
    assert forall|j: int| 0 <= j < 4 implies native_function(c10.assembler, #[trigger] ids[j]) == native_function(c6.assembler, ids[j]) by {
        let id = ids[j];
        assert(native_function(c7.assembler, id) == native_function(c6.assembler, id));
        assert(native_function(c8.assembler, id) == native_function(c7.assembler, id));
        assert(native_function(c9.assembler, id) == native_function(c8.assembler, id));
        assert(native_function(c10.assembler, id) == native_function(c9.assembler, id));
    }
    assert(native_function(c10.assembler, ids[0]) == native_function(c6.assembler, ids[0]));
    assert(native_function(c10.assembler, ids[1]) == native_function(c6.assembler, ids[1]));
    assert(native_function(c10.assembler, ids[2]) == native_function(c6.assembler, ids[2]));
    assert(native_function(c10.assembler, ids[3]) == native_function(c6.assembler, ids[3]));
    lemma_stack_word_defs_keep_functions(c01, (c0.assembler.globals.len() + 1) as u32, c01.push);
    lemma_stack_word_defs_keep_functions(c01, (c0.assembler.globals.len() + 1) as u32, c01.pop);
    lemma_stack_word_defs_keep_functions(c01, (c0.assembler.globals.len() + 1) as u32, c01.push_d);
    lemma_stack_word_defs_keep_functions(c01, (c0.assembler.globals.len() + 1) as u32, c01.pop_d);
    assert(stack_ids(c) == stack_ids(c01));
    let funcs = module_functions(c.assembler);
    assert(native_function(c.assembler, c.push) == Some(push_function(c.stack)));
    assert(native_function(c.assembler, c.pop) == Some(pop_function(c.stack)));
    assert(native_function(c.assembler, c.push_d) == Some(push_d_function(c.stack)));
    assert(native_function(c.assembler, c.pop_d) == Some(pop_d_function(c.stack)));
    assert(funcs.contains_key(c.push) && funcs[c.push] == push_function(c.stack));
    assert(funcs.contains_key(c.pop) && funcs[c.pop] == pop_function(c.stack));
    assert(funcs.contains_key(c.push_d) && funcs[c.push_d] == push_d_function(c.stack));
    assert(funcs.contains_key(c.pop_d) && funcs[c.pop_d] == pop_d_function(c.stack));
}

} // verus!
