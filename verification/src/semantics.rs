//! What the emitted WebAssembly computes: a big-step semantics of the
//! instructions of [`Instr`] over an operand stack, locals, the module's
//! globals and its linear memory, following the WebAssembly specification
//! for the instructions it covers.
//!
//! Calls run the called function's body on a fresh frame whose locals are
//! its arguments followed by its declared locals, zero-initialised. An `if`
//! whose condition is zero continues after its `else` or, without one, its
//! `end`; a taken branch meeting its `else` continues after the matching
//! `end`. A 64-bit memory access reads or writes the value's low half at
//! the address and its high half 4 bytes above it, each little-endian.
//! Loops, branches, indirect calls, memory growth and the byte memory
//! instructions are not covered: on them, and on a trap (division by zero,
//! an access outside memory) or running out of fuel, `exec` yields `None`.
use vstd::prelude::*;
use crate::layout::{add32, cell_value, le32, sub32};
use crate::wasm::{Instr, ValType};

verus! {

/// A WebAssembly value.
pub enum Value {
    I32(i32),
    I64(i64),
}

/// The state a function body runs on.
pub struct Machine {
    pub operands: Seq<Value>,
    pub locals: Seq<Value>,
    pub globals: Seq<i32>,
    pub memory: Map<int, u8>,
    pub memory_size: int,
}

/// A defined function: its number of parameters, declared locals and body.
pub struct Function {
    pub params: nat,
    pub locals: Seq<ValType>,
    pub body: Seq<Instr>,
}

/// The initial value of a local of type `t`.
pub open spec fn zero(t: ValType) -> Value {
    match t {
        ValType::I32 => Value::I32(0),
        ValType::I64 => Value::I64(0),
    }
}

/// The cell stored at `address`, least significant byte first.
pub open spec fn load32(memory: Map<int, u8>, address: int) -> i32 {
    cell_value(seq![memory[address], memory[address + 1], memory[address + 2], memory[address + 3]])
}

/// `memory` with the cell at `address` set to `value`.
pub open spec fn store32(memory: Map<int, u8>, address: int, value: i32) -> Map<int, u8> {
    let b = le32(value);
    memory.insert(address, b[0]).insert(address + 1, b[1]).insert(address + 2, b[2]).insert(address + 3, b[3])
}

/// The low half of a 64-bit value.
pub open spec fn low(v: i64) -> i32 {
    v as i32
}

/// The high half of a 64-bit value.
pub open spec fn high(v: i64) -> i32 {
    (v >> 32u64) as i32
}

/// The 64-bit value with halves `lo` and `hi`.
pub open spec fn join(lo: i32, hi: i32) -> i64 {
    ((hi as i64) << 32u64) | ((lo as u32) as i64)
}

/// The 64-bit value stored at `address`: its low half first.
pub open spec fn load64(memory: Map<int, u8>, address: int) -> i64 {
    join(load32(memory, address), load32(memory, address + 4))
}

/// `memory` with the 64-bit value at `address` set to `value`.
pub open spec fn store64(memory: Map<int, u8>, address: int, value: i64) -> Map<int, u8> {
    store32(store32(memory, address, low(value)), address + 4, high(value))
}

/// `a` rotated left by `s` bits (`i64.rotl`).
pub open spec fn rotl64(a: i64, s: u64) -> i64 {
    let k = s % 64;
    if k == 0 {
        a
    } else {
        (((a as u64) << k) | ((a as u64) >> (64 - k))) as i64
    }
}

/// 64-bit wrapping addition.
pub open spec fn add64(a: i64, b: i64) -> i64 {
    vstd::wrapping::i64_specs::wrapping_add(a, b)
}

/// 64-bit wrapping subtraction.
pub open spec fn sub64(a: i64, b: i64) -> i64 {
    vstd::wrapping::i64_specs::wrapping_sub(a, b)
}

/// The result of a binary `i64` instruction, or `None` where it traps or is
/// not covered.
pub open spec fn i64_binary(op: Instr, a: i64, b: i64) -> Option<Value> {
    match op {
        Instr::I64Add => Some(Value::I64(add64(a, b))),
        Instr::I64Sub => Some(Value::I64(sub64(a, b))),
        Instr::I64DivS => if b == 0 || (a == i64::MIN && b == -1) {
            None
        } else {
            Some(Value::I64(trunc_div(a as int, b as int) as i64))
        },
        Instr::I64RemS => if b == 0 {
            None
        } else {
            Some(Value::I64(trunc_rem(a as int, b as int) as i64))
        },
        Instr::I64DivU => if b == 0 {
            None
        } else {
            Some(Value::I64(((a as u64) / (b as u64)) as i64))
        },
        Instr::I64RemU => if b == 0 {
            None
        } else {
            Some(Value::I64(((a as u64) % (b as u64)) as i64))
        },
        Instr::I64Rotl => Some(Value::I64(rotl64(a, b as u64))),
        Instr::I64Xor => Some(Value::I64(a ^ b)),
        Instr::I64Eq => Some(Value::I32(flag(a == b))),
        Instr::I64Ne => Some(Value::I32(flag(a != b))),
        Instr::I64LtS => Some(Value::I32(flag(a < b))),
        Instr::I64GtS => Some(Value::I32(flag(a > b))),
        Instr::I64LeS => Some(Value::I32(flag(a <= b))),
        Instr::I64GeS => Some(Value::I32(flag(a >= b))),
        _ => None,
    }
}

/// The byte address an access with base `base` and immediate offset
/// `offset` reaches: the base is read as an unsigned 32-bit number.
pub open spec fn effective_address(base: i32, offset: u32) -> int {
    (base as u32) as int + offset as int
}

/// A 4-byte access at `address` lies within memory.
pub open spec fn in_memory(m: Machine, address: int) -> bool {
    0 <= address && address + 4 <= m.memory_size
}

/// 32-bit wrapping multiplication.
pub open spec fn mul32(a: i32, b: i32) -> i32 {
    vstd::wrapping::i32_specs::wrapping_mul(a, b)
}

/// Division truncated toward zero (`i32.div_s`), for a nonzero divisor.
pub open spec fn trunc_div(a: int, b: int) -> int {
    let q = abs(a) / abs(b);
    if (a < 0) == (b < 0) {
        q
    } else {
        -q
    }
}

/// The remainder of `trunc_div` (`i32.rem_s`): it has the dividend's sign.
pub open spec fn trunc_rem(a: int, b: int) -> int {
    a - b * trunc_div(a, b)
}

/// The absolute value of an integer.
pub open spec fn abs(a: int) -> int {
    if a < 0 {
        -a
    } else {
        a
    }
}

/// A WebAssembly boolean.
pub open spec fn flag(b: bool) -> i32 {
    if b {
        1
    } else {
        0
    }
}

/// The result of a binary `i32` instruction, or `None` where it traps or is
/// not covered.
pub open spec fn i32_binary(op: Instr, a: i32, b: i32) -> Option<i32> {
    match op {
        Instr::I32Add => Some(add32(a, b)),
        Instr::I32Sub => Some(sub32(a, b)),
        Instr::I32Mul => Some(mul32(a, b)),
        Instr::I32DivS => if b == 0 || (a == i32::MIN && b == -1) {
            None
        } else {
            Some(trunc_div(a as int, b as int) as i32)
        },
        Instr::I32RemS => if b == 0 {
            None
        } else {
            Some(trunc_rem(a as int, b as int) as i32)
        },
        Instr::I32And => Some(a & b),
        Instr::I32Or => Some(a | b),
        Instr::I32Xor => Some(a ^ b),
        Instr::I32ShrS => Some(a >> ((b as u32) % 32)),
        Instr::I32Eq => Some(flag(a == b)),
        Instr::I32Ne => Some(flag(a != b)),
        Instr::I32LtS => Some(flag(a < b)),
        Instr::I32GtS => Some(flag(a > b)),
        Instr::I32LeS => Some(flag(a <= b)),
        Instr::I32GeS => Some(flag(a >= b)),
        Instr::I32LtU => Some(flag((a as u32) < (b as u32))),
        Instr::I32GtU => Some(flag((a as u32) > (b as u32))),
        Instr::I32LeU => Some(flag((a as u32) <= (b as u32))),
        Instr::I32GeU => Some(flag((a as u32) >= (b as u32))),
        _ => None,
    }
}

/// The result of the unsigned division and the shift instructions on `i32`
/// operands, or `None` where it traps or `op` is none of them.
pub open spec fn i32_unsigned_binary(op: Instr, a: i32, b: i32) -> Option<i32> {
    match op {
        Instr::I32DivU => if b == 0 {
            None
        } else {
            Some(((a as u32) / (b as u32)) as i32)
        },
        Instr::I32RemU => if b == 0 {
            None
        } else {
            Some(((a as u32) % (b as u32)) as i32)
        },
        Instr::I32Shl => Some(a << ((b as u32) % 32)),
        Instr::I32ShrU => Some(((a as u32) >> ((b as u32) % 32)) as i32),
        _ => None,
    }
}

/// The `k`-th operand from the top (0 is the top).
pub open spec fn operand(m: Machine, k: int) -> Value {
    m.operands[m.operands.len() - 1 - k]
}

/// `m` with its top `n` operands replaced by `pushed`.
pub open spec fn replace_top(m: Machine, n: int, pushed: Seq<Value>) -> Machine {
    Machine { operands: m.operands.subrange(0, m.operands.len() - n) + pushed, ..m }
}

/// One step of an instruction other than a call, or `None` where it traps,
/// is ill-typed or is not covered.
pub open spec fn step(i: Instr, m: Machine) -> Option<Machine> {
    let n = m.operands.len();
    match i {
        Instr::End => Some(m),
        Instr::I32Const(v) => Some(replace_top(m, 0, seq![Value::I32(v)])),
        Instr::GetLocal(k) => if k < m.locals.len() {
            Some(replace_top(m, 0, seq![m.locals[k as int]]))
        } else {
            None
        },
        Instr::SetLocal(k) => if k < m.locals.len() && n >= 1 {
            Some(Machine { locals: m.locals.update(k as int, operand(m, 0)), ..replace_top(m, 1, seq![]) })
        } else {
            None
        },
        Instr::TeeLocal(k) => if k < m.locals.len() && n >= 1 {
            Some(Machine { locals: m.locals.update(k as int, operand(m, 0)), ..m })
        } else {
            None
        },
        Instr::GetGlobal(g) => if g < m.globals.len() {
            Some(replace_top(m, 0, seq![Value::I32(m.globals[g as int])]))
        } else {
            None
        },
        Instr::SetGlobal(g) => if g < m.globals.len() && n >= 1 {
            match operand(m, 0) {
                Value::I32(v) => Some(Machine { globals: m.globals.update(g as int, v), ..replace_top(m, 1, seq![]) }),
                _ => None,
            }
        } else {
            None
        },
        Instr::I32Load(_, offset) => if n >= 1 {
            match operand(m, 0) {
                Value::I32(base) => {
                    let a = effective_address(base, offset);
                    if in_memory(m, a) {
                        Some(replace_top(m, 1, seq![Value::I32(load32(m.memory, a))]))
                    } else {
                        None
                    }
                },
                _ => None,
            }
        } else {
            None
        },
        Instr::I32Store(_, offset) => if n >= 2 {
            match (operand(m, 1), operand(m, 0)) {
                (Value::I32(base), Value::I32(v)) => {
                    let a = effective_address(base, offset);
                    if in_memory(m, a) {
                        Some(Machine { memory: store32(m.memory, a, v), ..replace_top(m, 2, seq![]) })
                    } else {
                        None
                    }
                },
                _ => None,
            }
        } else {
            None
        },
        Instr::I64Const(v) => Some(replace_top(m, 0, seq![Value::I64(v)])),
        Instr::I64Load(_, offset) => if n >= 1 {
            match operand(m, 0) {
                Value::I32(base) => {
                    let a = effective_address(base, offset);
                    if 0 <= a && a + 8 <= m.memory_size {
                        Some(replace_top(m, 1, seq![Value::I64(load64(m.memory, a))]))
                    } else {
                        None
                    }
                },
                _ => None,
            }
        } else {
            None
        },
        Instr::I64Store(_, offset) => if n >= 2 {
            match (operand(m, 1), operand(m, 0)) {
                (Value::I32(base), Value::I64(v)) => {
                    let a = effective_address(base, offset);
                    if 0 <= a && a + 8 <= m.memory_size {
                        Some(Machine { memory: store64(m.memory, a, v), ..replace_top(m, 2, seq![]) })
                    } else {
                        None
                    }
                },
                _ => None,
            }
        } else {
            None
        },
        Instr::I64ExtendSI32 => if n >= 1 {
            match operand(m, 0) {
                Value::I32(v) => Some(replace_top(m, 1, seq![Value::I64(v as i64)])),
                _ => None,
            }
        } else {
            None
        },
        Instr::I64ExtendUI32 => if n >= 1 {
            match operand(m, 0) {
                Value::I32(v) => Some(replace_top(m, 1, seq![Value::I64((v as u32) as i64)])),
                _ => None,
            }
        } else {
            None
        },
        Instr::I32WrapI64 => if n >= 1 {
            match operand(m, 0) {
                Value::I64(v) => Some(replace_top(m, 1, seq![Value::I32(low(v))])),
                _ => None,
            }
        } else {
            None
        },
        Instr::I32Eqz => if n >= 1 {
            match operand(m, 0) {
                Value::I32(v) => Some(replace_top(m, 1, seq![Value::I32(flag(v == 0))])),
                _ => None,
            }
        } else {
            None
        },
        Instr::Select => if n >= 3 {
            match operand(m, 0) {
                Value::I32(c) => Some(replace_top(m, 3, seq![if c != 0 { operand(m, 2) } else { operand(m, 1) }])),
                _ => None,
            }
        } else {
            None
        },
        Instr::I32DivU | Instr::I32RemU | Instr::I32Shl | Instr::I32ShrU => if n >= 2 {
            match (operand(m, 1), operand(m, 0)) {
                (Value::I32(a), Value::I32(b)) => match i32_unsigned_binary(i, a, b) {
                    Some(r) => Some(replace_top(m, 2, seq![Value::I32(r)])),
                    None => None,
                },
                _ => None,
            }
        } else {
            None
        },
        _ => if n >= 2 {
            match (operand(m, 1), operand(m, 0)) {
                (Value::I32(a), Value::I32(b)) => match i32_binary(i, a, b) {
                    Some(r) => Some(replace_top(m, 2, seq![Value::I32(r)])),
                    None => None,
                },
                (Value::I64(a), Value::I64(b)) => match i64_binary(i, a, b) {
                    Some(r) => Some(replace_top(m, 2, seq![r])),
                    None => None,
                },
                _ => None,
            }
        } else {
            None
        },
    }
}

/// The frame a call of `f` with `args` starts on.
pub open spec fn frame(f: Function, args: Seq<Value>, m: Machine) -> Machine {
    Machine { operands: seq![], locals: args + f.locals.map_values(|t: ValType| zero(t)), ..m }
}

/// The position of the `else` or `end` that closes the block open at `pc`,
/// `depth` blocks deeper than the one it closes (`code.len()` when none does).
pub open spec fn block_close(code: Seq<Instr>, pc: int, depth: nat) -> int
    decreases code.len() - pc,
{
    if pc < 0 || pc >= code.len() {
        code.len() as int
    } else {
        match code[pc] {
            Instr::If(_) | Instr::Loop(_) => block_close(code, pc + 1, depth + 1),
            Instr::End => if depth == 0 {
                pc
            } else {
                block_close(code, pc + 1, (depth - 1) as nat)
            },
            Instr::Else => if depth == 0 {
                pc
            } else {
                block_close(code, pc + 1, depth)
            },
            _ => block_close(code, pc + 1, depth),
        }
    }
}

/// The position of the `end` that closes the block open at `pc`.
pub open spec fn block_end(code: Seq<Instr>, pc: int) -> int
    decreases code.len() - pc,
{
    let k = block_close(code, pc, 0);
    if 0 <= k < code.len() && code[k] is Else && pc <= k {
        block_end(code, k + 1)
    } else {
        k
    }
}

/// Runs `code` from instruction `pc` on `m`, with `funcs` the functions a
/// `call` can reach by id. Each call spends one unit of `fuel`.
pub open spec fn exec(funcs: Map<u32, Function>, code: Seq<Instr>, pc: int, m: Machine, fuel: nat) -> Option<Machine>
    decreases fuel, code.len() - pc,
{
    if pc < 0 || pc >= code.len() {
        Some(m)
    } else {
        match code[pc] {
            Instr::Call(id) => {
                if fuel == 0 || !funcs.contains_key(id) || m.operands.len() < funcs[id].params {
                    None
                } else {
                    let f = funcs[id];
                    let k = m.operands.len() - f.params;
                    let args = m.operands.subrange(k, m.operands.len() as int);
                    match exec(funcs, f.body, 0, frame(f, args, m), (fuel - 1) as nat) {
                        Some(r) => exec(
                            funcs,
                            code,
                            pc + 1,
                            Machine {
                                operands: m.operands.subrange(0, k) + r.operands,
                                globals: r.globals,
                                memory: r.memory,
                                ..m
                            },
                            fuel,
                        ),
                        None => None,
                    }
                }
            },
            Instr::If(_) => if m.operands.len() >= 1 {
                match operand(m, 0) {
                    Value::I32(c) => {
                        let rest = replace_top(m, 1, seq![]);
                        if c != 0 {
                            exec(funcs, code, pc + 1, rest, fuel)
                        } else {
                            let k = block_close(code, pc + 1, 0);
                            if pc < k < code.len() {
                                exec(funcs, code, k + 1, rest, fuel)
                            } else {
                                None
                            }
                        }
                    },
                    _ => None,
                }
            } else {
                None
            },
            Instr::Else => {
                let k = block_end(code, pc + 1);
                if pc < k < code.len() {
                    exec(funcs, code, k + 1, m, fuel)
                } else {
                    None
                }
            },
            _ => match step(code[pc], m) {
                Some(next) => exec(funcs, code, pc + 1, next, fuel),
                None => None,
            },
        }
    }
}

/// The result of calling `f` with `args` on `m`: the machine after its body,
/// whose operands are the call's results.
pub open spec fn invoke(funcs: Map<u32, Function>, f: Function, args: Seq<Value>, m: Machine, fuel: nat) -> Option<Machine> {
    exec(funcs, f.body, 0, frame(f, args, m), fuel)
}

/// The machine after a call that took `params` arguments from `m` and
/// ended in `r`: the arguments are replaced by the call's results, and the
/// globals and memory are those the call left.
pub open spec fn after_call(m: Machine, params: nat, r: Machine) -> Machine {
    Machine {
        operands: m.operands.subrange(0, m.operands.len() - params) + r.operands,
        globals: r.globals,
        memory: r.memory,
        ..m
    }
}

/// The arguments a call taking `params` values takes from `m`.
pub open spec fn call_args(m: Machine, params: nat) -> Seq<Value> {
    m.operands.subrange(m.operands.len() - params, m.operands.len() as int)
}

/// Running code at an instruction other than a call takes one step.
pub proof fn lemma_exec_step(funcs: Map<u32, Function>, code: Seq<Instr>, pc: int, m: Machine, fuel: nat)
    requires
        0 <= pc < code.len(),
        !(code[pc] is Call),
        step(code[pc], m) is Some,
    ensures
        exec(funcs, code, pc, m, fuel) == exec(funcs, code, pc + 1, step(code[pc], m).unwrap(), fuel),
{
}

/// Running code at a call runs the called function's body on a fresh frame
/// and continues with its results.
pub proof fn lemma_exec_call(funcs: Map<u32, Function>, code: Seq<Instr>, pc: int, m: Machine, fuel: nat, id: u32)
    requires
        0 <= pc < code.len(),
        code[pc] == Instr::Call(id),
        funcs.contains_key(id),
        fuel >= 1,
        m.operands.len() >= funcs[id].params,
        exec(funcs, funcs[id].body, 0, frame(funcs[id], call_args(m, funcs[id].params), m), (fuel - 1) as nat) is Some,
    ensures
        exec(funcs, code, pc, m, fuel) == exec(
            funcs,
            code,
            pc + 1,
            after_call(
                m,
                funcs[id].params,
                exec(funcs, funcs[id].body, 0, frame(funcs[id], call_args(m, funcs[id].params), m), (fuel - 1) as nat).unwrap(),
            ),
            fuel,
        ),
{
}

/// Running past the last instruction leaves the machine as it is.
pub proof fn lemma_exec_done(funcs: Map<u32, Function>, code: Seq<Instr>, m: Machine, fuel: nat)
    ensures
        exec(funcs, code, code.len() as int, m, fuel) == Some(m),
{
}

/// Running code at an `if` drops its condition and enters the block when
/// the condition is not zero, and continues after the block's `else` or
/// `end` when it is.
pub proof fn lemma_exec_if(funcs: Map<u32, Function>, code: Seq<Instr>, pc: int, m: Machine, fuel: nat, c: i32)
    requires
        0 <= pc < code.len(),
        code[pc] is If,
        m.operands.len() >= 1,
        m.operands.last() == Value::I32(c),
    ensures
        c != 0 ==> exec(funcs, code, pc, m, fuel) == exec(funcs, code, pc + 1, replace_top(m, 1, seq![]), fuel),
        c == 0 && pc < block_close(code, pc + 1, 0) < code.len() ==> exec(funcs, code, pc, m, fuel) == exec(
            funcs,
            code,
            block_close(code, pc + 1, 0) + 1,
            replace_top(m, 1, seq![]),
            fuel,
        ),
{
}

/// A 64-bit value is made of its two halves, and rotating it by 32 bits
/// swaps them.
pub proof fn lemma_halves(l: i32, h: i32, v: i64)
    ensures
        low(join(l, h)) == l,
        high(join(l, h)) == h,
        join(low(v), high(v)) == v,
        rotl64(join(l, h), 32) == join(h, l),
{
    assert((((((h as i64) << 32u64) | ((l as u32) as i64)) as i32) == l)) by (bit_vector);
    assert(((((((h as i64) << 32u64) | ((l as u32) as i64)) >> 32u64) as i32) == h)) by (bit_vector);
    assert((((((v >> 32u64) as i32) as i64) << 32u64) | (((v as i32) as u32) as i64)) == v) by (bit_vector);
    let j = ((h as i64) << 32u64) | ((l as u32) as i64);
    assert((((j as u64) << 32u64) | ((j as u64) >> 32u64)) as i64 == (((l as i64) << 32u64) | ((h as u32) as i64)))
        by (bit_vector)
        requires j == ((h as i64) << 32u64) | ((l as u32) as i64);
    assert(32u64 % 64 == 32);
}

} // verus!
