//! Lowering of the plain module description to parity_wasm values and bytes.
//!
//! Every function marked `external_body` here builds one parity_wasm value
//! from plain values; Verus does not look inside parity_wasm's types, so each
//! contract only names the value it returns as the image of its plain
//! arguments under an uninterpreted spec function.
use vstd::prelude::*;
use parity_wasm::elements::{
    BlockType as PwBlockType, CodeSection, DataSection, DataSegment as PwDataSegment,
    ElementSection, ElementSegment, ExportEntry, ExportSection, External, Func,
    FuncBody, FunctionSection, FunctionType, GlobalEntry, GlobalSection, GlobalType, ImportEntry,
    ImportSection, InitExpr, Instruction as PwInstruction, Instructions, Internal, Local,
    MemorySection, MemoryType, Module, Section, TableSection, TableType, Type, TypeSection,
    ValueType,
};
use crate::wasm::{
    BlockType, DataSegment, DataSpec, Export, ExportKind, ExportSpec, FuncType, FuncTypeSpec,
    ImportSpec, ImportedFunc, Instr, ValType,
};

verus! {

#[verifier::external_type_specification]
#[verifier::external_body]
pub struct ExPwInstruction(PwInstruction);

#[verifier::external_type_specification]
#[verifier::external_body]
pub struct ExSection(Section);

#[verifier::external_type_specification]
#[verifier::external_body]
pub struct ExFuncBody(FuncBody);

/// The parity_wasm instruction that a plain instruction denotes.
pub uninterp spec fn wasm_instruction(i: Instr) -> PwInstruction;

/// The parity_wasm type section listing the given signatures, in order.
pub uninterp spec fn wasm_type_section(types: Seq<FuncTypeSpec>) -> Section;

/// The parity_wasm import section importing the given functions, in order.
pub uninterp spec fn wasm_import_section(imports: Seq<ImportSpec>) -> Section;

/// The parity_wasm function section giving each defined function its signature index.
pub uninterp spec fn wasm_function_section(type_refs: Seq<u32>) -> Section;

/// The parity_wasm section declaring one function table with `initial` slots
/// and at most `maximum` slots.
pub uninterp spec fn wasm_table_section(initial: u32, maximum: Option<u32>) -> Section;

/// The parity_wasm section declaring one linear memory of at least `pages` pages.
pub uninterp spec fn wasm_memory_section(pages: u32) -> Section;

/// The parity_wasm section declaring one i32 global per initial value, each
/// mutable when `mutable` holds.
pub uninterp spec fn wasm_global_section(mutable: bool, initial_values: Seq<i32>) -> Section;

/// The parity_wasm export section with the given exports, in order.
pub uninterp spec fn wasm_export_section(exports: Seq<ExportSpec>) -> Section;

/// The parity_wasm element section filling table `table` from slot `offset`
/// with `members`.
pub uninterp spec fn wasm_element_section(table: u32, offset: i32, members: Seq<u32>) -> Section;

/// The parity_wasm function body declaring, for each entry of `locals`, that
/// many locals of that type, with the given code.
pub uninterp spec fn wasm_func_body(locals: Seq<(u32, ValType)>, code: Seq<PwInstruction>) -> FuncBody;

/// The parity_wasm code section holding the given bodies, in order.
pub uninterp spec fn wasm_code_section(bodies: Seq<FuncBody>) -> Section;

/// The parity_wasm data section holding the given active segments of memory
/// `memory`, in order.
pub uninterp spec fn wasm_data_section(memory: u32, segments: Seq<DataSpec>) -> Section;

/// The binary encoding parity_wasm produces for a module made of the given
/// sections, or `None` where its serializer reports an error.
pub uninterp spec fn wasm_binary(sections: Seq<Section>) -> Option<Seq<u8>>;

/// Builds parity_wasm's `Instruction::Loop`; the value is named as the
/// lowering of `Instr::Loop` with the same immediates.
#[verifier::external_body]
fn pw_loop(b: BlockType) -> (r: PwInstruction)
    ensures
        r == wasm_instruction(Instr::Loop(b)),
{
    PwInstruction::Loop(match b {
        BlockType::NoResult => PwBlockType::NoResult,
        BlockType::Value(ValType::I32) => PwBlockType::Value(ValueType::I32),
        BlockType::Value(ValType::I64) => PwBlockType::Value(ValueType::I64),
    })
}

/// Builds parity_wasm's `Instruction::If`; the value is named as the
/// lowering of `Instr::If` with the same immediates.
#[verifier::external_body]
fn pw_if(b: BlockType) -> (r: PwInstruction)
    ensures
        r == wasm_instruction(Instr::If(b)),
{
    PwInstruction::If(match b {
        BlockType::NoResult => PwBlockType::NoResult,
        BlockType::Value(ValType::I32) => PwBlockType::Value(ValueType::I32),
        BlockType::Value(ValType::I64) => PwBlockType::Value(ValueType::I64),
    })
}

/// Builds parity_wasm's `Instruction::Else`; the value is named as the
/// lowering of `Instr::Else` with the same immediates.
#[verifier::external_body]
fn pw_else() -> (r: PwInstruction)
    ensures
        r == wasm_instruction(Instr::Else),
{
    PwInstruction::Else
}

/// Builds parity_wasm's `Instruction::End`; the value is named as the
/// lowering of `Instr::End` with the same immediates.
#[verifier::external_body]
fn pw_end() -> (r: PwInstruction)
    ensures
        r == wasm_instruction(Instr::End),
{
    PwInstruction::End
}

/// Builds parity_wasm's `Instruction::BrIf`; the value is named as the
/// lowering of `Instr::BrIf` with the same immediates.
#[verifier::external_body]
fn pw_br_if(a: u32) -> (r: PwInstruction)
    ensures
        r == wasm_instruction(Instr::BrIf(a)),
{
    PwInstruction::BrIf(a)
}

/// Builds parity_wasm's `Instruction::Call`; the value is named as the
/// lowering of `Instr::Call` with the same immediates.
#[verifier::external_body]
fn pw_call(a: u32) -> (r: PwInstruction)
    ensures
        r == wasm_instruction(Instr::Call(a)),
{
    PwInstruction::Call(a)
}

/// Builds parity_wasm's `Instruction::CallIndirect`; the value is named as the
/// lowering of `Instr::CallIndirect` with the same immediates.
#[verifier::external_body]
fn pw_call_indirect(a: u32, b: u8) -> (r: PwInstruction)
    ensures
        r == wasm_instruction(Instr::CallIndirect(a, b)),
{
    PwInstruction::CallIndirect(a, b)
}

/// Builds parity_wasm's `Instruction::Select`; the value is named as the
/// lowering of `Instr::Select` with the same immediates.
#[verifier::external_body]
fn pw_select() -> (r: PwInstruction)
    ensures
        r == wasm_instruction(Instr::Select),
{
    PwInstruction::Select
}

/// Builds parity_wasm's `Instruction::GetLocal`; the value is named as the
/// lowering of `Instr::GetLocal` with the same immediates.
#[verifier::external_body]
fn pw_get_local(a: u32) -> (r: PwInstruction)
    ensures
        r == wasm_instruction(Instr::GetLocal(a)),
{
    PwInstruction::GetLocal(a)
}

/// Builds parity_wasm's `Instruction::SetLocal`; the value is named as the
/// lowering of `Instr::SetLocal` with the same immediates.
#[verifier::external_body]
fn pw_set_local(a: u32) -> (r: PwInstruction)
    ensures
        r == wasm_instruction(Instr::SetLocal(a)),
{
    PwInstruction::SetLocal(a)
}

/// Builds parity_wasm's `Instruction::TeeLocal`; the value is named as the
/// lowering of `Instr::TeeLocal` with the same immediates.
#[verifier::external_body]
fn pw_tee_local(a: u32) -> (r: PwInstruction)
    ensures
        r == wasm_instruction(Instr::TeeLocal(a)),
{
    PwInstruction::TeeLocal(a)
}

/// Builds parity_wasm's `Instruction::GetGlobal`; the value is named as the
/// lowering of `Instr::GetGlobal` with the same immediates.
#[verifier::external_body]
fn pw_get_global(a: u32) -> (r: PwInstruction)
    ensures
        r == wasm_instruction(Instr::GetGlobal(a)),
{
    PwInstruction::GetGlobal(a)
}

/// Builds parity_wasm's `Instruction::SetGlobal`; the value is named as the
/// lowering of `Instr::SetGlobal` with the same immediates.
#[verifier::external_body]
fn pw_set_global(a: u32) -> (r: PwInstruction)
    ensures
        r == wasm_instruction(Instr::SetGlobal(a)),
{
    PwInstruction::SetGlobal(a)
}

/// Builds parity_wasm's `Instruction::I32Load`; the value is named as the
/// lowering of `Instr::I32Load` with the same immediates.
#[verifier::external_body]
fn pw_i32_load(a: u32, b: u32) -> (r: PwInstruction)
    ensures
        r == wasm_instruction(Instr::I32Load(a, b)),
{
    PwInstruction::I32Load(a, b)
}

/// Builds parity_wasm's `Instruction::I64Load`; the value is named as the
/// lowering of `Instr::I64Load` with the same immediates.
#[verifier::external_body]
fn pw_i64_load(a: u32, b: u32) -> (r: PwInstruction)
    ensures
        r == wasm_instruction(Instr::I64Load(a, b)),
{
    PwInstruction::I64Load(a, b)
}

/// Builds parity_wasm's `Instruction::I32Load8U`; the value is named as the
/// lowering of `Instr::I32Load8U` with the same immediates.
#[verifier::external_body]
fn pw_i32_load8_u(a: u32, b: u32) -> (r: PwInstruction)
    ensures
        r == wasm_instruction(Instr::I32Load8U(a, b)),
{
    PwInstruction::I32Load8U(a, b)
}

/// Builds parity_wasm's `Instruction::I32Store`; the value is named as the
/// lowering of `Instr::I32Store` with the same immediates.
#[verifier::external_body]
fn pw_i32_store(a: u32, b: u32) -> (r: PwInstruction)
    ensures
        r == wasm_instruction(Instr::I32Store(a, b)),
{
    PwInstruction::I32Store(a, b)
}

/// Builds parity_wasm's `Instruction::I64Store`; the value is named as the
/// lowering of `Instr::I64Store` with the same immediates.
#[verifier::external_body]
fn pw_i64_store(a: u32, b: u32) -> (r: PwInstruction)
    ensures
        r == wasm_instruction(Instr::I64Store(a, b)),
{
    PwInstruction::I64Store(a, b)
}

/// Builds parity_wasm's `Instruction::I32Store8`; the value is named as the
/// lowering of `Instr::I32Store8` with the same immediates.
#[verifier::external_body]
fn pw_i32_store8(a: u32, b: u32) -> (r: PwInstruction)
    ensures
        r == wasm_instruction(Instr::I32Store8(a, b)),
{
    PwInstruction::I32Store8(a, b)
}

/// Builds parity_wasm's `Instruction::CurrentMemory`; the value is named as the
/// lowering of `Instr::CurrentMemory` with the same immediates.
#[verifier::external_body]
fn pw_current_memory(a: u8) -> (r: PwInstruction)
    ensures
        r == wasm_instruction(Instr::CurrentMemory(a)),
{
    PwInstruction::CurrentMemory(a)
}

/// Builds parity_wasm's `Instruction::GrowMemory`; the value is named as the
/// lowering of `Instr::GrowMemory` with the same immediates.
#[verifier::external_body]
fn pw_grow_memory(a: u8) -> (r: PwInstruction)
    ensures
        r == wasm_instruction(Instr::GrowMemory(a)),
{
    PwInstruction::GrowMemory(a)
}

/// Builds parity_wasm's `Instruction::I32Const`; the value is named as the
/// lowering of `Instr::I32Const` with the same immediates.
#[verifier::external_body]
fn pw_i32_const(a: i32) -> (r: PwInstruction)
    ensures
        r == wasm_instruction(Instr::I32Const(a)),
{
    PwInstruction::I32Const(a)
}

/// Builds parity_wasm's `Instruction::I64Const`; the value is named as the
/// lowering of `Instr::I64Const` with the same immediates.
#[verifier::external_body]
fn pw_i64_const(a: i64) -> (r: PwInstruction)
    ensures
        r == wasm_instruction(Instr::I64Const(a)),
{
    PwInstruction::I64Const(a)
}

/// Builds parity_wasm's `Instruction::I32Eqz`; the value is named as the
/// lowering of `Instr::I32Eqz` with the same immediates.
#[verifier::external_body]
fn pw_i32_eqz() -> (r: PwInstruction)
    ensures
        r == wasm_instruction(Instr::I32Eqz),
{
    PwInstruction::I32Eqz
}

/// Builds parity_wasm's `Instruction::I32Eq`; the value is named as the
/// lowering of `Instr::I32Eq` with the same immediates.
#[verifier::external_body]
fn pw_i32_eq() -> (r: PwInstruction)
    ensures
        r == wasm_instruction(Instr::I32Eq),
{
    PwInstruction::I32Eq
}

/// Builds parity_wasm's `Instruction::I32Ne`; the value is named as the
/// lowering of `Instr::I32Ne` with the same immediates.
#[verifier::external_body]
fn pw_i32_ne() -> (r: PwInstruction)
    ensures
        r == wasm_instruction(Instr::I32Ne),
{
    PwInstruction::I32Ne
}

/// Builds parity_wasm's `Instruction::I32LtS`; the value is named as the
/// lowering of `Instr::I32LtS` with the same immediates.
#[verifier::external_body]
fn pw_i32_lt_s() -> (r: PwInstruction)
    ensures
        r == wasm_instruction(Instr::I32LtS),
{
    PwInstruction::I32LtS
}

/// Builds parity_wasm's `Instruction::I32LtU`; the value is named as the
/// lowering of `Instr::I32LtU` with the same immediates.
#[verifier::external_body]
fn pw_i32_lt_u() -> (r: PwInstruction)
    ensures
        r == wasm_instruction(Instr::I32LtU),
{
    PwInstruction::I32LtU
}

/// Builds parity_wasm's `Instruction::I32GtS`; the value is named as the
/// lowering of `Instr::I32GtS` with the same immediates.
#[verifier::external_body]
fn pw_i32_gt_s() -> (r: PwInstruction)
    ensures
        r == wasm_instruction(Instr::I32GtS),
{
    PwInstruction::I32GtS
}

/// Builds parity_wasm's `Instruction::I32GtU`; the value is named as the
/// lowering of `Instr::I32GtU` with the same immediates.
#[verifier::external_body]
fn pw_i32_gt_u() -> (r: PwInstruction)
    ensures
        r == wasm_instruction(Instr::I32GtU),
{
    PwInstruction::I32GtU
}

/// Builds parity_wasm's `Instruction::I32LeS`; the value is named as the
/// lowering of `Instr::I32LeS` with the same immediates.
#[verifier::external_body]
fn pw_i32_le_s() -> (r: PwInstruction)
    ensures
        r == wasm_instruction(Instr::I32LeS),
{
    PwInstruction::I32LeS
}

/// Builds parity_wasm's `Instruction::I32LeU`; the value is named as the
/// lowering of `Instr::I32LeU` with the same immediates.
#[verifier::external_body]
fn pw_i32_le_u() -> (r: PwInstruction)
    ensures
        r == wasm_instruction(Instr::I32LeU),
{
    PwInstruction::I32LeU
}

/// Builds parity_wasm's `Instruction::I32GeS`; the value is named as the
/// lowering of `Instr::I32GeS` with the same immediates.
#[verifier::external_body]
fn pw_i32_ge_s() -> (r: PwInstruction)
    ensures
        r == wasm_instruction(Instr::I32GeS),
{
    PwInstruction::I32GeS
}

/// Builds parity_wasm's `Instruction::I32GeU`; the value is named as the
/// lowering of `Instr::I32GeU` with the same immediates.
#[verifier::external_body]
fn pw_i32_ge_u() -> (r: PwInstruction)
    ensures
        r == wasm_instruction(Instr::I32GeU),
{
    PwInstruction::I32GeU
}

/// Builds parity_wasm's `Instruction::I64Eq`; the value is named as the
/// lowering of `Instr::I64Eq` with the same immediates.
#[verifier::external_body]
fn pw_i64_eq() -> (r: PwInstruction)
    ensures
        r == wasm_instruction(Instr::I64Eq),
{
    PwInstruction::I64Eq
}

/// Builds parity_wasm's `Instruction::I64Ne`; the value is named as the
/// lowering of `Instr::I64Ne` with the same immediates.
#[verifier::external_body]
fn pw_i64_ne() -> (r: PwInstruction)
    ensures
        r == wasm_instruction(Instr::I64Ne),
{
    PwInstruction::I64Ne
}

/// Builds parity_wasm's `Instruction::I64LtS`; the value is named as the
/// lowering of `Instr::I64LtS` with the same immediates.
#[verifier::external_body]
fn pw_i64_lt_s() -> (r: PwInstruction)
    ensures
        r == wasm_instruction(Instr::I64LtS),
{
    PwInstruction::I64LtS
}

/// Builds parity_wasm's `Instruction::I64GtS`; the value is named as the
/// lowering of `Instr::I64GtS` with the same immediates.
#[verifier::external_body]
fn pw_i64_gt_s() -> (r: PwInstruction)
    ensures
        r == wasm_instruction(Instr::I64GtS),
{
    PwInstruction::I64GtS
}

/// Builds parity_wasm's `Instruction::I64LeS`; the value is named as the
/// lowering of `Instr::I64LeS` with the same immediates.
#[verifier::external_body]
fn pw_i64_le_s() -> (r: PwInstruction)
    ensures
        r == wasm_instruction(Instr::I64LeS),
{
    PwInstruction::I64LeS
}

/// Builds parity_wasm's `Instruction::I64GeS`; the value is named as the
/// lowering of `Instr::I64GeS` with the same immediates.
#[verifier::external_body]
fn pw_i64_ge_s() -> (r: PwInstruction)
    ensures
        r == wasm_instruction(Instr::I64GeS),
{
    PwInstruction::I64GeS
}

/// Builds parity_wasm's `Instruction::I32Add`; the value is named as the
/// lowering of `Instr::I32Add` with the same immediates.
#[verifier::external_body]
fn pw_i32_add() -> (r: PwInstruction)
    ensures
        r == wasm_instruction(Instr::I32Add),
{
    PwInstruction::I32Add
}

/// Builds parity_wasm's `Instruction::I32Sub`; the value is named as the
/// lowering of `Instr::I32Sub` with the same immediates.
#[verifier::external_body]
fn pw_i32_sub() -> (r: PwInstruction)
    ensures
        r == wasm_instruction(Instr::I32Sub),
{
    PwInstruction::I32Sub
}

/// Builds parity_wasm's `Instruction::I32Mul`; the value is named as the
/// lowering of `Instr::I32Mul` with the same immediates.
#[verifier::external_body]
fn pw_i32_mul() -> (r: PwInstruction)
    ensures
        r == wasm_instruction(Instr::I32Mul),
{
    PwInstruction::I32Mul
}

/// Builds parity_wasm's `Instruction::I32DivS`; the value is named as the
/// lowering of `Instr::I32DivS` with the same immediates.
#[verifier::external_body]
fn pw_i32_div_s() -> (r: PwInstruction)
    ensures
        r == wasm_instruction(Instr::I32DivS),
{
    PwInstruction::I32DivS
}

/// Builds parity_wasm's `Instruction::I32DivU`; the value is named as the
/// lowering of `Instr::I32DivU` with the same immediates.
#[verifier::external_body]
fn pw_i32_div_u() -> (r: PwInstruction)
    ensures
        r == wasm_instruction(Instr::I32DivU),
{
    PwInstruction::I32DivU
}

/// Builds parity_wasm's `Instruction::I32RemS`; the value is named as the
/// lowering of `Instr::I32RemS` with the same immediates.
#[verifier::external_body]
fn pw_i32_rem_s() -> (r: PwInstruction)
    ensures
        r == wasm_instruction(Instr::I32RemS),
{
    PwInstruction::I32RemS
}

/// Builds parity_wasm's `Instruction::I32RemU`; the value is named as the
/// lowering of `Instr::I32RemU` with the same immediates.
#[verifier::external_body]
fn pw_i32_rem_u() -> (r: PwInstruction)
    ensures
        r == wasm_instruction(Instr::I32RemU),
{
    PwInstruction::I32RemU
}

/// Builds parity_wasm's `Instruction::I32And`; the value is named as the
/// lowering of `Instr::I32And` with the same immediates.
#[verifier::external_body]
fn pw_i32_and() -> (r: PwInstruction)
    ensures
        r == wasm_instruction(Instr::I32And),
{
    PwInstruction::I32And
}

/// Builds parity_wasm's `Instruction::I32Or`; the value is named as the
/// lowering of `Instr::I32Or` with the same immediates.
#[verifier::external_body]
fn pw_i32_or() -> (r: PwInstruction)
    ensures
        r == wasm_instruction(Instr::I32Or),
{
    PwInstruction::I32Or
}

/// Builds parity_wasm's `Instruction::I32Xor`; the value is named as the
/// lowering of `Instr::I32Xor` with the same immediates.
#[verifier::external_body]
fn pw_i32_xor() -> (r: PwInstruction)
    ensures
        r == wasm_instruction(Instr::I32Xor),
{
    PwInstruction::I32Xor
}

/// Builds parity_wasm's `Instruction::I32Shl`; the value is named as the
/// lowering of `Instr::I32Shl` with the same immediates.
#[verifier::external_body]
fn pw_i32_shl() -> (r: PwInstruction)
    ensures
        r == wasm_instruction(Instr::I32Shl),
{
    PwInstruction::I32Shl
}

/// Builds parity_wasm's `Instruction::I32ShrS`; the value is named as the
/// lowering of `Instr::I32ShrS` with the same immediates.
#[verifier::external_body]
fn pw_i32_shr_s() -> (r: PwInstruction)
    ensures
        r == wasm_instruction(Instr::I32ShrS),
{
    PwInstruction::I32ShrS
}

/// Builds parity_wasm's `Instruction::I32ShrU`; the value is named as the
/// lowering of `Instr::I32ShrU` with the same immediates.
#[verifier::external_body]
fn pw_i32_shr_u() -> (r: PwInstruction)
    ensures
        r == wasm_instruction(Instr::I32ShrU),
{
    PwInstruction::I32ShrU
}

/// Builds parity_wasm's `Instruction::I64Add`; the value is named as the
/// lowering of `Instr::I64Add` with the same immediates.
#[verifier::external_body]
fn pw_i64_add() -> (r: PwInstruction)
    ensures
        r == wasm_instruction(Instr::I64Add),
{
    PwInstruction::I64Add
}

/// Builds parity_wasm's `Instruction::I64Sub`; the value is named as the
/// lowering of `Instr::I64Sub` with the same immediates.
#[verifier::external_body]
fn pw_i64_sub() -> (r: PwInstruction)
    ensures
        r == wasm_instruction(Instr::I64Sub),
{
    PwInstruction::I64Sub
}

/// Builds parity_wasm's `Instruction::I64Mul`; the value is named as the
/// lowering of `Instr::I64Mul` with the same immediates.
#[verifier::external_body]
fn pw_i64_mul() -> (r: PwInstruction)
    ensures
        r == wasm_instruction(Instr::I64Mul),
{
    PwInstruction::I64Mul
}

/// Builds parity_wasm's `Instruction::I64DivS`; the value is named as the
/// lowering of `Instr::I64DivS` with the same immediates.
#[verifier::external_body]
fn pw_i64_div_s() -> (r: PwInstruction)
    ensures
        r == wasm_instruction(Instr::I64DivS),
{
    PwInstruction::I64DivS
}

/// Builds parity_wasm's `Instruction::I64DivU`; the value is named as the
/// lowering of `Instr::I64DivU` with the same immediates.
#[verifier::external_body]
fn pw_i64_div_u() -> (r: PwInstruction)
    ensures
        r == wasm_instruction(Instr::I64DivU),
{
    PwInstruction::I64DivU
}

/// Builds parity_wasm's `Instruction::I64RemS`; the value is named as the
/// lowering of `Instr::I64RemS` with the same immediates.
#[verifier::external_body]
fn pw_i64_rem_s() -> (r: PwInstruction)
    ensures
        r == wasm_instruction(Instr::I64RemS),
{
    PwInstruction::I64RemS
}

/// Builds parity_wasm's `Instruction::I64RemU`; the value is named as the
/// lowering of `Instr::I64RemU` with the same immediates.
#[verifier::external_body]
fn pw_i64_rem_u() -> (r: PwInstruction)
    ensures
        r == wasm_instruction(Instr::I64RemU),
{
    PwInstruction::I64RemU
}

/// Builds parity_wasm's `Instruction::I64And`; the value is named as the
/// lowering of `Instr::I64And` with the same immediates.
#[verifier::external_body]
fn pw_i64_and() -> (r: PwInstruction)
    ensures
        r == wasm_instruction(Instr::I64And),
{
    PwInstruction::I64And
}

/// Builds parity_wasm's `Instruction::I64Xor`; the value is named as the
/// lowering of `Instr::I64Xor` with the same immediates.
#[verifier::external_body]
fn pw_i64_xor() -> (r: PwInstruction)
    ensures
        r == wasm_instruction(Instr::I64Xor),
{
    PwInstruction::I64Xor
}

/// Builds parity_wasm's `Instruction::I64Shl`; the value is named as the
/// lowering of `Instr::I64Shl` with the same immediates.
#[verifier::external_body]
fn pw_i64_shl() -> (r: PwInstruction)
    ensures
        r == wasm_instruction(Instr::I64Shl),
{
    PwInstruction::I64Shl
}

/// Builds parity_wasm's `Instruction::I64ShrS`; the value is named as the
/// lowering of `Instr::I64ShrS` with the same immediates.
#[verifier::external_body]
fn pw_i64_shr_s() -> (r: PwInstruction)
    ensures
        r == wasm_instruction(Instr::I64ShrS),
{
    PwInstruction::I64ShrS
}

/// Builds parity_wasm's `Instruction::I64Rotl`; the value is named as the
/// lowering of `Instr::I64Rotl` with the same immediates.
#[verifier::external_body]
fn pw_i64_rotl() -> (r: PwInstruction)
    ensures
        r == wasm_instruction(Instr::I64Rotl),
{
    PwInstruction::I64Rotl
}

/// Builds parity_wasm's `Instruction::I32WrapI64`; the value is named as the
/// lowering of `Instr::I32WrapI64` with the same immediates.
#[verifier::external_body]
fn pw_i32_wrap_i64() -> (r: PwInstruction)
    ensures
        r == wasm_instruction(Instr::I32WrapI64),
{
    PwInstruction::I32WrapI64
}

/// Builds parity_wasm's `Instruction::I64ExtendSI32`; the value is named as the
/// lowering of `Instr::I64ExtendSI32` with the same immediates.
#[verifier::external_body]
fn pw_i64_extend_s_i32() -> (r: PwInstruction)
    ensures
        r == wasm_instruction(Instr::I64ExtendSI32),
{
    PwInstruction::I64ExtendSI32
}

/// Builds parity_wasm's `Instruction::I64ExtendUI32`; the value is named as the
/// lowering of `Instr::I64ExtendUI32` with the same immediates.
#[verifier::external_body]
fn pw_i64_extend_u_i32() -> (r: PwInstruction)
    ensures
        r == wasm_instruction(Instr::I64ExtendUI32),
{
    PwInstruction::I64ExtendUI32
}

/// Lowers one plain instruction to the parity_wasm instruction it denotes.
pub fn lower_instruction(i: Instr) -> (r: PwInstruction)
    ensures
        r == wasm_instruction(i),
{
    match i {
        Instr::Loop(b) => pw_loop(b),
        Instr::If(b) => pw_if(b),
        Instr::Else => pw_else(),
        Instr::End => pw_end(),
        Instr::BrIf(a) => pw_br_if(a),
        Instr::Call(a) => pw_call(a),
        Instr::CallIndirect(a, b) => pw_call_indirect(a, b),
        Instr::Select => pw_select(),
        Instr::GetLocal(a) => pw_get_local(a),
        Instr::SetLocal(a) => pw_set_local(a),
        Instr::TeeLocal(a) => pw_tee_local(a),
        Instr::GetGlobal(a) => pw_get_global(a),
        Instr::SetGlobal(a) => pw_set_global(a),
        Instr::I32Load(a, b) => pw_i32_load(a, b),
        Instr::I64Load(a, b) => pw_i64_load(a, b),
        Instr::I32Load8U(a, b) => pw_i32_load8_u(a, b),
        Instr::I32Store(a, b) => pw_i32_store(a, b),
        Instr::I64Store(a, b) => pw_i64_store(a, b),
        Instr::I32Store8(a, b) => pw_i32_store8(a, b),
        Instr::CurrentMemory(a) => pw_current_memory(a),
        Instr::GrowMemory(a) => pw_grow_memory(a),
        Instr::I32Const(a) => pw_i32_const(a),
        Instr::I64Const(a) => pw_i64_const(a),
        Instr::I32Eqz => pw_i32_eqz(),
        Instr::I32Eq => pw_i32_eq(),
        Instr::I32Ne => pw_i32_ne(),
        Instr::I32LtS => pw_i32_lt_s(),
        Instr::I32LtU => pw_i32_lt_u(),
        Instr::I32GtS => pw_i32_gt_s(),
        Instr::I32GtU => pw_i32_gt_u(),
        Instr::I32LeS => pw_i32_le_s(),
        Instr::I32LeU => pw_i32_le_u(),
        Instr::I32GeS => pw_i32_ge_s(),
        Instr::I32GeU => pw_i32_ge_u(),
        Instr::I64Eq => pw_i64_eq(),
        Instr::I64Ne => pw_i64_ne(),
        Instr::I64LtS => pw_i64_lt_s(),
        Instr::I64GtS => pw_i64_gt_s(),
        Instr::I64LeS => pw_i64_le_s(),
        Instr::I64GeS => pw_i64_ge_s(),
        Instr::I32Add => pw_i32_add(),
        Instr::I32Sub => pw_i32_sub(),
        Instr::I32Mul => pw_i32_mul(),
        Instr::I32DivS => pw_i32_div_s(),
        Instr::I32DivU => pw_i32_div_u(),
        Instr::I32RemS => pw_i32_rem_s(),
        Instr::I32RemU => pw_i32_rem_u(),
        Instr::I32And => pw_i32_and(),
        Instr::I32Or => pw_i32_or(),
        Instr::I32Xor => pw_i32_xor(),
        Instr::I32Shl => pw_i32_shl(),
        Instr::I32ShrS => pw_i32_shr_s(),
        Instr::I32ShrU => pw_i32_shr_u(),
        Instr::I64Add => pw_i64_add(),
        Instr::I64Sub => pw_i64_sub(),
        Instr::I64Mul => pw_i64_mul(),
        Instr::I64DivS => pw_i64_div_s(),
        Instr::I64DivU => pw_i64_div_u(),
        Instr::I64RemS => pw_i64_rem_s(),
        Instr::I64RemU => pw_i64_rem_u(),
        Instr::I64And => pw_i64_and(),
        Instr::I64Xor => pw_i64_xor(),
        Instr::I64Shl => pw_i64_shl(),
        Instr::I64ShrS => pw_i64_shr_s(),
        Instr::I64Rotl => pw_i64_rotl(),
        Instr::I32WrapI64 => pw_i32_wrap_i64(),
        Instr::I64ExtendSI32 => pw_i64_extend_s_i32(),
        Instr::I64ExtendUI32 => pw_i64_extend_u_i32(),
    }
}

/// Lowers a sequence of plain instructions, element by element.
pub fn lower_instructions(code: &Vec<Instr>) -> (r: Vec<PwInstruction>)
    ensures
        r@ == code@.map_values(|i: Instr| wasm_instruction(i)),
{
    let mut r: Vec<PwInstruction> = Vec::new();
    let mut k: usize = 0;
    while k < code.len()
        invariant
            k <= code@.len(),
            r@ == code@.subrange(0, k as int).map_values(|i: Instr| wasm_instruction(i)),
        decreases code@.len() - k,
    {
        r.push(lower_instruction(code[k]));
        k = k + 1;
        assert(code@.subrange(0, k as int) == code@.subrange(0, k - 1).push(code@[k - 1]));
    }
    assert(code@.subrange(0, k as int) == code@);
    r
}

/// Builds parity_wasm's type section (`Section::Type` of `TypeSection::with_types`)
/// with one `FunctionType::new` per signature; the value is named by
/// `wasm_type_section` of the signatures.
#[verifier::external_body]
pub(crate) fn pw_type_section(types: &Vec<FuncType>) -> (r: Section)
    ensures
        r == wasm_type_section(types@.map_values(|t: FuncType| t@)),
{
    let vt = |t: &ValType| match t { ValType::I32 => ValueType::I32, ValType::I64 => ValueType::I64 };
    let entries = types.iter().map(|t| {
        let params = t.params.iter().map(vt).collect();
        Type::Function(FunctionType::new(params, t.results.iter().map(vt).collect()))
    });
    Section::Type(TypeSection::with_types(entries.collect()))
}

/// Builds parity_wasm's import section with one `ImportEntry::new(module, field,
/// External::Function(type index))` per import; named by `wasm_import_section`.
#[verifier::external_body]
pub(crate) fn pw_import_section(imports: &Vec<ImportedFunc>) -> (r: Section)
    ensures
        r == wasm_import_section(imports@.map_values(|i: ImportedFunc| i@)),
{
    let entries = imports.iter().map(|i| {
        ImportEntry::new(i.module.clone(), i.field.clone(), External::Function(i.type_index))
    });
    Section::Import(ImportSection::with_entries(entries.collect()))
}

/// Builds parity_wasm's function section with one `Func::new(type index)` per
/// defined function; named by `wasm_function_section`.
#[verifier::external_body]
pub(crate) fn pw_function_section(type_refs: &Vec<u32>) -> (r: Section)
    ensures
        r == wasm_function_section(type_refs@),
{
    Section::Function(FunctionSection::with_entries(type_refs.iter().map(|t| Func::new(*t)).collect()))
}

/// Builds parity_wasm's table section holding `TableType::new(initial, maximum)`;
/// named by `wasm_table_section`.
#[verifier::external_body]
pub(crate) fn pw_table_section(initial: u32, maximum: Option<u32>) -> (r: Section)
    ensures
        r == wasm_table_section(initial, maximum),
{
    Section::Table(TableSection::with_entries(vec![TableType::new(initial, maximum)]))
}

/// Builds parity_wasm's memory section holding `MemoryType::new(pages, None)`;
/// named by `wasm_memory_section`.
#[verifier::external_body]
pub(crate) fn pw_memory_section(pages: u32) -> (r: Section)
    ensures
        r == wasm_memory_section(pages),
{
    Section::Memory(MemorySection::with_entries(vec![MemoryType::new(pages, None)]))
}

/// Builds parity_wasm's global section with one i32 `GlobalEntry` per value,
/// of `GlobalType::new(I32, mutable)` and initialised by `i32.const value; end`;
/// named by `wasm_global_section`.
#[verifier::external_body]
pub(crate) fn pw_global_section(mutable: bool, initial_values: &Vec<i32>) -> (r: Section)
    ensures
        r == wasm_global_section(mutable, initial_values@),
{
    let entries = initial_values.iter().map(|v| {
        let init = InitExpr::new(vec![PwInstruction::I32Const(*v), PwInstruction::End]);
        GlobalEntry::new(GlobalType::new(ValueType::I32, mutable), init)
    });
    Section::Global(GlobalSection::with_entries(entries.collect()))
}

/// Builds parity_wasm's export section with one `ExportEntry::new(name, internal)`
/// per export; named by `wasm_export_section`.
#[verifier::external_body]
pub(crate) fn pw_export_section(exports: &Vec<Export>) -> (r: Section)
    ensures
        r == wasm_export_section(exports@.map_values(|e: Export| e@)),
{
    let entries = exports.iter().map(|e| {
        let internal = match e.kind {
            ExportKind::Function(f) => Internal::Function(f),
            ExportKind::Memory(m) => Internal::Memory(m),
        };
        ExportEntry::new(e.name.clone(), internal)
    });
    Section::Export(ExportSection::with_entries(entries.collect()))
}

/// Builds parity_wasm's element section with one `ElementSegment` for table
/// `table` at offset `i32.const offset` holding `members`; named by
/// `wasm_element_section`.
#[verifier::external_body]
pub(crate) fn pw_element_section(table: u32, offset: i32, members: &Vec<u32>) -> (r: Section)
    ensures
        r == wasm_element_section(table, offset, members@),
{
    let offset = InitExpr::new(vec![PwInstruction::I32Const(offset), PwInstruction::End]);
    let segment = ElementSegment::new(table, Some(offset), members.clone());
    Section::Element(ElementSection::with_entries(vec![segment]))
}

/// Builds parity_wasm's `FuncBody::new` with one `Local::new(count, type)` per
/// entry of `locals` and `Instructions::new(code)`; named by `wasm_func_body`.
#[verifier::external_body]
pub(crate) fn pw_func_body(locals: &Vec<(u32, ValType)>, code: Vec<PwInstruction>) -> (r: FuncBody)
    ensures
        r == wasm_func_body(locals@, code@),
{
    let locals = locals.iter().map(|(count, t)| match t {
        ValType::I32 => Local::new(*count, ValueType::I32),
        ValType::I64 => Local::new(*count, ValueType::I64),
    });
    FuncBody::new(locals.collect(), Instructions::new(code))
}

/// Builds parity_wasm's code section (`CodeSection::with_bodies`); named by
/// `wasm_code_section`.
#[verifier::external_body]
pub(crate) fn pw_code_section(bodies: Vec<FuncBody>) -> (r: Section)
    ensures
        r == wasm_code_section(bodies@),
{
    Section::Code(CodeSection::with_bodies(bodies))
}

/// Builds parity_wasm's data section with one `DataSegment` of memory
/// `memory` per segment, at offset `i32.const offset`; named by
/// `wasm_data_section`.
#[verifier::external_body]
pub(crate) fn pw_data_section(memory: u32, segments: &Vec<DataSegment>) -> (r: Section)
    ensures
        r == wasm_data_section(memory, segments@.map_values(|d: DataSegment| d@)),
{
    let entries = segments.iter().map(|d| {
        let offset = InitExpr::new(vec![PwInstruction::I32Const(d.offset), PwInstruction::End]);
        PwDataSegment::new(memory, Some(offset), d.bytes.clone())
    });
    Section::Data(DataSection::with_entries(entries.collect()))
}

/// Serializes `Module::new(sections)` with parity_wasm's `Module::to_bytes`;
/// the bytes, or the absence of bytes when the serializer reports an error,
/// are named by `wasm_binary` of the sections.
#[verifier::external_body]
pub(crate) fn pw_module_bytes(sections: Vec<Section>) -> (r: Option<Vec<u8>>)
    ensures
        match r {
            Some(bytes) => wasm_binary(sections@) == Some(bytes@),
            None => wasm_binary(sections@) is None,
        },
{
    Module::new(sections).to_bytes().ok()
}

} // verus!
