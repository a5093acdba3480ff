//! A plain model of the WebAssembly instructions and value types that the
//! Forth compilers emit.
use vstd::prelude::*;

verus! {

/// A WebAssembly number type used by the compilers.
#[derive(Clone, Copy, PartialEq, Eq, Debug, Structural)]
pub enum ValType {
    I32,
    I64,
}

/// The result type of a structured block.
#[derive(Clone, Copy, PartialEq, Eq, Debug, Structural)]
pub enum BlockType {
    NoResult,
    Value(ValType),
}

/// The WebAssembly instructions the compilers emit, with their immediates.
///
/// Memory instructions carry `(alignment flag, offset)`; `Call` carries an
/// assembler function id (resolved to a module index when the module is
/// assembled); `CallIndirect` carries a type index and a table index.
#[derive(Clone, Copy, PartialEq, Eq, Debug, Structural)]
pub enum Instr {
    Loop(BlockType),
    If(BlockType),
    Else,
    End,
    BrIf(u32),
    Call(u32),
    CallIndirect(u32, u8),
    Select,
    GetLocal(u32),
    SetLocal(u32),
    TeeLocal(u32),
    GetGlobal(u32),
    SetGlobal(u32),
    I32Load(u32, u32),
    I64Load(u32, u32),
    I32Load8U(u32, u32),
    I32Store(u32, u32),
    I64Store(u32, u32),
    I32Store8(u32, u32),
    CurrentMemory(u8),
    GrowMemory(u8),
    I32Const(i32),
    I64Const(i64),
    I32Eqz,
    I32Eq,
    I32Ne,
    I32LtS,
    I32LtU,
    I32GtS,
    I32GtU,
    I32LeS,
    I32LeU,
    I32GeS,
    I32GeU,
    I64Eq,
    I64Ne,
    I64LtS,
    I64GtS,
    I64LeS,
    I64GeS,
    I32Add,
    I32Sub,
    I32Mul,
    I32DivS,
    I32DivU,
    I32RemS,
    I32RemU,
    I32And,
    I32Or,
    I32Xor,
    I32Shl,
    I32ShrS,
    I32ShrU,
    I64Add,
    I64Sub,
    I64Mul,
    I64DivS,
    I64DivU,
    I64RemS,
    I64RemU,
    I64And,
    I64Xor,
    I64Shl,
    I64ShrS,
    I64Rotl,
    I32WrapI64,
    I64ExtendSI32,
    I64ExtendUI32,
}

/// A function signature: parameter and result types.
pub struct FuncType {
    pub params: Vec<ValType>,
    pub results: Vec<ValType>,
}

/// The mathematical value of a [`FuncType`].
pub struct FuncTypeSpec {
    pub params: Seq<ValType>,
    pub results: Seq<ValType>,
}

impl View for FuncType {
    type V = FuncTypeSpec;

    open spec fn view(&self) -> FuncTypeSpec {
        FuncTypeSpec { params: self.params@, results: self.results@ }
    }
}

/// A function imported from the host: module name, field name and the index
/// of its signature in the type section.
pub struct ImportedFunc {
    pub module: String,
    pub field: String,
    pub type_index: u32,
}

/// The mathematical value of an [`ImportedFunc`].
pub struct ImportSpec {
    pub module: Seq<char>,
    pub field: Seq<char>,
    pub type_index: u32,
}

impl View for ImportedFunc {
    type V = ImportSpec;

    open spec fn view(&self) -> ImportSpec {
        ImportSpec { module: self.module@, field: self.field@, type_index: self.type_index }
    }
}

/// An active data segment: bytes placed in linear memory at `offset`.
pub struct DataSegment {
    pub offset: i32,
    pub bytes: Vec<u8>,
}

/// The mathematical value of a [`DataSegment`].
pub struct DataSpec {
    pub offset: i32,
    pub bytes: Seq<u8>,
}

impl View for DataSegment {
    type V = DataSpec;

    open spec fn view(&self) -> DataSpec {
        DataSpec { offset: self.offset, bytes: self.bytes@ }
    }
}

/// What an export refers to, by module index.
#[derive(Clone, Copy, PartialEq, Eq, Debug, Structural)]
pub enum ExportKind {
    Function(u32),
    Memory(u32),
}

/// A named export of the module.
pub struct Export {
    pub name: String,
    pub kind: ExportKind,
}

/// The mathematical value of an [`Export`].
pub struct ExportSpec {
    pub name: Seq<char>,
    pub kind: ExportKind,
}

impl View for Export {
    type V = ExportSpec;

    open spec fn view(&self) -> ExportSpec {
        ExportSpec { name: self.name@, kind: self.kind }
    }
}

} // verus!
