//! Collects the pieces of a WebAssembly module (signatures, imported and
//! defined functions, a function table, globals, memory, data segments and
//! exports) and assembles them into a binary.
//!
//! Functions are identified by the id the assembler hands out when they are
//! added. Imports may be added after defined functions, while WebAssembly puts
//! all imports first in its function index space, so ids are translated to
//! module indices when the module is assembled.
use vstd::prelude::*;
use parity_wasm::elements::{FuncBody, Section};
use crate::lowering::{
    lower_instructions, pw_code_section, pw_data_section, pw_element_section, pw_export_section,
    pw_func_body, pw_function_section, pw_global_section, pw_import_section, pw_memory_section,
    pw_module_bytes, pw_table_section, pw_type_section, wasm_binary, wasm_code_section,
    wasm_data_section, wasm_element_section, wasm_export_section, wasm_func_body,
    wasm_function_section, wasm_global_section, wasm_import_section, wasm_instruction,
    wasm_memory_section, wasm_table_section, wasm_type_section,
};
use crate::wasm::{
    DataSegment, DataSpec, Export, ExportKind, ExportSpec, FuncType, FuncTypeSpec, ImportSpec,
    ImportedFunc, Instr, ValType,
};

verus! {

/// Where a function id lives: the position among the imports or among the
/// defined functions.
#[derive(Clone, Copy, PartialEq, Eq, Debug, Structural)]
pub enum FuncSlot {
    Imported(u32),
    Native(u32),
}

/// A function defined in the module: signature index, locals and code.
pub struct NativeFunc {
    pub type_index: u32,
    pub locals: Vec<ValType>,
    pub body: Vec<Instr>,
}

/// The mathematical value of a [`NativeFunc`].
pub struct NativeSpec {
    pub type_index: u32,
    pub locals: Seq<ValType>,
    pub body: Seq<Instr>,
}

impl View for NativeFunc {
    type V = NativeSpec;

    open spec fn view(&self) -> NativeSpec {
        NativeSpec { type_index: self.type_index, locals: self.locals@, body: self.body@ }
    }
}

/// An exported function, named, by function id.
pub struct FuncExport {
    pub name: String,
    pub func: u32,
}

/// The mathematical value of an [`Assembler`].
pub struct AssemblerSpec {
    pub types: Seq<FuncTypeSpec>,
    pub slots: Seq<FuncSlot>,
    pub imports: Seq<ImportSpec>,
    pub natives: Seq<NativeSpec>,
    pub table: Seq<u32>,
    pub globals: Seq<i32>,
    pub data: Seq<DataSpec>,
    pub exports: Seq<(Seq<char>, u32)>,
    pub memory: bool,
}

/// Why a module could not be turned into bytes.
#[derive(Clone, Copy, PartialEq, Eq, Debug, Structural)]
pub enum AssembleError {
    /// parity_wasm's serializer reported an error.
    Serialization,
}

/// A WebAssembly module under construction.
pub struct Assembler {
    types: Vec<FuncType>,
    slots: Vec<FuncSlot>,
    imports: Vec<ImportedFunc>,
    natives: Vec<NativeFunc>,
    table: Vec<u32>,
    globals: Vec<i32>,
    data: Vec<DataSegment>,
    exports: Vec<FuncExport>,
    memory: bool,
}

impl View for Assembler {
    type V = AssemblerSpec;

    closed spec fn view(&self) -> AssemblerSpec {
        AssemblerSpec {
            types: self.types@.map_values(|t: FuncType| t@),
            slots: self.slots@,
            imports: self.imports@.map_values(|i: ImportedFunc| i@),
            natives: self.natives@.map_values(|n: NativeFunc| n@),
            table: self.table@,
            globals: self.globals@,
            data: self.data@.map_values(|d: DataSegment| d@),
            exports: self.exports@.map_values(|e: FuncExport| (e.name@, e.func)),
            memory: self.memory,
        }
    }
}

/// The page count of the linear memory the assembler declares (64 KiB).
pub const MEMORY_PAGES: u32 = 1;

impl AssemblerSpec {
    /// Every function id has a slot, every slot points at an existing import or
    /// definition, and no two ids share a slot.
    pub open spec fn wf(self) -> bool {
        &&& self.slots.len() == self.imports.len() + self.natives.len()
        &&& forall|id: int|
            0 <= id < self.slots.len() ==> match #[trigger] self.slots[id] {
                FuncSlot::Imported(k) => k < self.imports.len(),
                FuncSlot::Native(k) => k < self.natives.len(),
            }
        &&& forall|a: int, b: int|
            0 <= a < self.slots.len() && 0 <= b < self.slots.len() && a != b
                ==> #[trigger] self.slots[a] != #[trigger] self.slots[b]
    }

    /// The module index of function `id`: imports come first, in the order they
    /// were added, then the defined functions, in the order they were added.
    /// An id the assembler never handed out is left as it is.
    pub open spec fn func_index(self, id: u32) -> u32 {
        if id < self.slots.len() {
            match self.slots[id as int] {
                FuncSlot::Imported(k) => k,
                FuncSlot::Native(k) => vstd::wrapping::u32_specs::wrapping_add(
                    self.imports.len() as u32,
                    k,
                ),
            }
        } else {
            id
        }
    }

    /// An instruction with its call target translated to a module index.
    pub open spec fn resolve(self, i: Instr) -> Instr {
        match i {
            Instr::Call(f) => Instr::Call(self.func_index(f)),
            _ => i,
        }
    }

    /// The module after adding a defined function with its own signature.
    pub open spec fn with_native(
        self,
        params: Seq<ValType>,
        results: Seq<ValType>,
        locals: Seq<ValType>,
        body: Seq<Instr>,
    ) -> AssemblerSpec {
        AssemblerSpec {
            types: self.types.push(FuncTypeSpec { params, results }),
            slots: self.slots.push(FuncSlot::Native(self.natives.len() as u32)),
            natives: self.natives.push(
                NativeSpec { type_index: self.types.len() as u32, locals, body },
            ),
            ..self
        }
    }

    /// The module after adding an imported function with its own signature.
    pub open spec fn with_import(
        self,
        module: Seq<char>,
        field: Seq<char>,
        params: Seq<ValType>,
        results: Seq<ValType>,
    ) -> AssemblerSpec {
        AssemblerSpec {
            types: self.types.push(FuncTypeSpec { params, results }),
            slots: self.slots.push(FuncSlot::Imported(self.imports.len() as u32)),
            imports: self.imports.push(
                ImportSpec { module, field, type_index: self.types.len() as u32 },
            ),
            ..self
        }
    }

    /// The id the next added function gets.
    pub open spec fn next_func_id(self) -> u32 {
        self.slots.len() as u32
    }

    /// The module after appending `func` to the function table.
    pub open spec fn with_table_entry(self, func: u32) -> AssemblerSpec {
        AssemblerSpec { table: self.table.push(func), ..self }
    }

    /// The module after placing `bytes` at `offset`.
    pub open spec fn with_data(self, offset: i32, bytes: Seq<u8>) -> AssemblerSpec {
        AssemblerSpec { data: self.data.push(DataSpec { offset, bytes }), ..self }
    }

    /// The module after exporting function `func` as `name`.
    pub open spec fn with_export(self, name: Seq<char>, func: u32) -> AssemblerSpec {
        AssemblerSpec { exports: self.exports.push((name, func)), ..self }
    }

    /// The parity_wasm body of the `k`-th defined function.
    pub open spec fn body(self, k: int) -> FuncBody {
        let n = self.natives[k];
        wasm_func_body(
            n.locals.map_values(|t: ValType| (1u32, t)),
            n.body.map_values(|i: Instr| wasm_instruction(self.resolve(i))),
        )
    }

    /// The exports of the module: the exported functions by module index, then
    /// the memory as `memory` when there is one.
    pub open spec fn export_specs(self) -> Seq<ExportSpec> {
        let funcs = self.exports.map_values(
            |e: (Seq<char>, u32)|
                ExportSpec { name: e.0, kind: ExportKind::Function(self.func_index(e.1)) },
        );
        if self.memory {
            funcs.push(ExportSpec { name: "memory"@, kind: ExportKind::Memory(0) })
        } else {
            funcs
        }
    }

    /// The sections of the assembled module, in the order WebAssembly requires.
    pub open spec fn sections(self) -> Seq<Section> {
        let head = seq![
            wasm_type_section(self.types),
            wasm_import_section(self.imports),
            wasm_function_section(self.natives.map_values(|n: NativeSpec| n.type_index)),
            wasm_table_section(self.table.len() as u32, Some(self.table.len() as u32)),
        ];
        let head = if self.memory {
            head.push(wasm_memory_section(MEMORY_PAGES))
        } else {
            head
        };
        head + seq![
            wasm_global_section(true, self.globals),
            wasm_export_section(self.export_specs()),
            wasm_element_section(0, 0, self.table.map_values(|f: u32| self.func_index(f))),
            wasm_code_section(Seq::new(self.natives.len(), |k: int| self.body(k))),
            wasm_data_section(0, self.data),
        ]
    }
}

/// Law (function indices): while the module holds no more than `u32::MAX`
/// functions, every function id the assembler handed out gets its own module
/// index below the number of functions: imports keep their order at the
/// front and defined functions follow in theirs.
pub proof fn lemma_func_index(a: AssemblerSpec, x: u32, y: u32)
    requires
        a.wf(),
        a.slots.len() <= u32::MAX,
        x < a.slots.len(),
        y < a.slots.len(),
    ensures
        a.func_index(x) < a.slots.len(),
        x != y ==> a.func_index(x) != a.func_index(y),
        a.slots[x as int] matches FuncSlot::Imported(k) ==> a.func_index(x) == k,
        a.slots[x as int] matches FuncSlot::Native(k) ==> a.func_index(x) == a.imports.len() + k,
{
    assert(a.slots[x as int] == a.slots[x as int]);
    assert(a.slots[y as int] == a.slots[y as int]);
}

impl Assembler {
    /// An empty module: no functions, no table entries, no globals, no data,
    /// no exports and no memory.
    pub fn new() -> (r: Assembler)
        ensures
            r@ == (AssemblerSpec {
                types: seq![],
                slots: seq![],
                imports: seq![],
                natives: seq![],
                table: seq![],
                globals: seq![],
                data: seq![],
                exports: seq![],
                memory: false,
            }),
            r@.wf(),
    {
        let r = Assembler {
            types: Vec::new(),
            slots: Vec::new(),
            imports: Vec::new(),
            natives: Vec::new(),
            table: Vec::new(),
            globals: Vec::new(),
            data: Vec::new(),
            exports: Vec::new(),
            memory: false,
        };
        assert(r@.types =~= seq![]);
        assert(r@.imports =~= seq![]);
        assert(r@.natives =~= seq![]);
        assert(r@.data =~= seq![]);
        assert(r@.exports =~= seq![]);
        r
    }

    /// Declares the module's linear memory (exported as `memory`).
    pub fn add_memory(&mut self)
        ensures
            final(self)@ == (AssemblerSpec { memory: true, ..old(self)@ }),
    {
        self.memory = true;
    }

    /// Adds a function signature and returns its index in the type section.
    pub fn add_type(&mut self, params: Vec<ValType>, results: Vec<ValType>) -> (r: u32)
        ensures
            r == old(self)@.types.len() as u32,
            final(self)@ == (AssemblerSpec {
                types: old(self)@.types.push(FuncTypeSpec { params: params@, results: results@ }),
                ..old(self)@
            }),
    {
        let r = self.types.len() as u32;
        self.types.push(FuncType { params, results });
        assert(self@.types =~= old(self)@.types.push(FuncTypeSpec { params: params@, results: results@ }));
        r
    }

    /// Adds a function defined by `instructions`, with its own signature, and
    /// returns its function id.
    pub fn add_native_func(
        &mut self,
        params: Vec<ValType>,
        results: Vec<ValType>,
        locals: Vec<ValType>,
        instructions: Vec<Instr>,
    ) -> (r: u32)
        ensures
            r == old(self)@.next_func_id(),
            final(self)@ == old(self)@.with_native(params@, results@, locals@, instructions@),
            old(self)@.wf() && old(self)@.slots.len() < u32::MAX ==> final(self)@.wf(),
    {
        let type_index = self.add_type(params, results);
        let r = self.slots.len() as u32;
        let position = self.natives.len() as u32;
        self.natives.push(NativeFunc { type_index, locals, body: instructions });
        self.slots.push(FuncSlot::Native(position));
        assert(self@.natives =~= old(self)@.natives.push(
            NativeSpec { type_index, locals: locals@, body: instructions@ },
        ));
        r
    }

    /// Adds a function imported as `module`.`field`, with its own signature, and
    /// returns its function id.
    pub fn add_imported_func(
        &mut self,
        module: String,
        field: String,
        params: Vec<ValType>,
        results: Vec<ValType>,
    ) -> (r: u32)
        ensures
            r == old(self)@.next_func_id(),
            final(self)@ == old(self)@.with_import(module@, field@, params@, results@),
            old(self)@.wf() && old(self)@.slots.len() < u32::MAX ==> final(self)@.wf(),
    {
        let type_index = self.add_type(params, results);
        let r = self.slots.len() as u32;
        let position = self.imports.len() as u32;
        let ghost m = module@;
        let ghost f = field@;
        self.imports.push(ImportedFunc { module, field, type_index });
        self.slots.push(FuncSlot::Imported(position));
        assert(self@.imports =~= old(self)@.imports.push(
            ImportSpec { module: m, field: f, type_index },
        ));
        r
    }

    /// Appends a function id to the function table and returns its slot.
    pub fn add_table_entry(&mut self, func: u32) -> (r: u32)
        ensures
            r == old(self)@.table.len() as u32,
            final(self)@ == old(self)@.with_table_entry(func),
    {
        let r = self.table.len() as u32;
        self.table.push(func);
        r
    }

    /// Adds a mutable i32 global with the given initial value and returns its index.
    pub fn add_global(&mut self, initial_value: i32) -> (r: u32)
        ensures
            r == old(self)@.globals.len() as u32,
            final(self)@ == (AssemblerSpec {
                globals: old(self)@.globals.push(initial_value),
                ..old(self)@
            }),
    {
        let r = self.globals.len() as u32;
        self.globals.push(initial_value);
        r
    }

    /// Places `bytes` in linear memory at `offset` when the module is instantiated.
    pub fn add_data(&mut self, offset: i32, bytes: Vec<u8>)
        ensures
            final(self)@ == old(self)@.with_data(offset, bytes@),
    {
        let ghost b = bytes@;
        self.data.push(DataSegment { offset, bytes });
        assert(self@.data =~= old(self)@.data.push(DataSpec { offset, bytes: b }));
    }

    /// Exports function `func` under `name`.
    pub fn add_exported_func(&mut self, name: &str, func: u32)
        ensures
            final(self)@ == old(self)@.with_export(name@, func),
    {
        self.exports.push(FuncExport { name: name.to_owned(), func });
        assert(self@.exports =~= old(self)@.exports.push((name@, func)));
    }

    /// The module index of function `id`.
    fn func_index(&self, id: u32) -> (r: u32)
        ensures
            r == self@.func_index(id),
    {
        if (id as usize) < self.slots.len() {
            match self.slots[id as usize] {
                FuncSlot::Imported(k) => k,
                FuncSlot::Native(k) => (self.imports.len() as u32).wrapping_add(k),
            }
        } else {
            id
        }
    }

    /// The parity_wasm body of the `k`-th defined function, calls resolved.
    fn lower_body(&self, k: usize) -> (r: FuncBody)
        requires
            k < self@.natives.len(),
        ensures
            r == self@.body(k as int),
    {
        let n = &self.natives[k];
        let ghost spec = self@;
        let mut code: Vec<Instr> = Vec::new();
        let mut j: usize = 0;
        while j < n.body.len()
            invariant
                spec == self@,
                n@ == spec.natives[k as int],
                j <= n.body@.len(),
                code@ == n.body@.subrange(0, j as int).map_values(|i: Instr| spec.resolve(i)),
            decreases n.body@.len() - j,
        {
            let i = n.body[j];
            let resolved = match i {
                Instr::Call(f) => Instr::Call(self.func_index(f)),
                _ => i,
            };
            code.push(resolved);
            j = j + 1;
            assert(n.body@.subrange(0, j as int) == n.body@.subrange(0, j - 1).push(i));
        }
        assert(n.body@.subrange(0, j as int) == n.body@);
        let lowered = lower_instructions(&code);
        assert(lowered@ =~= n.body@.map_values(|i: Instr| wasm_instruction(spec.resolve(i))));
        let mut locals: Vec<(u32, ValType)> = Vec::new();
        let mut l: usize = 0;
        while l < n.locals.len()
            invariant
                l <= n.locals@.len(),
                locals@ == n.locals@.subrange(0, l as int).map_values(|t: ValType| (1u32, t)),
            decreases n.locals@.len() - l,
        {
            locals.push((1u32, n.locals[l]));
            l = l + 1;
            assert(n.locals@.subrange(0, l as int) == n.locals@.subrange(0, l - 1).push(n.locals@[l - 1]));
        }
        assert(n.locals@.subrange(0, l as int) == n.locals@);
        pw_func_body(&locals, lowered)
    }

    /// Assembles the module and serializes it with parity_wasm.
    ///
    /// The sections are, in order: types, imports, defined functions, the
    /// table, the memory (when declared), globals, exports (every exported
    /// function by module index, then the memory as `memory`), the table's
    /// elements, code and data. Calls, table entries and exports refer to
    /// functions by module index: imports first, then defined functions.
    pub fn compile(self) -> (r: Result<Vec<u8>, AssembleError>)
        ensures
            match r {
                Ok(bytes) => wasm_binary(self@.sections()) == Some(bytes@),
                Err(_) => wasm_binary(self@.sections()) is None,
            },
    {
        let ghost spec = self@;
        let mut type_refs: Vec<u32> = Vec::new();
        let mut bodies: Vec<FuncBody> = Vec::new();
        let mut k: usize = 0;
        while k < self.natives.len()
            invariant
                spec == self@,
                k <= spec.natives.len(),
                type_refs@ == spec.natives.subrange(0, k as int).map_values(
                    |n: NativeSpec| n.type_index,
                ),
                bodies@ == Seq::new(k as nat, |j: int| spec.body(j)),
            decreases spec.natives.len() - k,
        {
            type_refs.push(self.natives[k].type_index);
            bodies.push(self.lower_body(k));
            k = k + 1;
            assert(spec.natives.subrange(0, k as int) == spec.natives.subrange(0, k - 1).push(
                spec.natives[k - 1],
            ));
            assert(bodies@ =~= Seq::new(k as nat, |j: int| spec.body(j)));
        }
        assert(spec.natives.subrange(0, k as int) == spec.natives);

        let mut members: Vec<u32> = Vec::new();
        let mut t: usize = 0;
        while t < self.table.len()
            invariant
                spec == self@,
                t <= spec.table.len(),
                members@ == spec.table.subrange(0, t as int).map_values(
                    |f: u32| spec.func_index(f),
                ),
            decreases spec.table.len() - t,
        {
            members.push(self.func_index(self.table[t]));
            t = t + 1;
            assert(spec.table.subrange(0, t as int) == spec.table.subrange(0, t - 1).push(
                spec.table[t - 1],
            ));
        }
        assert(spec.table.subrange(0, t as int) == spec.table);

        let mut exports: Vec<Export> = Vec::new();
        let mut e: usize = 0;
        while e < self.exports.len()
            invariant
                spec == self@,
                e <= spec.exports.len(),
                exports@.map_values(|x: Export| x@) == spec.exports.subrange(0, e as int).map_values(
                    |x: (Seq<char>, u32)|
                        ExportSpec { name: x.0, kind: ExportKind::Function(spec.func_index(x.1)) },
                ),
            decreases spec.exports.len() - e,
        {
            let index = self.func_index(self.exports[e].func);
            let x = Export { name: self.exports[e].name.clone(), kind: ExportKind::Function(index) };
            assert(x@ == ExportSpec {
                name: spec.exports[e as int].0,
                kind: ExportKind::Function(spec.func_index(spec.exports[e as int].1)),
            });
            let ghost before = exports@;
            exports.push(x);
            assert(exports@ == before.push(x));
            assert(exports@.map_values(|y: Export| y@) =~= before.map_values(|y: Export| y@).push(x@));
            e = e + 1;
            assert(spec.exports.subrange(0, e as int) == spec.exports.subrange(0, e - 1).push(
                spec.exports[e - 1],
            ));
            assert(exports@.map_values(|x: Export| x@) =~= spec.exports.subrange(0, e as int).map_values(
                |x: (Seq<char>, u32)|
                    ExportSpec { name: x.0, kind: ExportKind::Function(spec.func_index(x.1)) },
            ));
        }
        assert(spec.exports.subrange(0, e as int) == spec.exports);
        if self.memory {
            exports.push(Export { name: "memory".to_owned(), kind: ExportKind::Memory(0) });
        }
        assert(exports@.map_values(|x: Export| x@) =~= spec.export_specs());

        let mut sections: Vec<Section> = Vec::new();
        sections.push(pw_type_section(&self.types));
        sections.push(pw_import_section(&self.imports));
        sections.push(pw_function_section(&type_refs));
        let table_size = #[verifier::truncate] (self.table.len() as u32);
        sections.push(pw_table_section(table_size, Some(table_size)));
        if self.memory {
            sections.push(pw_memory_section(MEMORY_PAGES));
        }
        sections.push(pw_global_section(true, &self.globals));
        sections.push(pw_export_section(&exports));
        sections.push(pw_element_section(0, 0, &members));
        sections.push(pw_code_section(bodies));
        sections.push(pw_data_section(0, &self.data));
        assert(sections@ =~= spec.sections());
        match pw_module_bytes(sections) {
            Some(bytes) => Ok(bytes),
            None => Err(AssembleError::Serialization),
        }
    }
}

} // verus!
