use forsm::assembler::Assembler;
use forsm::layout::{align, required_padding};
use forsm::tokens::{bytes_equal, copy_bytes, TokenTable};
use forsm::wasm::{Instr, ValType};
use wasmi::{Engine, Linker, Module, Store};

#[test]
fn padding_brings_offsets_to_multiples_of_four() {
    assert_eq!(required_padding(0), 0);
    assert_eq!(required_padding(1), 3);
    assert_eq!(required_padding(2), 2);
    assert_eq!(required_padding(3), 1);
    assert_eq!(required_padding(4), 0);
    assert_eq!(required_padding(13), 3);
    assert_eq!(align(5), 8);
    assert_eq!(align(8), 8);
    assert_eq!(align(0x1001), 0x1004);
}

#[test]
fn token_table_shadows_redefinitions() {
    let mut table = TokenTable::new();
    table.insert("DUP", 0x1008);
    table.insert("DROP", 0x1014);
    table.insert("DUP", 0x1020);
    assert_eq!(table.len(), 2);
    assert_eq!(table.get(b"DUP"), Some(0x1020));
    assert_eq!(table.get(b"DROP"), Some(0x1014));
    assert_eq!(table.get(b"SWAP"), None);
    let (name, token) = table.entry(0);
    assert_eq!(name.as_str(), "DUP");
    assert_eq!(token, 0x1020);
    let (name, token) = table.entry(1);
    assert_eq!(name.as_str(), "DROP");
    assert_eq!(token, 0x1014);
}

#[test]
fn byte_helpers() {
    assert!(bytes_equal(b"abc", b"abc"));
    assert!(!bytes_equal(b"abc", b"abd"));
    assert!(!bytes_equal(b"abc", b"ab"));
    assert_eq!(copy_bytes(b"xyz"), b"xyz".to_vec());
}

#[test]
fn assembler_places_imports_before_defined_functions() {
    // A defined function added before an import still calls the import and
    // is exported under the right index.
    let mut assembler = Assembler::new();
    assembler.add_memory();
    let double = assembler.add_native_func(
        vec![ValType::I32],
        vec![ValType::I32],
        vec![],
        vec![Instr::GetLocal(0), Instr::GetLocal(0), Instr::I32Add, Instr::End],
    );
    let offset = assembler.add_imported_func("host".to_owned(), "offset".to_owned(), vec![], vec![ValType::I32]);
    let global = assembler.add_global(100);
    let run = assembler.add_native_func(
        vec![ValType::I32],
        vec![ValType::I32],
        vec![],
        vec![
            Instr::GetLocal(0),
            Instr::Call(double),
            Instr::Call(offset),
            Instr::I32Add,
            Instr::GetGlobal(global),
            Instr::I32Add,
            Instr::End,
        ],
    );
    assembler.add_exported_func("run", run);
    assembler.add_data(0x20, vec![7, 8, 9]);
    let binary = assembler.compile().unwrap();

    let engine = Engine::default();
    let module = Module::new(&engine, &binary[..]).unwrap();
    let mut store = Store::new(&engine, ());
    let mut linker = Linker::<()>::new(&engine);
    linker.func_wrap("host", "offset", || 5i32).unwrap();
    let instance = linker.instantiate_and_start(&mut store, &module).unwrap();
    let f = instance.get_typed_func::<i32, i32>(&store, "run").unwrap();
    assert_eq!(f.call(&mut store, 4).unwrap(), 113);
    let memory = instance.get_memory(&store, "memory").unwrap();
    assert_eq!(&memory.data(&store)[0x20..0x23], &[7, 8, 9]);
}

#[test]
fn assembler_calls_through_the_table() {
    let mut assembler = Assembler::new();
    let sig = assembler.add_type(vec![ValType::I32], vec![ValType::I32]);
    let triple = assembler.add_native_func(
        vec![ValType::I32],
        vec![ValType::I32],
        vec![],
        vec![Instr::GetLocal(0), Instr::I32Const(3), Instr::I32Mul, Instr::End],
    );
    let slot = assembler.add_table_entry(triple);
    let run = assembler.add_native_func(
        vec![ValType::I32],
        vec![ValType::I32],
        vec![],
        vec![Instr::GetLocal(0), Instr::I32Const(slot as i32), Instr::CallIndirect(sig, 0), Instr::End],
    );
    assembler.add_exported_func("run", run);
    let binary = assembler.compile().unwrap();

    let engine = Engine::default();
    let module = Module::new(&engine, &binary[..]).unwrap();
    let mut store = Store::new(&engine, ());
    let linker = Linker::<()>::new(&engine);
    let instance = linker.instantiate_and_start(&mut store, &module).unwrap();
    let f = instance.get_typed_func::<i32, i32>(&store, "run").unwrap();
    assert_eq!(f.call(&mut store, 14).unwrap(), 42);
}
