use forsm::bootstrapper::bootstrapped_interpreter::build;
use forsm::bootstrapper::compiler::Compiler;
use wasmi::{Caller, Engine, Extern, Instance, Linker, Module, Store};

#[derive(Default)]
struct Host {
    stdin: Vec<u8>,
    stdout: Vec<u8>,
}

const ENOSYS: i32 = 52;

fn read_u32(memory: &[u8], address: usize) -> u32 {
    u32::from_le_bytes([memory[address], memory[address + 1], memory[address + 2], memory[address + 3]])
}

fn fd_write(mut caller: Caller<'_, Host>, fd: i32, ciovecs: i32, ciovecs_len: i32, written: i32) -> i32 {
    assert_eq!(fd, 1);
    assert_eq!(ciovecs_len, 1);
    let memory = caller.get_export("memory").and_then(Extern::into_memory).unwrap();
    let (data, host) = memory.data_and_store_mut(&mut caller);
    let buf = read_u32(data, ciovecs as usize) as usize;
    let len = read_u32(data, ciovecs as usize + 4) as usize;
    host.stdout.extend_from_slice(&data[buf..buf + len]);
    data[written as usize..written as usize + 4].copy_from_slice(&(len as u32).to_le_bytes());
    0
}

fn fd_read(mut caller: Caller<'_, Host>, fd: i32, iovecs: i32, iovecs_len: i32, read: i32) -> i32 {
    assert_eq!(fd, 0);
    assert_eq!(iovecs_len, 1);
    let memory = caller.get_export("memory").and_then(Extern::into_memory).unwrap();
    let (data, host) = memory.data_and_store_mut(&mut caller);
    let buf = read_u32(data, iovecs as usize) as usize;
    let len = read_u32(data, iovecs as usize + 4) as usize;
    let n = len.min(host.stdin.len());
    let bytes: Vec<u8> = host.stdin.drain(0..n).collect();
    data[buf..buf + n].copy_from_slice(&bytes);
    data[read as usize..read as usize + 4].copy_from_slice(&(n as u32).to_le_bytes());
    0
}

struct Interpreter {
    store: Store<Host>,
    instance: Instance,
}

impl Interpreter {
    fn new() -> Interpreter {
        let mut compiler = Compiler::default();
        compiler.export_all_words();
        build(&mut compiler, &vec![]);
        let binary = compiler.compile().unwrap();
        let engine = Engine::default();
        let module = Module::new(&engine, &binary[..]).unwrap();
        let mut store = Store::new(&engine, Host::default());
        let mut linker = Linker::<Host>::new(&engine);
        let wasi = "wasi_snapshot_preview1";
        linker
            .func_wrap(wasi, "proc_exit", |code: i32| -> () {
                panic!("exit {}", code);
            })
            .unwrap();
        linker.func_wrap(wasi, "args_get", |_: i32, _: i32| ENOSYS).unwrap();
        linker.func_wrap(wasi, "args_sizes_get", |_: i32, _: i32| ENOSYS).unwrap();
        linker.func_wrap(wasi, "fd_read", fd_read).unwrap();
        linker.func_wrap(wasi, "fd_write", fd_write).unwrap();
        linker
            .func_wrap(
                wasi,
                "path_open",
                |_: i32, _: i32, _: i32, _: i32, _: i32, _: i64, _: i64, _: i32, _: i32| ENOSYS,
            )
            .unwrap();
        linker.func_wrap(wasi, "fd_close", |_: i32| ENOSYS).unwrap();
        linker.func_wrap(wasi, "fd_prestat_get", |_: i32, _: i32| ENOSYS).unwrap();
        linker.func_wrap(wasi, "fd_prestat_dir_name", |_: i32, _: i32, _: i32| ENOSYS).unwrap();
        linker.func_wrap(wasi, "fd_fdstat_get", |_: i32, _: i32| ENOSYS).unwrap();
        let instance = linker.instantiate_and_start(&mut store, &module).unwrap();
        Interpreter { store, instance }
    }

    fn push(&mut self, value: i32) {
        let f = self.instance.get_typed_func::<i32, ()>(&self.store, "push").unwrap();
        f.call(&mut self.store, value).unwrap();
    }

    fn pop(&mut self) -> i32 {
        let f = self.instance.get_typed_func::<(), i32>(&self.store, "pop").unwrap();
        f.call(&mut self.store, ()).unwrap()
    }

    fn push_string(&mut self, start: i32, string: &str) {
        let memory = self.instance.get_memory(&self.store, "memory").unwrap();
        memory.write(&mut self.store, start as usize, string.as_bytes()).unwrap();
        self.push(start);
        self.push(string.len() as i32);
    }

    fn execute(&mut self, word: &str) {
        let f = self.instance.get_typed_func::<(), ()>(&self.store, word).unwrap();
        f.call(&mut self.store, ()).unwrap();
    }

    fn read_output(&mut self) -> String {
        let bytes = std::mem::take(&mut self.store.data_mut().stdout);
        String::from_utf8(bytes).unwrap()
    }
}

#[test]
fn bootstrapper_handle_string_equality() {
    let mut interpreter = Interpreter::new();
    let addr1 = 0x500;
    let addr2 = 0x600;

    interpreter.push_string(addr1, "Fred");
    interpreter.push_string(addr2, "FRED");
    interpreter.execute("STR-UPPER-EQ?");
    assert_eq!(interpreter.pop(), -1);

    interpreter.push_string(addr1, "Fred");
    interpreter.push_string(addr2, "George");
    interpreter.execute("STR-UPPER-EQ?");
    assert_eq!(interpreter.pop(), 0);
}

#[test]
fn bootstrapper_find_words() {
    let mut interpreter = Interpreter::new();
    let addr1 = 0x500;

    interpreter.push_string(addr1, "dup");
    interpreter.execute("FIND-NAME");
    let dup_nt = interpreter.pop();
    assert_ne!(dup_nt, 0);

    interpreter.push(dup_nt);
    interpreter.execute("NAME>STRING");
    interpreter.execute("TYPE");
    let dup_str = interpreter.read_output();
    assert_eq!(dup_str, "DUP");

    interpreter.push_string(addr1, "DOOP");
    interpreter.execute("FIND-NAME");
    let doop_nt = interpreter.pop();
    assert_eq!(doop_nt, 0);
}

#[test]
fn bootstrapper_parse_digits() {
    let mut interpreter = Interpreter::new();

    interpreter.push('6' as i32);
    interpreter.execute("?DIGIT");
    assert_eq!(interpreter.pop(), -1);
    assert_eq!(interpreter.pop(), 6);

    interpreter.push('4' as i32);
    interpreter.execute("?DIGIT");
    assert_eq!(interpreter.pop(), -1);
    assert_eq!(interpreter.pop(), 4);

    interpreter.push('a' as i32);
    interpreter.execute("?DIGIT");
    assert_eq!(interpreter.pop(), 0);

    interpreter.push(16);
    interpreter.execute("BASE");
    interpreter.execute("!");
    interpreter.push('a' as i32);
    interpreter.execute("?DIGIT");
    assert_eq!(interpreter.pop(), -1);
    assert_eq!(interpreter.pop(), 10);
}

#[test]
fn bootstrapper_parse_numbers() {
    let mut interpreter = Interpreter::new();
    let addr1 = 0x500;

    interpreter.push_string(addr1, "64");
    interpreter.execute("?NUMBER");
    assert_eq!(interpreter.pop(), -1); // forth true
    assert_eq!(interpreter.pop(), 64);
}

#[test]
fn bootstrapper_parse_negative_numbers() {
    let mut interpreter = Interpreter::new();
    let addr1 = 0x500;

    interpreter.push_string(addr1, "-64");
    interpreter.execute("?NUMBER");
    assert_eq!(interpreter.pop(), -1); // forth true
    assert_eq!(interpreter.pop(), -64);
}

#[test]
fn bootstrapper_not_parse_numbers_in_wrong_base() {
    let mut interpreter = Interpreter::new();
    let addr1 = 0x500;

    interpreter.push_string(addr1, "f0");
    interpreter.execute("?NUMBER");
    assert_eq!(interpreter.pop(), 0); // forth false
}

#[test]
fn bootstrapper_parse_hex_literals() {
    let mut interpreter = Interpreter::new();
    let addr1 = 0x500;

    interpreter.push(16);
    interpreter.execute("BASE");
    interpreter.execute("!");
    interpreter.push_string(addr1, "f0");
    interpreter.execute("?NUMBER");
    assert_eq!(interpreter.pop(), -1);
    assert_eq!(interpreter.pop(), 0xf0);
}

#[test]
fn interpreter_reads_and_echoes_input() {
    // ACCEPT reads a line from standard input into a buffer; TYPE writes it back.
    let mut interpreter = Interpreter::new();
    interpreter.store.data_mut().stdin.extend_from_slice(b"hello world\nrest");
    interpreter.push(0x500);
    interpreter.push(0x40);
    interpreter.execute("ACCEPT");
    let n = interpreter.pop();
    assert_eq!(n, 11);
    interpreter.push(0x500);
    interpreter.push(n);
    interpreter.execute("TYPE");
    assert_eq!(interpreter.read_output(), "hello world");
}

#[test]
fn interpreter_emits_characters() {
    let mut interpreter = Interpreter::new();
    for c in "nice".chars() {
        interpreter.push(c as i32);
        interpreter.execute("EMIT");
    }
    assert_eq!(interpreter.read_output(), "nice");
}

#[test]
fn interpreter_interprets_refilled_line() {
    // REFILL reads a line into the terminal input buffer; INTERPRET runs it.
    let mut interpreter = Interpreter::new();
    interpreter.store.data_mut().stdin.extend_from_slice(b"2 3 + 10 *\n");
    interpreter.execute("REFILL");
    assert_eq!(interpreter.pop(), -1);
    interpreter.execute("INTERPRET");
    assert_eq!(interpreter.pop(), 50);
}

#[test]
fn interpreter_name_to_xt_runs_the_word() {
    // NAME>XT reads the token at the aligned address after the name and link
    let mut interpreter = Interpreter::new();
    interpreter.push_string(0x500, "swap");
    interpreter.execute("FIND-NAME");
    let nt = interpreter.pop();
    assert_eq!(nt % 4, 0);
    interpreter.push(1);
    interpreter.push(2);
    interpreter.push(nt);
    interpreter.execute("NAME>XT");
    let xt = interpreter.pop();
    assert_eq!(xt % 4, 0);
    interpreter.push(xt);
    interpreter.execute("EXECUTE");
    assert_eq!(interpreter.pop(), 1);
    assert_eq!(interpreter.pop(), 2);
}

#[test]
fn interpreter_latest_is_found_first() {
    // FIND-NAME starts at LATEST and walks the links back
    let mut interpreter = Interpreter::new();
    interpreter.push_string(0x500, "run-word");
    interpreter.execute("FIND-NAME");
    let nt = interpreter.pop();
    interpreter.execute("LATEST");
    interpreter.execute("@");
    assert_eq!(interpreter.pop(), nt);
}

#[test]
fn interpreter_imports_only_wasi_functions() {
    let binary = forsm::compile_interpreter(&vec!["core.fth".to_string()]).unwrap();
    let engine = Engine::default();
    let module = Module::new(&engine, &binary[..]).unwrap();
    let imports: Vec<(String, String)> =
        module.imports().map(|i| (i.module().to_string(), i.name().to_string())).collect();
    let expected = [
        "proc_exit", "args_get", "args_sizes_get", "fd_read", "fd_write", "path_open", "fd_close",
        "fd_prestat_get", "fd_prestat_dir_name", "fd_fdstat_get",
    ];
    assert_eq!(imports.len(), expected.len());
    for (import, name) in imports.iter().zip(expected.iter()) {
        assert_eq!(import.0, "wasi_snapshot_preview1");
        assert_eq!(import.1, *name);
    }
    let exports: Vec<String> = module.exports().map(|e| e.name().to_string()).collect();
    assert_eq!(exports, vec!["_start".to_string(), "memory".to_string()]);
}
