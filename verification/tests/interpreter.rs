use forsm::bootstrapped_interpreter::build;
use forsm::compiler::Compiler;
use wasmi::{Caller, Engine, Extern, Instance, Linker, Module, Store};

#[derive(Default)]
struct Host {
    stdout: Vec<u8>,
}

struct Interpreter {
    store: Store<Host>,
    instance: Instance,
}

fn type_output(mut caller: Caller<'_, Host>, addr: i32, len: i32) {
    let memory = caller.get_export("memory").and_then(Extern::into_memory).unwrap();
    let (data, host) = memory.data_and_store_mut(&mut caller);
    host.stdout.extend_from_slice(&data[addr as usize..(addr + len) as usize]);
}

impl Interpreter {
    fn new() -> Interpreter {
        let mut compiler = Compiler::default();
        build(&mut compiler);
        let binary = compiler.compile().unwrap();
        let engine = Engine::default();
        let module = Module::new(&engine, &binary[..]).unwrap();
        let mut store = Store::new(&engine, Host::default());
        let mut linker = Linker::<Host>::new(&engine);
        linker.func_wrap("IO", "READ-BLOCK", |_: i32, _: i32| {}).unwrap();
        linker
            .func_wrap("IO", "EMIT", |mut caller: Caller<'_, Host>, c: i32| {
                caller.data_mut().stdout.push(c as u8);
            })
            .unwrap();
        linker.func_wrap("IO", "TYPE", type_output).unwrap();
        let instance = linker.instantiate_and_start(&mut store, &module).unwrap();
        Interpreter { store, instance }
    }

    fn push(&mut self, value: i32) {
        let f = self.instance.get_typed_func::<i32, ()>(&self.store, "push").unwrap();
        f.call(&mut self.store, value).unwrap();
    }

    fn pop(&mut self) -> i32 {
        let f = self.instance.get_typed_func::<(), i32>(&self.store, "pop").unwrap();
        f.call(&mut self.store, ()).unwrap()
    }

    fn push_string(&mut self, start: i32, string: &str) {
        let memory = self.instance.get_memory(&self.store, "memory").unwrap();
        memory.write(&mut self.store, start as usize, string.as_bytes()).unwrap();
        self.push(start);
        self.push(string.len() as i32);
    }

    fn execute(&mut self, word: &str) {
        let f = self.instance.get_typed_func::<(), ()>(&self.store, word).unwrap();
        f.call(&mut self.store, ()).unwrap();
    }

    fn read_output(&mut self) -> String {
        let bytes = std::mem::take(&mut self.store.data_mut().stdout);
        String::from_utf8(bytes).unwrap()
    }
}

#[test]
fn should_handle_string_equality() {
    let mut interpreter = Interpreter::new();
    let addr1 = 0x500;
    let addr2 = 0x600;

    interpreter.push_string(addr1, "Fred");
    interpreter.push_string(addr2, "FRED");
    interpreter.execute("STR-UPPER-EQ?");
    assert_eq!(interpreter.pop(), -1);

    interpreter.push_string(addr1, "Fred");
    interpreter.push_string(addr2, "George");
    interpreter.execute("STR-UPPER-EQ?");
    assert_eq!(interpreter.pop(), 0);
}

#[test]
fn should_find_words() {
    let mut interpreter = Interpreter::new();
    let addr1 = 0x500;

    interpreter.push_string(addr1, "dup");
    interpreter.execute("FIND-NAME");
    let dup_nt = interpreter.pop();
    assert_ne!(dup_nt, 0);

    interpreter.push(dup_nt);
    interpreter.execute("NAME>STRING");
    interpreter.execute("TYPE");
    let dup_str = interpreter.read_output();
    assert_eq!(dup_str, "DUP");

    interpreter.push_string(addr1, "DOOP");
    interpreter.execute("FIND-NAME");
    let doop_nt = interpreter.pop();
    assert_eq!(doop_nt, 0);
}

#[test]
fn should_parse_digits() {
    let mut interpreter = Interpreter::new();

    interpreter.push('6' as i32);
    interpreter.execute("?DIGIT");
    assert_eq!(interpreter.pop(), -1);
    assert_eq!(interpreter.pop(), 6);

    interpreter.push('4' as i32);
    interpreter.execute("?DIGIT");
    assert_eq!(interpreter.pop(), -1);
    assert_eq!(interpreter.pop(), 4);

    interpreter.push('a' as i32);
    interpreter.execute("?DIGIT");
    assert_eq!(interpreter.pop(), 0);

    interpreter.push(16);
    interpreter.execute("BASE");
    interpreter.execute("!");
    interpreter.push('a' as i32);
    interpreter.execute("?DIGIT");
    assert_eq!(interpreter.pop(), -1);
    assert_eq!(interpreter.pop(), 10);
}

#[test]
fn should_parse_numbers() {
    let mut interpreter = Interpreter::new();
    let addr1 = 0x500;

    interpreter.push_string(addr1, "64");
    interpreter.execute("?NUMBER");
    assert_eq!(interpreter.pop(), -1); // forth true
    assert_eq!(interpreter.pop(), 64);
}

#[test]
fn should_parse_negative_numbers() {
    let mut interpreter = Interpreter::new();
    let addr1 = 0x500;

    interpreter.push_string(addr1, "-64");
    interpreter.execute("?NUMBER");
    assert_eq!(interpreter.pop(), -1); // forth true
    assert_eq!(interpreter.pop(), -64);
}

#[test]
fn should_not_parse_numbers_in_wrong_base() {
    let mut interpreter = Interpreter::new();
    let addr1 = 0x500;

    interpreter.push_string(addr1, "f0");
    interpreter.execute("?NUMBER");
    assert_eq!(interpreter.pop(), 0); // forth false
}

#[test]
fn should_parse_hex_literals() {
    let mut interpreter = Interpreter::new();
    let addr1 = 0x500;

    interpreter.push(16);
    interpreter.execute("BASE");
    interpreter.execute("!");
    interpreter.push_string(addr1, "f0");
    interpreter.execute("?NUMBER");
    assert_eq!(interpreter.pop(), -1);
    assert_eq!(interpreter.pop(), 0xf0);
}
