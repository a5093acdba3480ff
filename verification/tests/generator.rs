use forsm::generator::ColonValue::{Branch, Lit, QBranch, XT};
use forsm::generator::Generator;
use wasmi::{Engine, Instance, Linker, Module, Store};

struct Runtime {
    store: Store<()>,
    instance: Instance,
}

impl Runtime {
    fn push(&mut self, value: i32) {
        let f = self.instance.get_typed_func::<i32, ()>(&self.store, "push").unwrap();
        f.call(&mut self.store, value).unwrap();
    }

    fn pop(&mut self) -> i32 {
        let f = self.instance.get_typed_func::<(), i32>(&self.store, "pop").unwrap();
        f.call(&mut self.store, ()).unwrap()
    }

    fn write_bytes(&mut self, address: usize, bytes: &[u8]) {
        let memory = self.instance.get_memory(&self.store, "memory").unwrap();
        memory.write(&mut self.store, address, bytes).unwrap();
    }

    fn memory_byte(&self, address: usize) -> u8 {
        self.instance.get_memory(&self.store, "memory").unwrap().data(&self.store)[address]
    }

    fn execute(&mut self, word: &str) {
        let f = self.instance.get_typed_func::<(), ()>(&self.store, word).unwrap();
        f.call(&mut self.store, ()).unwrap();
    }
}

fn build_with_imports<T, F>(func: T, imports: F) -> Runtime
where
    T: FnOnce(&mut Generator),
    F: FnOnce(&mut Linker<()>),
{
    let mut compiler = Generator::default();
    func(&mut compiler);
    let binary = compiler.compile().unwrap();
    let engine = Engine::default();
    let module = Module::new(&engine, &binary[..]).unwrap();
    let mut store = Store::new(&engine, ());
    let mut linker = Linker::<()>::new(&engine);
    imports(&mut linker);
    let instance = linker.instantiate_and_start(&mut store, &module).unwrap();
    Runtime { store, instance }
}

fn build<T>(func: T) -> Runtime
where
    T: FnOnce(&mut Generator),
{
    build_with_imports(func, |_| {})
}

#[test]
fn generator_stack_grows_up() {
    let mut runtime = build(|_| {});
    runtime.push(1);
    runtime.push(2);
    runtime.push(3);
    assert_eq!(runtime.pop(), 3);
    assert_eq!(runtime.pop(), 2);
    assert_eq!(runtime.pop(), 1);
}

#[test]
fn generator_stack_words() {
    let mut runtime = build(|_| {});
    runtime.push(1);
    runtime.execute("DUP");
    assert_eq!(runtime.pop(), 1);
    assert_eq!(runtime.pop(), 1);

    runtime.push(1);
    runtime.push(2);
    runtime.execute("SWAP");
    assert_eq!(runtime.pop(), 1);
    assert_eq!(runtime.pop(), 2);

    runtime.push(1);
    runtime.push(2);
    runtime.execute("OVER");
    assert_eq!(runtime.pop(), 1);
    assert_eq!(runtime.pop(), 2);
    assert_eq!(runtime.pop(), 1);

    runtime.push(1);
    runtime.push(2);
    runtime.push(3);
    runtime.execute("NIP");
    assert_eq!(runtime.pop(), 3);
    assert_eq!(runtime.pop(), 1);

    runtime.push(1);
    runtime.push(2);
    runtime.execute("TUCK");
    assert_eq!(runtime.pop(), 2);
    assert_eq!(runtime.pop(), 1);
    assert_eq!(runtime.pop(), 2);

    runtime.push(1);
    runtime.push(2);
    runtime.push(3);
    runtime.execute("ROT");
    assert_eq!(runtime.pop(), 1);
    assert_eq!(runtime.pop(), 3);
    assert_eq!(runtime.pop(), 2);

    runtime.push(1);
    runtime.push(2);
    runtime.push(3);
    runtime.execute("-ROT");
    assert_eq!(runtime.pop(), 2);
    assert_eq!(runtime.pop(), 1);
    assert_eq!(runtime.pop(), 3);
}

#[test]
fn generator_return_stack() {
    let mut runtime = build(|gen| {
        gen.define_colon_word("TEST", vec![Lit(5), XT(">R"), Lit(6), XT("R@"), XT("R>"), XT("+"), XT("+")]);
    });
    runtime.execute("TEST");
    assert_eq!(runtime.pop(), 16);
}

#[test]
fn generator_floored_division() {
    let mut runtime = build(|_| {});
    type TestCase = ((i32, i32), (i32, i32));
    let test_cases: Vec<TestCase> = vec![
        ((7, 4), (1, 3)),
        ((-7, 4), (-2, 1)),
        ((7, -4), (-2, -1)),
        ((-7, -4), (1, -3)),
    ];
    for ((n, d), (q, m)) in test_cases {
        runtime.push(n);
        runtime.push(d);
        runtime.execute("/");
        assert_eq!(runtime.pop(), q);
        runtime.push(n);
        runtime.push(d);
        runtime.execute("MOD");
        assert_eq!(runtime.pop(), m);
    }
}

#[test]
fn generator_arithmetic_and_flags() {
    let mut runtime = build(|_| {});
    runtime.push(6);
    runtime.push(7);
    runtime.execute("*");
    assert_eq!(runtime.pop(), 42);

    runtime.push(3);
    runtime.push(9);
    runtime.execute("MIN");
    assert_eq!(runtime.pop(), 3);

    runtime.push(3);
    runtime.push(9);
    runtime.execute("MAX");
    assert_eq!(runtime.pop(), 9);

    runtime.push(0);
    runtime.execute("INVERT");
    assert_eq!(runtime.pop(), -1);
    runtime.push(7);
    runtime.execute("=0");
    assert_eq!(runtime.pop(), 0);
    runtime.push(0);
    runtime.execute("=0");
    assert_eq!(runtime.pop(), -1);

    runtime.push(2);
    runtime.push(1);
    runtime.execute(">");
    assert_eq!(runtime.pop(), -1);
    runtime.push(-1);
    runtime.execute("<0");
    assert_eq!(runtime.pop(), -1);
    runtime.execute("TRUE");
    assert_eq!(runtime.pop(), -1);
    runtime.execute("FALSE");
    assert_eq!(runtime.pop(), 0);
}

#[test]
fn generator_colon_words_and_branches() {
    let mut runtime = build(|gen| {
        gen.define_variable_word("COUNTER", 0);
        gen.define_colon_word("SQUARE", vec![XT("DUP"), XT("*")]);
        // count down from the top of the stack, adding one to COUNTER per step
        gen.define_colon_word(
            "COUNTDOWN",
            vec![
                XT("DUP"), QBranch(28),
                Lit(1), XT("COUNTER"), XT("+!"),
                XT("1-"),
                Branch(-40),
                XT("DROP"),
            ],
        );
    });
    runtime.push(3);
    runtime.execute("SQUARE");
    assert_eq!(runtime.pop(), 9);

    runtime.push(4);
    runtime.execute("COUNTDOWN");
    runtime.execute("COUNTER");
    runtime.execute("@");
    assert_eq!(runtime.pop(), 4);
}

#[test]
fn generator_redefinition_shadows() {
    let mut runtime = build(|gen| {
        gen.define_constant_word("ANSWER", 41);
        gen.define_constant_word("ANSWER", 42);
    });
    runtime.execute("ANSWER");
    assert_eq!(runtime.pop(), 42);
}

#[test]
fn generator_entry_layout() {
    // An entry is the name's length, the name, the previous entry and the
    // code cell; a variable's parameter is its cell, and its token is the
    // address of the code cell.
    let mut runtime = build(|gen| {
        gen.define_variable_word("ABC", 0x1234);
    });
    runtime.execute("ABC");
    let cell = runtime.pop() as usize;
    let entry = cell - 4 - 4 - 3 - 1;
    assert_eq!(runtime.memory_byte(entry), 3);
    assert_eq!(runtime.memory_byte(entry + 1), b'A');
    assert_eq!(runtime.memory_byte(entry + 2), b'B');
    assert_eq!(runtime.memory_byte(entry + 3), b'C');
    assert_eq!(runtime.memory_byte(cell), 0x34);
    assert_eq!(runtime.memory_byte(cell + 1), 0x12);
}

#[test]
fn generator_last_word_points_at_run_word() {
    // After the module is finished, LAST-WORD holds the address of the last
    // entry, RUN-WORD, whose name follows its length byte.
    let mut runtime = build(|_| {});
    runtime.execute("LAST-WORD");
    runtime.execute("@");
    let entry = runtime.pop() as usize;
    assert_eq!(runtime.memory_byte(entry), 8);
    let name: Vec<u8> = (1..9).map(|i| runtime.memory_byte(entry + i)).collect();
    assert_eq!(name, b"RUN-WORD".to_vec());
}

#[test]
fn generator_interpreter_finds_words() {
    let mut runtime = build(|gen| {
        forsm::interpreter::build(gen);
    });
    runtime.write_bytes(0x800, b"dup");
    runtime.push(0x800);
    runtime.push(3);
    runtime.execute("FIND-NAME");
    let nt = runtime.pop() as usize;
    assert_ne!(nt, 0);
    assert_eq!(runtime.memory_byte(nt), 3);
    let name: Vec<u8> = (1..4).map(|i| runtime.memory_byte(nt + i)).collect();
    assert_eq!(name, b"DUP".to_vec());

    runtime.write_bytes(0x800, b"nope");
    runtime.push(0x800);
    runtime.push(4);
    runtime.execute("FIND-NAME");
    assert_eq!(runtime.pop(), 0);

    runtime.push('q' as i32);
    runtime.execute("UPCHAR");
    assert_eq!(runtime.pop(), 'Q' as i32);
}

#[test]
fn generator_parser_parses_words() {
    let mut runtime = build(|gen| {
        forsm::parser::build_parser(gen);
    });
    runtime.write_bytes(0x100, b"  hello world");
    runtime.push(13);
    runtime.execute("#TIB");
    runtime.execute("!");
    runtime.push(32);
    runtime.execute("PARSE");
    assert_eq!(runtime.pop(), 5);
    assert_eq!(runtime.pop(), 0x102);
    runtime.push(32);
    runtime.execute("PARSE");
    assert_eq!(runtime.pop(), 5);
    assert_eq!(runtime.pop(), 0x108);
}
