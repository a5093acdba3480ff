use forsm::compiler::ColonValue::{Lit, QBranch, XT};
use forsm::compiler::Compiler;
use wasmi::{Engine, Instance, Linker, Module, Store};

struct Runtime {
    store: Store<()>,
    instance: Instance,
}

impl Runtime {
    fn push(&mut self, value: i32) {
        let f = self.instance.get_typed_func::<i32, ()>(&self.store, "push").unwrap();
        f.call(&mut self.store, value).unwrap();
    }

    fn push_double(&mut self, value: i64) {
        let f = self.instance.get_typed_func::<i64, ()>(&self.store, "push_d").unwrap();
        f.call(&mut self.store, value).unwrap();
    }

    fn pop(&mut self) -> i32 {
        let f = self.instance.get_typed_func::<(), i32>(&self.store, "pop").unwrap();
        f.call(&mut self.store, ()).unwrap()
    }

    fn pop_double(&mut self) -> i64 {
        let f = self.instance.get_typed_func::<(), i64>(&self.store, "pop_d").unwrap();
        f.call(&mut self.store, ()).unwrap()
    }

    fn memory_byte(&self, address: usize) -> u8 {
        self.instance.get_memory(&self.store, "memory").unwrap().data(&self.store)[address]
    }

    fn execute(&mut self, word: &str) {
        let f = self.instance.get_typed_func::<(), ()>(&self.store, word).unwrap();
        f.call(&mut self.store, ()).unwrap();
    }
}

fn build_with_imports<T, F>(func: T, imports: F) -> Runtime
where
    T: FnOnce(&mut Compiler),
    F: FnOnce(&mut Linker<()>),
{
    let mut compiler = Compiler::default();
    func(&mut compiler);
    let binary = compiler.compile().unwrap();
    let engine = Engine::default();
    let module = Module::new(&engine, &binary[..]).unwrap();
    let mut store = Store::new(&engine, ());
    let mut linker = Linker::<()>::new(&engine);
    imports(&mut linker);
    let instance = linker.instantiate_and_start(&mut store, &module).unwrap();
    Runtime { store, instance }
}

fn build<T>(func: T) -> Runtime
where
    T: FnOnce(&mut Compiler),
{
    build_with_imports(func, |_| {})
}

#[test]
fn compiler_should_manipulate_stack() {
    let mut runtime = build(|_| {});

    runtime.push(1);
    runtime.push(2);
    runtime.push(3);

    assert_eq!(runtime.pop(), 3);
    assert_eq!(runtime.pop(), 2);
    assert_eq!(runtime.pop(), 1);
}

#[test]
fn compiler_should_do_math() {
    let mut runtime = build(|_| {});

    runtime.push(3);
    runtime.push(4);
    runtime.execute("+");

    assert_eq!(runtime.pop(), 7);
}

#[test]
fn compiler_should_do_division() {
    let mut runtime = build(|_| {});

    runtime.push(6);
    runtime.push(3);
    runtime.execute("/");

    assert_eq!(runtime.pop(), 2);
}

#[test]
fn compiler_should_do_comparisons() {
    let mut runtime = build(|_| {});

    runtime.push(2);
    runtime.push(1);
    runtime.execute(">");
    assert_eq!(runtime.pop(), -1);

    runtime.push(1);
    runtime.execute("<0");
    assert_eq!(runtime.pop(), 0);
}

#[test]
fn should_handle_signed_div_and_mod() {
    let mut runtime = build(|_| {});
    type TestCase = ((i32, i32), (i32, i32));

    let test_cases: Vec<TestCase> = vec![
        ((7, 4), (1, 3)),
        ((-7, 4), (-2, 1)),
        ((7, -4), (-2, -1)),
        ((-7, -4), (1, -3)),
    ];

    let results: Vec<TestCase> = test_cases
        .iter()
        .map(|case| {
            let ((divisor, dividend), _) = *case;

            runtime.push(divisor);
            runtime.push(dividend);
            runtime.execute("/");
            let quotient = runtime.pop();

            runtime.push(divisor);
            runtime.push(dividend);
            runtime.execute("MOD");
            let modulo = runtime.pop();

            ((divisor, dividend), (quotient, modulo))
        })
        .collect();
    assert_eq!(results, test_cases);
}

#[test]
fn compiler_should_support_double_math() {
    let mut runtime = build(|_| {});
    runtime.push_double(420);
    runtime.push_double(69);
    runtime.execute("D+");
    assert_eq!(runtime.pop_double(), 489);
}

#[test]
fn compiler_should_support_colon_words() {
    let mut runtime = build(|compiler| {
        compiler.define_colon_word("TEST", vec![Lit(2), Lit(3), XT("+")]);
    });
    runtime.execute("TEST");
    assert_eq!(runtime.pop(), 5);
}

#[test]
fn compiler_should_support_variables() {
    let mut runtime = build(|compiler| {
        compiler.define_variable_word("TESTVAR", 0);
        compiler.define_colon_word(
            "TEST",
            vec![Lit(1), XT("TESTVAR"), XT("!"), XT("TESTVAR"), XT("@")],
        );
    });
    runtime.execute("TEST");
    assert_eq!(runtime.pop(), 1);
}

#[test]
fn compiler_should_increment_variables() {
    let mut runtime = build(|compiler| {
        compiler.define_variable_word("TESTVAR", 6);
        compiler.define_colon_word(
            "TEST",
            vec![Lit(7), XT("TESTVAR"), XT("+!"), XT("TESTVAR"), XT("@")],
        );
    });
    runtime.execute("TEST");
    assert_eq!(runtime.pop(), 13);
}

#[test]
fn compiler_should_dup() {
    let mut runtime = build(|_| {});

    runtime.push(1);
    runtime.execute("DUP");
    assert_eq!(runtime.pop(), 1);
    assert_eq!(runtime.pop(), 1);
}

#[test]
fn compiler_should_swap() {
    let mut runtime = build(|_| {});

    runtime.push(1);
    runtime.push(2);
    runtime.execute("SWAP");
    assert_eq!(runtime.pop(), 1);
    assert_eq!(runtime.pop(), 2);
}

#[test]
fn compiler_should_rot() {
    let mut runtime = build(|_| {});

    runtime.push(1);
    runtime.push(2);
    runtime.push(3);
    runtime.execute("ROT");
    assert_eq!(runtime.pop(), 1);
    assert_eq!(runtime.pop(), 3);
    assert_eq!(runtime.pop(), 2);
}

#[test]
fn compiler_should_backwards_rot() {
    let mut runtime = build(|_| {});

    runtime.push(1);
    runtime.push(2);
    runtime.push(3);
    runtime.execute("-ROT");
    assert_eq!(runtime.pop(), 2);
    assert_eq!(runtime.pop(), 1);
    assert_eq!(runtime.pop(), 3);
}

#[test]
fn compiler_should_nip() {
    let mut runtime = build(|_| {});

    runtime.push(1);
    runtime.push(2);
    runtime.push(3);
    runtime.execute("NIP");
    assert_eq!(runtime.pop(), 3);
    assert_eq!(runtime.pop(), 1);
}

#[test]
fn compiler_should_tuck() {
    let mut runtime = build(|_| {});

    runtime.push(1);
    runtime.push(2);
    runtime.execute("TUCK");
    assert_eq!(runtime.pop(), 2);
    assert_eq!(runtime.pop(), 1);
    assert_eq!(runtime.pop(), 2);
}

#[test]
fn compiler_should_support_literals() {
    let mut runtime = build(|compiler| {
        compiler.define_colon_word("THREE", vec![Lit(3)]);
    });

    runtime.execute("THREE");
    assert_eq!(runtime.pop(), 3);
}

#[test]
fn compiler_should_support_stack_manip() {
    let mut runtime = build(|compiler| {
        compiler.define_colon_word(
            "TEST",
            vec![Lit(3), XT("DUP"), XT("DUP"), XT("+"), XT("SWAP"), XT("/")],
        );
    });
    runtime.execute("TEST");
    assert_eq!(runtime.pop(), 2);
}

#[test]
fn compiler_should_support_nested_colon_calls() {
    let mut runtime = build(|compiler| {
        compiler.define_colon_word("SQUARE", vec![XT("DUP"), XT("*")]);
        compiler.define_colon_word("TEST", vec![Lit(3), XT("SQUARE")]);
    });
    runtime.execute("TEST");
    assert_eq!(runtime.pop(), 9);
}

#[test]
fn compiler_should_support_branching() {
    let mut runtime = build(|compiler| {
                compiler.define_colon_word("UPCHAR", vec![
            XT("DUP"), XT("DUP"),
            Lit(97), XT(">="), XT("SWAP"), Lit(122), XT("<="), XT("AND"),
            QBranch(12), // Lit(32) is 8 bytes, XT("-") is 4
            Lit(32), XT("-"),
        ]);
    });

    runtime.push('a' as i32);
    runtime.execute("UPCHAR");
    assert_eq!(runtime.pop(), 'A' as i32);

    runtime.push('B' as i32);
    runtime.execute("UPCHAR");
    assert_eq!(runtime.pop(), 'B' as i32);
}

#[test]
fn compiler_should_support_imports() {
    let mut runtime = build_with_imports(
        |compiler| {
            compiler.define_imported_word("TEST", "SEVENTEEN", 0, 2);
            compiler.define_imported_word("TEST", "SWALLOW", 2, 0);
            compiler.define_imported_word("TEST", "TRIM", 2, 2);
        },
        |linker| {
            linker.func_wrap("TEST", "SEVENTEEN", || (10i32, 7i32)).unwrap();
            linker.func_wrap("TEST", "SWALLOW", |_: i32, _: i32| {}).unwrap();
            linker.func_wrap("TEST", "TRIM", |a: i32, b: i32| (a + 4, b - 8)).unwrap();
        },
    );

    runtime.execute("SEVENTEEN");
    runtime.execute("+");
    assert_eq!(runtime.pop(), 17);

    runtime.push(1);
    runtime.push(2);
    runtime.push(3);
    runtime.execute("SWALLOW");
    assert_eq!(runtime.pop(), 1);

    runtime.push(0);
    runtime.push(16);
    runtime.execute("TRIM");
    assert_eq!(runtime.pop(), 8);
    assert_eq!(runtime.pop(), 4);
}

#[test]
fn compiler_finishing_sets_cp_and_latest() {
    // LATEST holds the address of RUN-WORD, the last entry; CP the end of it:
    // length byte, name, link and code cells, and three cells of code.
    let mut runtime = build(|_| {});
    runtime.execute("LATEST");
    runtime.execute("@");
    let latest = runtime.pop();
    assert_eq!(runtime.memory_byte(latest as usize), 8);
    runtime.execute("CP");
    runtime.execute("@");
    assert_eq!(runtime.pop(), latest + 29);
}

#[test]
fn compiler_entry_layout() {
    let mut runtime = build(|compiler| {
        compiler.define_variable_word("XY", 0x0a0b0c0d);
    });
    runtime.execute("XY");
    let cell = runtime.pop() as usize;
    let entry = cell - 4 - 4 - 2 - 1;
    assert_eq!(runtime.memory_byte(entry), 2);
    assert_eq!(runtime.memory_byte(entry + 1), b'X');
    assert_eq!(runtime.memory_byte(entry + 2), b'Y');
    assert_eq!(runtime.memory_byte(cell), 0x0d);
}

#[test]
fn compiler_redefinition_shadows() {
    let mut runtime = build(|compiler| {
        compiler.define_constant_word("ANSWER", 41);
        compiler.define_constant_word("ANSWER", 42);
    });
    runtime.execute("ANSWER");
    assert_eq!(runtime.pop(), 42);
}

#[test]
fn compiler_interpreter_words() {
    let mut compiler = Compiler::default();
    assert!(compiler.is_defined("LATEST"));
    forsm::bootstrapped_interpreter::build(&mut compiler);
    assert!(compiler.is_defined("INTERPRET"));
    assert!(compiler.is_defined("?NUMBER"));
    let binary = compiler.compile().unwrap();
    let engine = Engine::default();
    let module = Module::new(&engine, &binary[..]).unwrap();
    let mut store = Store::new(&engine, ());
    let mut linker = Linker::<()>::new(&engine);
    linker.func_wrap("IO", "READ-BLOCK", |_: i32, _: i32| {}).unwrap();
    linker.func_wrap("IO", "EMIT", |_: i32| {}).unwrap();
    linker.func_wrap("IO", "TYPE", |_: i32, _: i32| {}).unwrap();
    let instance = linker.instantiate_and_start(&mut store, &module).unwrap();
    let mut runtime = Runtime { store, instance };
    runtime.push('z' as i32);
    runtime.execute("UPCHAR");
    assert_eq!(runtime.pop(), 'Z' as i32);
    runtime.push('7' as i32);
    runtime.execute("?DIGIT");
    assert_eq!(runtime.pop(), -1);
    assert_eq!(runtime.pop(), 7);
}

#[test]
fn compiler_absolute_values() {
    let mut runtime = build(|_| {});
    runtime.push(-123);
    runtime.execute("ABS");
    assert_eq!(runtime.pop(), 123);
    runtime.push(123);
    runtime.execute("ABS");
    assert_eq!(runtime.pop(), 123);
    runtime.push_double(-5_000_000_000);
    runtime.execute("DABS");
    assert_eq!(runtime.pop_double(), 5_000_000_000);
}

#[test]
fn compiler_mod_of_exact_multiples() {
    let mut runtime = build(|_| {});
    for (n, d, m) in [(-8, 4, 0), (8, -4, 0), (-7, 4, 1), (7, -4, -1)] {
        runtime.push(n);
        runtime.push(d);
        runtime.execute("MOD");
        assert_eq!(runtime.pop(), m);
    }
}
