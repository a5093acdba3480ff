use forsm::bootstrapper::compiler::ColonValue::{Branch, Lit, QBranch, StringLit, XT};
use forsm::bootstrapper::compiler::{Compiler, ParamType};
use wasmi::{Engine, Instance, Linker, Module, Store};

struct Runtime {
    store: Store<()>,
    instance: Instance,
}

impl Runtime {
    fn push(&mut self, value: i32) {
        let f = self.instance.get_typed_func::<i32, ()>(&self.store, "push").unwrap();
        f.call(&mut self.store, value).unwrap();
    }

    fn push_double(&mut self, value: i64) {
        let f = self.instance.get_typed_func::<i64, ()>(&self.store, "push_d").unwrap();
        f.call(&mut self.store, value).unwrap();
    }

    fn pop(&mut self) -> i32 {
        let f = self.instance.get_typed_func::<(), i32>(&self.store, "pop").unwrap();
        f.call(&mut self.store, ()).unwrap()
    }

    fn pop_double(&mut self) -> i64 {
        let f = self.instance.get_typed_func::<(), i64>(&self.store, "pop_d").unwrap();
        f.call(&mut self.store, ()).unwrap()
    }

    fn pop_string(&mut self) -> String {
        let len = self.pop() as usize;
        let start = self.pop() as usize;
        let memory = self.instance.get_memory(&self.store, "memory").unwrap();
        let bytes = memory.data(&self.store)[start..start + len].to_vec();
        String::from_utf8(bytes).unwrap()
    }

    fn memory_byte(&self, address: usize) -> u8 {
        self.instance.get_memory(&self.store, "memory").unwrap().data(&self.store)[address]
    }

    fn execute(&mut self, word: &str) {
        let f = self.instance.get_typed_func::<(), ()>(&self.store, word).unwrap();
        f.call(&mut self.store, ()).unwrap();
    }
}

fn build_with_imports<T, F>(func: T, imports: F) -> Runtime
where
    T: FnOnce(&mut Compiler),
    F: FnOnce(&mut Linker<()>),
{
    let mut compiler = Compiler::default();
    compiler.export_all_words();
    func(&mut compiler);
    let binary = compiler.compile().unwrap();
    let engine = Engine::default();
    let module = Module::new(&engine, &binary[..]).unwrap();
    let mut store = Store::new(&engine, ());
    let mut linker = Linker::<()>::new(&engine);
    imports(&mut linker);
    let instance = linker.instantiate_and_start(&mut store, &module).unwrap();
    Runtime { store, instance }
}

fn build<T>(func: T) -> Runtime
where
    T: FnOnce(&mut Compiler),
{
    build_with_imports(func, |_| {})
}

#[test]
fn should_manipulate_stack() {
    let mut runtime = build(|_| {});

    runtime.push(1);
    runtime.push(2);
    runtime.push(3);

    assert_eq!(runtime.pop(), 3);
    assert_eq!(runtime.pop(), 2);
    assert_eq!(runtime.pop(), 1);
}

#[test]
fn should_do_math() {
    let mut runtime = build(|_| {});

    runtime.push(3);
    runtime.push(4);
    runtime.execute("+");

    assert_eq!(runtime.pop(), 7);
}

#[test]
fn should_do_division() {
    let mut runtime = build(|_| {});

    runtime.push(6);
    runtime.push(3);
    runtime.execute("/");

    assert_eq!(runtime.pop(), 2);
}

#[test]
fn should_do_comparisons() {
    let mut runtime = build(|_| {});

    runtime.push(2);
    runtime.push(1);
    runtime.execute(">");
    assert_eq!(runtime.pop(), -1);

    runtime.push(1);
    runtime.execute("<0");
    assert_eq!(runtime.pop(), 0);
}

#[test]
fn should_handle_signed_div_mod() {
    let mut runtime = build(|_| {});
    type TestCase = ((i32, i32), (i32, i32));

    let test_cases: Vec<TestCase> = vec![
        ((1, 10), (0, 1)),
        ((7, 4), (1, 3)),
        ((-7, 4), (-2, 1)),
        ((7, -4), (-2, -1)),
        ((-7, -4), (1, -3)),
        ((-2, 1), (-2, 0)),
        ((-2, 2), (-1, 0)),
        ((-2, 3), (-1, 1)),
        ((-2, 4), (-1, 2)),
        ((8, -8), (-1, 0)),
    ];

    let results: Vec<TestCase> = test_cases
        .iter()
        .map(|case| {
            let ((divisor, dividend), _) = *case;

            runtime.push(divisor);
            runtime.push(dividend);
            runtime.execute("/MOD");
            let quotient = runtime.pop();
            let modulo = runtime.pop();

            ((divisor, dividend), (quotient, modulo))
        })
        .collect();
    assert_eq!(results, test_cases);
}

#[test]
fn should_handle_signed_div_rem() {
    let mut runtime = build(|_| {});
    type TestCase = ((i64, i32), (i32, i32));

    let test_cases: Vec<TestCase> = vec![
        ((7, 4), (1, 3)),
        ((-7, 4), (-1, -3)),
        ((7, -4), (-1, 3)),
        ((-7, -4), (1, -3)),
    ];

    let results: Vec<TestCase> = test_cases
        .iter()
        .map(|case| {
            let ((divisor, dividend), _) = *case;

            runtime.push_double(divisor);
            runtime.push(dividend);
            runtime.execute("SM/REM");
            let quotient = runtime.pop();
            let remainder = runtime.pop();

            ((divisor, dividend), (quotient, remainder))
        })
        .collect();
    assert_eq!(results, test_cases);
}

#[test]
fn should_handle_double_division() {
    let mut runtime = build(|_| {});
    runtime.push_double(123);
    assert_eq!(0, runtime.pop());
    assert_eq!(123, runtime.pop());

    runtime.push(123);
    runtime.push(0);
    runtime.push(10);
    runtime.execute("UD/MOD");

    assert_eq!(runtime.pop_double(), 12);
    assert_eq!(runtime.pop(), 3);
}

#[test]
fn should_compute_absolute_value() {
    let mut runtime = build(|_| {});

    runtime.push(123);
    runtime.execute("ABS");
    assert_eq!(runtime.pop(), 123);

    runtime.push(-123);
    runtime.execute("ABS");
    assert_eq!(runtime.pop(), 123);
}

#[test]
fn should_support_min_and_max() {
    let mut runtime = build(|_| {});

    runtime.push(1);
    runtime.push(2);
    runtime.execute("MIN");
    assert_eq!(runtime.pop(), 1);

    runtime.push(1);
    runtime.push(2);
    runtime.execute("MAX");
    assert_eq!(runtime.pop(), 2);
}

#[test]
fn should_support_bit_manipulations() {
    let mut runtime = build(|compiler| {
        compiler.define_variable_word("TESTBITS", 0x30);
    });

    runtime.push(0x0f);
    runtime.execute("TESTBITS");
    runtime.execute("CSET");
    runtime.execute("TESTBITS");
    runtime.execute("@");
    assert_eq!(runtime.pop(), 0x3f);

    runtime.push(0x03);
    runtime.execute("TESTBITS");
    runtime.execute("CRESET");
    runtime.execute("TESTBITS");
    runtime.execute("@");
    assert_eq!(runtime.pop(), 0x3c);

    runtime.push(0xcc);
    runtime.execute("TESTBITS");
    runtime.execute("CTOGGLE");
    runtime.execute("TESTBITS");
    runtime.execute("@");
    assert_eq!(runtime.pop(), 0xf0);
}

#[test]
fn should_support_double_math() {
    let mut runtime = build(|_| {});
    runtime.push_double(420);
    runtime.push_double(69);
    runtime.execute("D+");
    assert_eq!(runtime.pop_double(), 489);
}

#[test]
fn should_support_colon_words() {
    let mut runtime = build(|compiler| {
        compiler.define_colon_word("TEST", vec![Lit(2), Lit(3), XT("+")]);
    });
    runtime.execute("TEST");
    assert_eq!(runtime.pop(), 5);
}

#[test]
fn should_support_variables() {
    let mut runtime = build(|compiler| {
        compiler.define_variable_word("TESTVAR", 0);
        compiler.define_colon_word("TEST", vec![Lit(1), XT("TESTVAR"), XT("!"), XT("TESTVAR"), XT("@")]);
    });
    runtime.execute("TEST");
    assert_eq!(runtime.pop(), 1);
}

#[test]
fn should_increment_variables() {
    let mut runtime = build(|compiler| {
        compiler.define_variable_word("TESTVAR", 6);
        compiler.define_colon_word("TEST", vec![Lit(7), XT("TESTVAR"), XT("+!"), XT("TESTVAR"), XT("@")]);
    });
    runtime.execute("TEST");
    assert_eq!(runtime.pop(), 13);
}

#[test]
fn should_dup() {
    let mut runtime = build(|_| {});

    runtime.push(1);
    runtime.execute("DUP");
    assert_eq!(runtime.pop(), 1);
    assert_eq!(runtime.pop(), 1);
}

#[test]
fn should_conditionally_dup() {
    let mut runtime = build(|_| {});

    runtime.push(1337); // sentinel value at bottom
    runtime.push(1);
    runtime.execute("?DUP");
    assert_eq!(runtime.pop(), 1);
    assert_eq!(runtime.pop(), 1);
    assert_eq!(runtime.pop(), 1337);

    runtime.push(1337); // sentinel value at bottom
    runtime.push(0);
    runtime.execute("?DUP");
    assert_eq!(runtime.pop(), 0);
    assert_eq!(runtime.pop(), 1337);
}

#[test]
fn should_over() {
    let mut runtime = build(|_| {});

    runtime.push(1);
    runtime.push(2);
    runtime.execute("OVER");
    assert_eq!(runtime.pop(), 1);
    assert_eq!(runtime.pop(), 2);
    assert_eq!(runtime.pop(), 1);
}

#[test]
fn should_swap() {
    let mut runtime = build(|_| {});

    runtime.push(1);
    runtime.push(2);
    runtime.execute("SWAP");
    assert_eq!(runtime.pop(), 1);
    assert_eq!(runtime.pop(), 2);
}

#[test]
fn should_rot() {
    let mut runtime = build(|_| {});

    runtime.push(1);
    runtime.push(2);
    runtime.push(3);
    runtime.execute("ROT");
    assert_eq!(runtime.pop(), 1);
    assert_eq!(runtime.pop(), 3);
    assert_eq!(runtime.pop(), 2);
}

#[test]
fn should_backwards_rot() {
    let mut runtime = build(|_| {});

    runtime.push(1);
    runtime.push(2);
    runtime.push(3);
    runtime.execute("-ROT");
    assert_eq!(runtime.pop(), 2);
    assert_eq!(runtime.pop(), 1);
    assert_eq!(runtime.pop(), 3);
}

#[test]
fn should_nip() {
    let mut runtime = build(|_| {});

    runtime.push(1);
    runtime.push(2);
    runtime.push(3);
    runtime.execute("NIP");
    assert_eq!(runtime.pop(), 3);
    assert_eq!(runtime.pop(), 1);
}

#[test]
fn should_tuck() {
    let mut runtime = build(|_| {});

    runtime.push(1);
    runtime.push(2);
    runtime.execute("TUCK");
    assert_eq!(runtime.pop(), 2);
    assert_eq!(runtime.pop(), 1);
    assert_eq!(runtime.pop(), 2);
}

#[test]
fn should_pick() {
    let mut runtime = build(|_| {});

    runtime.push(10);
    runtime.push(20);
    runtime.push(30);

    runtime.push(0);
    runtime.execute("PICK");
    assert_eq!(runtime.pop(), 30);

    runtime.push(1);
    runtime.execute("PICK");
    assert_eq!(runtime.pop(), 20);

    runtime.push(2);
    runtime.execute("PICK");
    assert_eq!(runtime.pop(), 10);
}

#[test]
fn should_report_depth() {
    let mut runtime = build(|_| {});

    runtime.execute("DEPTH");
    assert_eq!(runtime.pop(), 0);

    runtime.push(1);
    runtime.execute("DEPTH");
    assert_eq!(runtime.pop(), 1);

    runtime.push(2);
    runtime.execute("DEPTH");
    assert_eq!(runtime.pop(), 2);
}

#[test]
fn should_support_literals() {
    let mut runtime = build(|compiler| {
        compiler.define_colon_word("THREE", vec![Lit(3)]);
    });

    runtime.execute("THREE");
    assert_eq!(runtime.pop(), 3);
}

#[test]
fn should_support_string_literals() {
    let mut runtime = build(|compiler| {
        compiler.define_colon_word("SOME-WORD", vec![StringLit("Hello world!".to_owned())]);
    });

    runtime.execute("SOME-WORD");
    assert_eq!(runtime.pop_string(), "Hello world!");
}

#[test]
fn should_support_stack_manip() {
    let mut runtime = build(|compiler| {
        compiler.define_colon_word("TEST", vec![Lit(3), XT("DUP"), XT("DUP"), XT("+"), XT("SWAP"), XT("/")]);
    });
    runtime.execute("TEST");
    assert_eq!(runtime.pop(), 2);
}

#[test]
fn should_support_nested_colon_calls() {
    let mut runtime = build(|compiler| {
        compiler.define_colon_word("SQUARE", vec![XT("DUP"), XT("*")]);
        compiler.define_colon_word("TEST", vec![Lit(3), XT("SQUARE")]);
    });
    runtime.execute("TEST");
    assert_eq!(runtime.pop(), 9);
}

#[test]
fn should_support_branching() {
    let mut runtime = build(|compiler| {
        compiler.define_colon_word(
            "UPCHAR",
            vec![
                XT("DUP"), XT("DUP"),
                Lit(97), XT(">="), XT("SWAP"), Lit(122), XT("<="), XT("AND"),
                QBranch(12), // Lit(32) is 8 bytes, XT("-") is 4
                Lit(32), XT("-"),
            ],
        );
    });

    runtime.push('a' as i32);
    runtime.execute("UPCHAR");
    assert_eq!(runtime.pop(), 'A' as i32);

    runtime.push('B' as i32);
    runtime.execute("UPCHAR");
    assert_eq!(runtime.pop(), 'B' as i32);
}

#[test]
fn should_support_imports() {
    let mut runtime = build_with_imports(
        |compiler| {
            compiler.define_imported_word("SEVENTEEN", "test", "seventeen", vec![], vec![ParamType::I32, ParamType::I32]);
            compiler.define_imported_word("SWALLOW", "test", "swallow", vec![ParamType::I32, ParamType::I32], vec![]);
            compiler.define_imported_word(
                "TRIM",
                "test",
                "trim",
                vec![ParamType::I32, ParamType::I32],
                vec![ParamType::I32, ParamType::I32],
            );
            compiler.define_imported_word("HAS64", "test", "has64", vec![ParamType::I64], vec![ParamType::I64]);
        },
        |linker| {
            linker.func_wrap("test", "seventeen", || (10i32, 7i32)).unwrap();
            linker.func_wrap("test", "swallow", |_: i32, _: i32| {}).unwrap();
            linker.func_wrap("test", "trim", |a: i32, b: i32| (a + 4, b - 8)).unwrap();
            linker
                .func_wrap("test", "has64", |a: i64| {
                    assert_eq!(a, 13);
                    64 as i64
                })
                .unwrap();
        },
    );

    runtime.execute("SEVENTEEN");
    runtime.execute("+");
    assert_eq!(runtime.pop(), 17);

    runtime.push(1);
    runtime.push(2);
    runtime.push(3);
    runtime.execute("SWALLOW");
    assert_eq!(runtime.pop(), 1);

    runtime.push(0);
    runtime.push(16);
    runtime.execute("TRIM");
    assert_eq!(runtime.pop(), 8);
    assert_eq!(runtime.pop(), 4);

    runtime.push_double(13);
    runtime.execute("HAS64");
    assert_eq!(runtime.pop_double(), 64);
}


#[test]
fn dictionary_stays_aligned() {
    // entries with names of every length modulo 4 keep parameters 4-aligned
    let mut runtime = build(|compiler| {
        compiler.define_variable_word("A", 1);
        compiler.define_variable_word("AB", 2);
        compiler.define_variable_word("ABC", 3);
        compiler.define_variable_word("ABCD", 4);
        compiler.define_colon_word("S", vec![StringLit("odd".to_owned())]);
        compiler.define_variable_word("LAST", 5);
    });
    for name in ["A", "AB", "ABC", "ABCD", "LAST"] {
        runtime.execute(name);
        let cell = runtime.pop();
        assert_eq!(cell % 4, 0);
    }
    runtime.execute("LAST");
    runtime.execute("@");
    assert_eq!(runtime.pop(), 5);
}

#[test]
fn entry_layout_matches_name_words() {
    // length byte, name, zero padding to a multiple of 4, link, code cell
    let mut runtime = build(|compiler| {
        compiler.define_variable_word("ABCDE", 0x01020304);
    });
    runtime.execute("ABCDE");
    let cell = runtime.pop() as usize;
    let entry = cell - 4 - 4 - 8;
    assert_eq!(runtime.memory_byte(entry), 5);
    let name: Vec<u8> = (1..6).map(|i| runtime.memory_byte(entry + i)).collect();
    assert_eq!(name, b"ABCDE".to_vec());
    assert_eq!(runtime.memory_byte(entry + 6), 0);
    assert_eq!(runtime.memory_byte(entry + 7), 0);
    assert_eq!(runtime.memory_byte(cell), 4);
    assert_eq!(runtime.memory_byte(cell + 3), 1);
}

#[test]
fn finishing_sets_cp_and_latest() {
    // LATEST holds the address of RUN-WORD, the last entry; CP the end of it:
    // a 12-byte name field, link and code cells, and three cells of code.
    let mut runtime = build(|_| {});
    runtime.execute("LATEST");
    runtime.execute("@");
    let latest = runtime.pop();
    assert_eq!(latest % 4, 0);
    assert_eq!(runtime.memory_byte(latest as usize), 8);
    let name: Vec<u8> = (1..9).map(|i| runtime.memory_byte(latest as usize + i)).collect();
    assert_eq!(name, b"RUN-WORD".to_vec());
    runtime.execute("CP");
    runtime.execute("@");
    assert_eq!(runtime.pop(), latest + 32);
}

#[test]
fn redefinition_shadows_earlier_definition() {
    let mut runtime = build(|compiler| {
        compiler.define_constant_word("ANSWER", 41);
        compiler.define_colon_word("OLD", vec![XT("ANSWER")]);
        compiler.define_constant_word("ANSWER", 42);
        compiler.define_colon_word("NEW", vec![XT("ANSWER")]);
    });
    runtime.execute("ANSWER");
    assert_eq!(runtime.pop(), 42);
    runtime.execute("OLD");
    assert_eq!(runtime.pop(), 41);
    runtime.execute("NEW");
    assert_eq!(runtime.pop(), 42);
}

#[test]
fn branches_jump_relative_to_item_end() {
    // BRANCH over a literal: the offset counts from the end of the branch item
    let mut runtime = build(|compiler| {
        compiler.define_colon_word("SKIP", vec![Lit(1), Branch(8), Lit(2), Lit(3)]);
    });
    runtime.execute("SKIP");
    assert_eq!(runtime.pop(), 3);
    assert_eq!(runtime.pop(), 1);
}

#[test]
fn constants_and_memory_words() {
    let mut runtime = build(|_| {});
    runtime.execute("DICT-BASE");
    assert_eq!(runtime.pop(), 0x1000);
    runtime.execute("HEAP-BASE");
    assert_eq!(runtime.pop(), 0xf100);
    runtime.execute("MEMORY.SIZE");
    assert_eq!(runtime.pop(), 1);
    runtime.push(0x41);
    runtime.push(0x900);
    runtime.execute("C!");
    runtime.push(0x900);
    runtime.execute("C@");
    assert_eq!(runtime.pop(), 0x41);
}

#[test]
fn back_links_visit_every_entry_once() {
    // from LATEST, each entry's link cell leads to an older entry, down to 0
    let mut runtime = build(|compiler| {
        compiler.define_constant_word("FIRST", 1);
        compiler.define_constant_word("SECOND", 2);
    });
    runtime.execute("LATEST");
    runtime.execute("@");
    let mut address = runtime.pop();
    runtime.execute("CP");
    runtime.execute("@");
    let cp = runtime.pop();
    let mut names = Vec::new();
    let mut previous = cp;
    while address != 0 {
        assert!(address >= 0x1000 && address < previous);
        let len = runtime.memory_byte(address as usize) as usize;
        let name: Vec<u8> = (1..=len).map(|i| runtime.memory_byte(address as usize + i)).collect();
        names.push(String::from_utf8(name).unwrap());
        let link_at = (address as usize + 1 + len + 3) / 4 * 4;
        let link = i32::from_le_bytes([
            runtime.memory_byte(link_at),
            runtime.memory_byte(link_at + 1),
            runtime.memory_byte(link_at + 2),
            runtime.memory_byte(link_at + 3),
        ]);
        previous = address;
        address = link;
    }
    assert_eq!(names[0], "RUN-WORD");
    assert_eq!(names[1], "SECOND");
    assert_eq!(names[2], "FIRST");
    assert_eq!(names.last().unwrap(), "DUP");
}

#[test]
fn floored_double_division() {
    // ( d n -- rem quot ): the quotient rounds toward negative infinity
    let mut runtime = build(|_| {});
    for ((d, n), (quot, rem)) in [((-7i64, 4), (-2, 1)), ((7, -4), (-2, -1)), ((7, 4), (1, 3)), ((-7, -4), (1, -3)), ((-8, 4), (-2, 0))] {
        runtime.push_double(d);
        runtime.push(n);
        runtime.execute("FM/MOD");
        assert_eq!(runtime.pop(), quot);
        assert_eq!(runtime.pop(), rem);
    }
}

#[test]
fn symmetric_and_unsigned_double_division() {
    let mut runtime = build(|_| {});
    runtime.push_double(-7);
    runtime.push(4);
    runtime.execute("SM/REM");
    assert_eq!(runtime.pop(), -1);
    assert_eq!(runtime.pop(), -3);
    runtime.push_double(123);
    runtime.push(10);
    runtime.execute("UD/MOD");
    assert_eq!(runtime.pop_double(), 12);
    assert_eq!(runtime.pop(), 3);
}

#[test]
fn conditional_dup_and_stack_words() {
    let mut runtime = build(|_| {});
    runtime.push(1337);
    runtime.push(0);
    runtime.execute("?DUP");
    assert_eq!(runtime.pop(), 0);
    assert_eq!(runtime.pop(), 1337);
    runtime.push(1);
    runtime.push(2);
    runtime.push(3);
    runtime.execute("-ROT");
    assert_eq!(runtime.pop(), 2);
    assert_eq!(runtime.pop(), 1);
    assert_eq!(runtime.pop(), 3);
    runtime.push(5);
    runtime.push(9);
    runtime.execute("NIP");
    assert_eq!(runtime.pop(), 9);
}
