//! The words of a Forth interpreter built with the second compiler: block
//! input and character output through host imports, a parser for the source
//! buffer, and an outer interpreter that looks words up, runs or compiles
//! them, and parses numbers.
use vstd::prelude::*;
use crate::compiler::{
    core_words_defined, grows, lemma_core_words_kept, stack_words_defined, memory_words_defined,
    execution_words_defined, arithmetic_words_defined, bit_logic_words_defined,
    comparison_words_defined, Compiler, CompilerSpec,
};
use crate::compiler::ColonValue::{Branch, Lit, QBranch, XT};

verus! {

/// The module the host's input and output functions come from.
pub const IO_MODULE: &'static str = "IO";

/// The input and output words are defined.
#[verifier::opaque]
pub open spec fn io_words_defined(c: CompilerSpec) -> bool {
    &&& c.defines(">IN")
    &&& c.defines("BLK")
    &&& c.defines("LOAD-BLOCK-BUFFER")
    &&& c.defines("#BLOCK-BUFFER")
    &&& c.defines("READ-BLOCK")
    &&& c.defines("EMIT")
    &&& c.defines("TYPE")
    &&& c.defines("(LOAD)")
}

/// The words of the parser are defined.
#[verifier::opaque]
pub open spec fn parser_words_defined(c: CompilerSpec) -> bool {
    &&& c.defines("SOURCE-BUFFER")
    &&& c.defines("#SOURCE")
    &&& c.defines("SOURCE")
    &&& c.defines("PARSING?")
    &&& c.defines("'IN")
    &&& c.defines("IN@")
    &&& c.defines("1+IN!")
    &&& c.defines("PARSE")
    &&& c.defines("PARSE-NAME")
    &&& c.defines("UPCHAR")
    &&& c.defines("BASE")
    &&& c.defines("?DIGIT")
    &&& c.defines("?NUMBER")
}

/// The error words and the words working on dictionary entries are defined.
#[verifier::opaque]
pub open spec fn name_words_defined(c: CompilerSpec) -> bool {
    &&& c.defines("ERROR")
    &&& c.defines("THROW")
    &&& c.defines("ERROR@")
    &&& c.defines("STR-UPPER-EQ?")
    &&& c.defines("NAME>U")
    &&& c.defines("NAME>STRING")
    &&& c.defines("NAME>BACKWORD")
    &&& c.defines("NAME>IMMEDIATE?")
    &&& c.defines("NAME>XT")
    &&& c.defines("FIND-NAME")
}

/// The words of the outer interpreter are defined.
#[verifier::opaque]
pub open spec fn outer_words_defined(c: CompilerSpec) -> bool {
    &&& c.defines("STATE")
    &&& c.defines("COMPILING?")
    &&& c.defines(",")
    &&& c.defines("C,")
    &&& c.defines("COMPILE-LITERAL")
    &&& c.defines("INTERPRET-NAME")
    &&& c.defines("COMPILE-NAME")
    &&& c.defines("INTERPRET")
}

/// Every word of the interpreter is defined.
#[verifier::opaque]
pub open spec fn interpreter_words_defined(c: CompilerSpec) -> bool {
    &&& core_words_defined(c)
    &&& io_words_defined(c)
    &&& parser_words_defined(c)
    &&& name_words_defined(c)
    &&& outer_words_defined(c)
}

/// What `a` defines of the interpreter's words, `b` still defines when it
/// grows from `a`.
pub proof fn lemma_interpreter_words_kept(a: CompilerSpec, b: CompilerSpec)
    requires
        grows(a, b),
    ensures
        io_words_defined(a) ==> io_words_defined(b),
        parser_words_defined(a) ==> parser_words_defined(b),
        name_words_defined(a) ==> name_words_defined(b),
        outer_words_defined(a) ==> outer_words_defined(b),
        interpreter_words_defined(a) ==> interpreter_words_defined(b),
{
    reveal(io_words_defined);
    reveal(parser_words_defined);
    reveal(name_words_defined);
    reveal(outer_words_defined);
    lemma_core_words_kept(a, b);
    reveal(interpreter_words_defined);
}

/// Every core word is defined, each group revealed.
proof fn lemma_core_words(c: CompilerSpec)
    requires
        core_words_defined(c),
    ensures
        stack_words_defined(c),
        memory_words_defined(c),
        execution_words_defined(c),
        arithmetic_words_defined(c),
        bit_logic_words_defined(c),
        comparison_words_defined(c),
        c.defines("CP"),
        c.defines("LATEST"),
{
    reveal(core_words_defined);
}

/// The compiler after defining the input and output words, imported from the
/// host's `IO` module.
#[verifier::opaque]
pub open spec fn with_io_words(c: CompilerSpec) -> CompilerSpec {
    let c = c.with_variable(">IN"@, 0i32);
    let c = c.with_variable("BLK"@, 0i32);
    let c = c.with_constant("LOAD-BLOCK-BUFFER"@, 0x100i32);
    let c = c.with_constant("#BLOCK-BUFFER"@, 0x400i32);
    let c = c.with_imported_word(IO_MODULE@, "READ-BLOCK"@, 2, 0);
    let c = c.with_imported_word(IO_MODULE@, "EMIT"@, 1, 0);
    let c = c.with_imported_word(IO_MODULE@, "TYPE"@, 2, 0);
    let c = c.with_colon_word("(LOAD)", [
        Lit(0), XT(">IN"), XT("!"), XT("DUP"), XT("BLK"), XT("!"), XT("LOAD-BLOCK-BUFFER"),
        XT("READ-BLOCK"),
    ]@);
    c
}

/// Defines the input pointer, the block buffer, the host's block input and
/// character output, and `(LOAD)`, which loads a block into the buffer.
fn build_io(compiler: &mut Compiler)
    requires
        old(compiler).wf(),
        core_words_defined(old(compiler)@),
    ensures
        final(compiler)@ == with_io_words(old(compiler)@),
        final(compiler).wf(),
        grows(old(compiler)@, final(compiler)@),
        io_words_defined(final(compiler)@),
{
    reveal(with_io_words);
    proof {
        lemma_core_words(compiler@);
        reveal(stack_words_defined);
        reveal(memory_words_defined);
        reveal(execution_words_defined);
    }
    compiler.define_variable_word(">IN", 0);

    compiler.define_variable_word("BLK", 0);

    compiler.define_constant_word("LOAD-BLOCK-BUFFER", 0x100);
    compiler.define_constant_word("#BLOCK-BUFFER", 0x400);

    // read the contents of block n into the given address ( n c-addr -- )
    compiler.define_imported_word(IO_MODULE, "READ-BLOCK", 2, 0);
    // output a single character to stdout ( c -- )
    compiler.define_imported_word(IO_MODULE, "EMIT", 1, 0);
    // output a string to stdout ( c-addr u -- )
    compiler.define_imported_word(IO_MODULE, "TYPE", 2, 0);

    // load code into a block
    // ( n -- )
    compiler.define_colon_word(
        "(LOAD)",
        vec![
            // reset the input pointer
            Lit(0), XT(">IN"), XT("!"),
            // update the BLK pointer
            XT("DUP"), XT("BLK"), XT("!"),
            // load the block
            XT("LOAD-BLOCK-BUFFER"), XT("READ-BLOCK"),
        ],
    );
    proof {
        reveal(io_words_defined);
    }
}

/// The compiler after defining the parser: the terminal input buffer,
/// refilling it, parsing words, digits and numbers.
#[verifier::opaque]
pub open spec fn with_parser_words(c: CompilerSpec) -> CompilerSpec {
    let c = c.with_variable("SOURCE-BUFFER"@, 0x100i32);
    let c = c.with_variable("#SOURCE"@, 0x400i32);
    let c = c.with_colon_word("SOURCE", [XT("SOURCE-BUFFER"), XT("@"), XT("#SOURCE"), XT("@")]@);
    let c = c.with_colon_word("PARSING?", [XT(">IN"), XT("@"), XT("SOURCE"), XT("NIP"), XT("<>")]@);
    let c = c.with_colon_word("'IN", [XT(">IN"), XT("@"), XT("SOURCE"), XT("DROP"), XT("+")]@);
    let c = c.with_colon_word("IN@", [XT("'IN"), XT("C@")]@);
    let c = c.with_colon_word("1+IN!", [Lit(1), XT(">IN"), XT("+!")]@);
    let c = c.with_colon_word("PARSE", [
        XT("'IN"), XT("SWAP"), XT("PARSING?"), XT("OVER"), XT("IN@"), XT("<>"), XT("AND"),
        QBranch(12), XT("1+IN!"), Branch(-40i32), XT("DROP"), XT("DUP"), XT("'IN"), XT("SWAP"),
        XT("-"),
    ]@);
    let c = c.with_colon_word("PARSE-NAME", [
        XT("PARSING?"), Lit(32), XT("IN@"), XT("="), XT("AND"), QBranch(12), XT("1+IN!"),
        Branch(-44i32), Lit(32), XT("PARSE"),
    ]@);
    let c = c.with_colon_word("UPCHAR", [
        XT("DUP"), Lit(97 /* a */), XT(">="), XT("OVER"), Lit(122 /* z */), XT("<="), XT("AND"),
        QBranch(12), Lit(32), XT("-"),
    ]@);
    let c = c.with_variable("BASE"@, 10i32);
    let c = c.with_colon_word("?DIGIT", [
        XT("UPCHAR"), XT("DUP"), Lit(48), XT(">="), XT("OVER"), Lit(57), XT("<="), XT("AND"),
        QBranch(20), Lit(48), XT("-"), Branch(76), XT("DUP"), Lit(65), XT(">="), XT("OVER"),
        Lit(90), XT("<="), XT("AND"), QBranch(12), Lit(55), XT("-"), Branch(12), XT("DROP"),
        XT("FALSE"), XT("EXIT"), XT("DUP"), XT("BASE"), XT("@"), XT(">="), QBranch(16), XT("DROP"),
        XT("FALSE"), Branch(4), XT("TRUE"),
    ]@);
    let c = c.with_colon_word("?NUMBER", [
        XT("DUP"), XT("=0"), QBranch(16), XT("DROP"), XT("DROP"), XT("FALSE"), XT("EXIT"),
        XT("OVER"), XT("C@"), Lit(45), XT("="), XT("DUP"), XT(">R"), QBranch(16), XT("1-"),
        XT("SWAP"), XT("1+"), XT("SWAP"), XT("DUP"), XT("=0"), QBranch(16), XT("DROP"), XT("DROP"),
        XT("FALSE"), XT("EXIT"), XT("OVER"), XT("+"), XT(">R"), Lit(0), XT("SWAP"), XT("DUP"),
        XT("C@"), XT("?DIGIT"), XT("INVERT"), QBranch(32), XT("R>"), XT("R>"), XT("DROP"),
        XT("DROP"), XT("DROP"), XT("DROP"), XT("FALSE"), XT("EXIT"), XT("ROT"), XT("BASE"), XT("@"),
        XT("*"), XT("+"), XT("SWAP"), XT("1+"), XT("DUP"), XT("R@"), XT("="), QBranch(-104i32),
        XT("DROP"), XT("R>"), XT("DROP"), XT("R>"), QBranch(16), Lit(0), XT("SWAP"), XT("-"),
        XT("TRUE"),
    ]@);
    c
}

/// Defines the parser: the source buffer, parsing delimited words out of it,
/// and parsing digits and numbers in the current `BASE`.
#[verifier::rlimit(50)]
fn build_parser(compiler: &mut Compiler)
    requires
        old(compiler).wf(),
        core_words_defined(old(compiler)@),
        io_words_defined(old(compiler)@),
    ensures
        final(compiler)@ == with_parser_words(old(compiler)@),
        final(compiler).wf(),
        grows(old(compiler)@, final(compiler)@),
        parser_words_defined(final(compiler)@),
{
    reveal(with_parser_words);
    proof {
        lemma_core_words(compiler@);
        reveal(stack_words_defined);
        reveal(memory_words_defined);
        reveal(execution_words_defined);
        reveal(arithmetic_words_defined);
        reveal(bit_logic_words_defined);
        reveal(comparison_words_defined);
        reveal(io_words_defined);
    }
    compiler.define_variable_word("SOURCE-BUFFER", 0x100);
    compiler.define_variable_word("#SOURCE", 0x400);

    // current address and length of the input buffer ( -- c-addr u )
    compiler.define_colon_word(
        "SOURCE",
        vec![XT("SOURCE-BUFFER"), XT("@"), XT("#SOURCE"), XT("@")],
    );

    // is there anything to parse ( -- ? )
    compiler.define_colon_word(
        "PARSING?",
        vec![XT(">IN"), XT("@"), XT("SOURCE"), XT("NIP"), XT("<>")],
    );

    // get the address of the head of the parse area ( -- addr )
    compiler.define_colon_word(
        "'IN",
        vec![XT(">IN"), XT("@"), XT("SOURCE"), XT("DROP"), XT("+")],
    );

    // get first character in the parse area ( -- c )
    compiler.define_colon_word("IN@", vec![XT("'IN"), XT("C@")]);

    // Increment the head of the parse area ( -- )
    compiler.define_colon_word("1+IN!", vec![Lit(1), XT(">IN"), XT("+!")]);

    // Parse from the input buffer until we see a delimiter ( c -- c-addr u )
    compiler.define_colon_word(
        "PARSE",
        vec![
            // store the current parse location on the stack, it's word start
            XT("'IN"), XT("SWAP"),
            // parse until we see char-to-ignore or we're done
            XT("PARSING?"),
            XT("OVER"), XT("IN@"), XT("<>"),
            XT("AND"), QBranch(12),
            XT("1+IN!"),
            Branch(-40),
            // Get char-to-ignore off the stack, put len on instead
            XT("DROP"),
            XT("DUP"), XT("'IN"), XT("SWAP"), XT("-"),
        ],
    );

    // Parse a word from the input buffer ( -- c-addr u )
    compiler.define_colon_word(
        "PARSE-NAME",
        vec![
            // ignore leading spaces
            XT("PARSING?"),
            Lit(32), XT("IN@"), XT("="),
            XT("AND"), QBranch(12),
            XT("1+IN!"),
            Branch(-44),
            // we are at the head of our word! parse the rest normally
            Lit(32), XT("PARSE"),
        ],
    );

    // Capitalize a character ( c -- C )
    compiler.define_colon_word(
        "UPCHAR",
        vec![
            XT("DUP"), Lit(97 /* a */), XT(">="),
            XT("OVER"), Lit(122 /* z */), XT("<="), XT("AND"),
            QBranch(12),
            Lit(32), XT("-"),
        ],
    );

    compiler.define_variable_word("BASE", 10);

    // try to parse a digit ( c -- n -1 | 0 )
    compiler.define_colon_word(
        "?DIGIT",
        vec![
            XT("UPCHAR"), // parse hex as uppercase

            XT("DUP"), Lit(48), XT(">="),
            XT("OVER"), Lit(57), XT("<="), XT("AND"),
            QBranch(20), // if [0-9]
            Lit(48), XT("-"), // subtract '0'

            Branch(76), // else
            XT("DUP"), Lit(65), XT(">="),
            XT("OVER"), Lit(90), XT("<="), XT("AND"),
            QBranch(12), // if [A-Z]
            Lit(55), XT("-"), // subtract 'A', add 10

            Branch(12), // else
            XT("DROP"), XT("FALSE"), XT("EXIT"), // not a digit
            // end if

            XT("DUP"), XT("BASE"), XT("@"), XT(">="),
            QBranch(16), // if this isn't a valid digit in the current base
            XT("DROP"), XT("FALSE"),
            Branch(4), // else
            XT("TRUE"),
        ],
    );

    // Try parsing a string as a number ( c-addr u -- n -1 | 0 )
    compiler.define_colon_word(
        "?NUMBER",
        vec![
            XT("DUP"), XT("=0"),
            QBranch(16), // if the string is empty, it's not a number
            XT("DROP"), XT("DROP"), XT("FALSE"), XT("EXIT"),

            XT("OVER"), XT("C@"), Lit(45), XT("="), // does it start with -?
            XT("DUP"), XT(">R"), // store whether it does on the return stack
            QBranch(16), // if it does, skip past the -
            XT("1-"), XT("SWAP"), XT("1+"), XT("SWAP"),

            XT("DUP"), XT("=0"),
            QBranch(16), // if we're out of characters NOW it's also not a number
            XT("DROP"), XT("DROP"), XT("FALSE"), XT("EXIT"),

            XT("OVER"), XT("+"), XT(">R"), // store our final str-address in the return stack
            Lit(0), // store our running summation on the stack
            XT("SWAP"),

            // start loop ( n c-addr )
            XT("DUP"), XT("C@"), XT("?DIGIT"), XT("INVERT"),
            QBranch(32), // if the next char is NOT a digit
            XT("R>"), XT("R>"), XT("DROP"), XT("DROP"), XT("DROP"), XT("DROP"), // clean the stack
            XT("FALSE"), XT("EXIT"), // and get outta here
            // end if

            XT("ROT"), XT("BASE"), XT("@"), XT("*"), XT("+"), XT("SWAP"), // add digit to running total
            XT("1+"), // increment address
            XT("DUP"), XT("R@"), XT("="), // if we're out of input,
            QBranch(-104), // back to start of loop

            XT("DROP"), // we're done with the input string
            XT("R>"), XT("DROP"), // we're done with the target string

            // negate it if we have to, add TRUE, and we're good
            XT("R>"), QBranch(16),
            Lit(0), XT("SWAP"), XT("-"),
            XT("TRUE"),
        ],
    );
    proof {
        reveal(parser_words_defined);
    }
}

/// The compiler after defining the words that look names up in the
/// dictionary, starting from `LATEST`.
#[verifier::opaque]
pub open spec fn with_name_words(c: CompilerSpec) -> CompilerSpec {
    let c = c.with_variable("ERROR"@, 0i32);
    let c = c.with_colon_word("THROW", [XT("ERROR"), XT("!"), XT("STOP")]@);
    let c = c.with_colon_word("ERROR@", [XT("ERROR"), XT("@")]@);
    let c = c.with_colon_word("STR-UPPER-EQ?", [
        XT("ROT"), XT("SWAP"), XT("OVER"), XT("<>"), QBranch(20), XT("DROP"), XT("DROP"),
        XT("DROP"), XT("FALSE"), XT("EXIT"), XT("DUP"), XT("<>0"), QBranch(100), XT(">R"),
        XT("OVER"), XT("C@"), XT("UPCHAR"), XT("OVER"), XT("C@"), XT("<>"), QBranch(32), XT("R>"),
        XT("DROP"), XT("DROP"), XT("DROP"), XT("FALSE"), XT("EXIT"), Branch(24), XT("SWAP"),
        XT("1+"), XT("SWAP"), XT("1+"), XT("R>"), XT("1-"), Branch(-116i32), XT("DROP"), XT("DROP"),
        XT("DROP"), XT("TRUE"),
    ]@);
    let c = c.with_colon_word("NAME>U", [XT("C@"), Lit(31), XT("AND")]@);
    let c = c.with_colon_word("NAME>STRING", [XT("DUP"), XT("1+"), XT("SWAP"), XT("NAME>U")]@);
    let c = c.with_colon_word("NAME>BACKWORD", [
        XT("DUP"), XT("NAME>U"), XT("1+"), XT("+"), XT("@"),
    ]@);
    let c = c.with_colon_word("NAME>IMMEDIATE?", [XT("C@"), Lit(128), XT("AND"), XT("<>0")]@);
    let c = c.with_colon_word("NAME>XT", [XT("DUP"), XT("NAME>U"), XT("+"), Lit(5), XT("+")]@);
    let c = c.with_colon_word("FIND-NAME", [
        XT("LATEST"), XT("@"), XT("DUP"), XT("=0"), QBranch(20), XT("DROP"), XT("DROP"), XT("DROP"),
        XT("FALSE"), XT("EXIT"), XT(">R"), XT("OVER"), XT("OVER"), XT("R@"), XT("NAME>STRING"),
        XT("STR-UPPER-EQ?"), QBranch(24), XT("DROP"), XT("DROP"), XT("R>"), XT("EXIT"), Branch(8),
        XT("R>"), XT("NAME>BACKWORD"), Branch(-108i32),
    ]@);
    c
}

/// Defines the error words, case-insensitive name comparison, the words
/// reading a dictionary entry, and `FIND-NAME`, which walks the dictionary
/// back from `LATEST`.
#[verifier::rlimit(50)]
fn build_name_words(compiler: &mut Compiler)
    requires
        old(compiler).wf(),
        core_words_defined(old(compiler)@),
        parser_words_defined(old(compiler)@),
    ensures
        final(compiler)@ == with_name_words(old(compiler)@),
        final(compiler).wf(),
        grows(old(compiler)@, final(compiler)@),
        name_words_defined(final(compiler)@),
{
    reveal(with_name_words);
    proof {
        lemma_core_words(compiler@);
        reveal(stack_words_defined);
        reveal(memory_words_defined);
        reveal(execution_words_defined);
        reveal(arithmetic_words_defined);
        reveal(bit_logic_words_defined);
        reveal(comparison_words_defined);
        reveal(parser_words_defined);
    }
    // for now, store errors in here
    compiler.define_variable_word("ERROR", 0);
    compiler.define_colon_word("THROW", vec![XT("ERROR"), XT("!"), XT("STOP")]);
    compiler.define_colon_word("ERROR@", vec![XT("ERROR"), XT("@")]);

    // Case-insensitive string equality against a known-capital string
    // ( c-addr1 u1 C-ADDR U2 -- ? )
    compiler.define_colon_word(
        "STR-UPPER-EQ?",
        vec![
            XT("ROT"), XT("SWAP"), // ( c-addr1 c-addr2 u1 u2 )
            XT("OVER"), XT("<>"), QBranch(20), // If lengths mismatch, return now
            XT("DROP"), XT("DROP"), XT("DROP"), XT("FALSE"), XT("EXIT"),
            // then

            // stack is now ( c-addr1 c-addr2 u )
            // start of loop
            XT("DUP"), XT("<>0"), QBranch(100), // if length is 0, break outta the loop

            XT(">R"), // push length into return stack
            XT("OVER"), XT("C@"), XT("UPCHAR"), XT("OVER"), XT("C@"), XT("<>"), // are chars not-equal?
            QBranch(32), // if
            XT("R>"), XT("DROP"), XT("DROP"), XT("DROP"), //fix the stacks
            XT("FALSE"), XT("EXIT"), // return false
            Branch(24), // else
            XT("SWAP"), XT("1+"), XT("SWAP"), XT("1+"), // increment pointers
            XT("R>"), XT("1-"), // get the count out of the return stack and decremented
            // then

            Branch(-116), // end of loop

            XT("DROP"), XT("DROP"), XT("DROP"), XT("TRUE"), // if we made it this far we win!
        ],
    );

    // Given a name token, get its length ( nt -- u )
    compiler.define_colon_word("NAME>U", vec![XT("C@"), Lit(31), XT("AND")]);

    // Given a name token, get the name ( nt -- c-addr u )
    compiler.define_colon_word(
        "NAME>STRING",
        vec![
            XT("DUP"), XT("1+"), // start of the name is 1 byte after the head
            XT("SWAP"), XT("NAME>U"),
        ],
    );

    // given a name token, get the name token before it ( nt -- nt | 0 )
    compiler.define_colon_word(
        "NAME>BACKWORD",
        vec![
            XT("DUP"), XT("NAME>U"), // get word length
            XT("1+"), XT("+"), // backword is 1 + len bytes into the def
            XT("@"),
        ],
    );

    // given a name token, does that token point to an immediate word? ( nt -- ? )
    compiler.define_colon_word(
        "NAME>IMMEDIATE?",
        vec![XT("C@"), Lit(128), XT("AND"), XT("<>0")],
    );

    // given a name token, get the execution token ( nt -- xt )
    // xt is 1 + len + 4 bytes in to the definition
    compiler.define_colon_word(
        "NAME>XT",
        vec![XT("DUP"), XT("NAME>U"), XT("+"), Lit(5), XT("+")],
    );

    // Find the address of some word ( c-addr u -- nt | 0 )
    compiler.define_colon_word(
        "FIND-NAME",
        vec![
            XT("LATEST"), XT("@"), // start at the end of the dictionary

            // start of loop
            XT("DUP"), XT("=0"), // if we've found null
            QBranch(20), // give up
            XT("DROP"), XT("DROP"), XT("DROP"), // flush the stack
            XT("FALSE"), XT("EXIT"), // and exit with haste and falseness

            XT(">R"), XT("OVER"), XT("OVER"), // set up copies of c-addr and u
            XT("R@"), XT("NAME>STRING"), // and extract the name from the nt
            XT("STR-UPPER-EQ?"), // Are they equal?

            QBranch(24), // this IS it chief!
            XT("DROP"), XT("DROP"), // get rid of c-addr and u
            XT("R>"), XT("EXIT"), // return the address of the word
            Branch(8), // this ain't it chief
            XT("R>"), XT("NAME>BACKWORD"), // go to the previous def
            Branch(-108), // end of loop
        ],
    );
    proof {
        reveal(name_words_defined);
    }
}

/// The compiler after defining the outer interpreter words.
#[verifier::opaque]
pub open spec fn with_outer_words(c: CompilerSpec) -> CompilerSpec {
    let c = c.with_variable("STATE"@, 0i32);
    let c = c.with_colon_word("COMPILING?", [XT("STATE"), XT("@")]@);
    let c = c.with_colon_word(",", [XT("CP"), XT("@"), XT("!"), Lit(4), XT("CP"), XT("+!")]@);
    let c = c.with_colon_word("C,", [XT("CP"), XT("@"), XT("C!"), Lit(1), XT("CP"), XT("+!")]@);
    let c = c.with_colon_word("COMPILE-LITERAL", [XT("LIT"), XT("LIT"), XT(","), XT(",")]@);
    let c = c.with_colon_word("INTERPRET-NAME", [XT("NAME>XT"), XT("EXECUTE")]@);
    let c = c.with_colon_word("COMPILE-NAME", [
        XT("DUP"), XT("NAME>XT"), XT("SWAP"), XT("NAME>IMMEDIATE?"), QBranch(12), XT("EXECUTE"),
        Branch(4), XT(","),
    ]@);
    let c = c.with_colon_word("INTERPRET", [
        XT("PARSE-NAME"), XT("DUP"), XT("=0"), QBranch(12), XT("DROP"), XT("DROP"), XT("EXIT"),
        XT("OVER"), XT("OVER"), XT("FIND-NAME"), XT("DUP"), XT("<>0"), QBranch(44), XT("NIP"),
        XT("NIP"), XT("COMPILING?"), QBranch(12), XT("COMPILE-NAME"), Branch(4),
        XT("INTERPRET-NAME"), Branch(52), XT("DROP"), XT("?NUMBER"), QBranch(24), XT("COMPILING?"),
        QBranch(4), XT("COMPILE-LITERAL"), Branch(12), Lit(-1i32), XT("THROW"), Branch(-164i32),
    ]@);
    c
}

/// Defines the outer interpreter: compiling into the dictionary and running
/// or compiling each parsed word until the source is used up.
#[verifier::rlimit(50)]
fn build_outer_words(compiler: &mut Compiler)
    requires
        old(compiler).wf(),
        core_words_defined(old(compiler)@),
        parser_words_defined(old(compiler)@),
        name_words_defined(old(compiler)@),
    ensures
        final(compiler)@ == with_outer_words(old(compiler)@),
        final(compiler).wf(),
        grows(old(compiler)@, final(compiler)@),
        outer_words_defined(final(compiler)@),
{
    reveal(with_outer_words);
    proof {
        lemma_core_words(compiler@);
        reveal(stack_words_defined);
        reveal(memory_words_defined);
        reveal(execution_words_defined);
        reveal(comparison_words_defined);
        reveal(parser_words_defined);
        reveal(name_words_defined);
    }
    compiler.define_variable_word("STATE", 0);
    compiler.define_colon_word("COMPILING?", vec![XT("STATE"), XT("@")]);

    // append a cell to the end of the dictionary( n -- )
    compiler.define_colon_word(
        ",",
        vec![
            XT("CP"), XT("@"), XT("!"), // save value at end of dictionary
            Lit(4), XT("CP"), XT("+!"), // shift end of dictionary over
        ],
    );

    // append a byte to the end of the dictionary ( n -- )
    compiler.define_colon_word(
        "C,",
        vec![
            XT("CP"), XT("@"), XT("C!"), // save value at end of dictionary
            Lit(1), XT("CP"), XT("+!"), // shift end of dictionary over
        ],
    );

    // append a compiled literal to the end of the dictionary ( n -- )
    compiler.define_colon_word(
        "COMPILE-LITERAL",
        vec![XT("LIT"), XT("LIT"), XT(","), XT(",")],
    );

    // Perform interpretation semantics for a word ( nt -- )
    compiler.define_colon_word("INTERPRET-NAME", vec![XT("NAME>XT"), XT("EXECUTE")]);

    // Perform compilation semantics for a word ( nt -- )
    compiler.define_colon_word(
        "COMPILE-NAME",
        vec![
            XT("DUP"), XT("NAME>XT"), // get the word's XT
            XT("SWAP"), XT("NAME>IMMEDIATE?"), // is the word immediate?
            QBranch(12),   // if so,
            XT("EXECUTE"), // run it right away
            Branch(4),     // else,
            XT(","),       // bake it in
        ],
    );

    // execute words in a loop until the input buffer empties ( -- )
    compiler.define_colon_word(
        "INTERPRET",
        vec![
            // start of loop
            XT("PARSE-NAME"), // parse a space-delimited word from input

            XT("DUP"), XT("=0"),
            QBranch(12), // if the word is 0-length, we're done!
            XT("DROP"), XT("DROP"), XT("EXIT"),

            XT("OVER"), XT("OVER"), XT("FIND-NAME"), // look it up in the dictionary
            XT("DUP"), XT("<>0"),

            QBranch(44), // if we found the word in the dictionary,
            XT("NIP"), XT("NIP"), // clean the name out of the stack, we're done with it
            XT("COMPILING?"),
            QBranch(12),
            XT("COMPILE-NAME"),
            Branch(4),
            XT("INTERPRET-NAME"),

            Branch(52), // if we did not find the word,
            XT("DROP"), // clean stack of "xt"
            XT("?NUMBER"), // maybe it's a number?
            QBranch(24),  // if so, either bake the value in or leave it on the stack
            XT("COMPILING?"),
            QBranch(4),
            XT("COMPILE-LITERAL"),
            Branch(12), // if not, error and exit
            Lit(-1), XT("THROW"),

            Branch(-164), // end of loop
        ],
    );
    proof {
        reveal(outer_words_defined);
    }
}

/// The compiler after defining the interpreter's words: input and output,
/// the parser, name lookup and the outer interpreter.
pub open spec fn with_interpreter_words(c: CompilerSpec) -> CompilerSpec {
    with_outer_words(with_name_words(with_parser_words(with_io_words(c))))
}

/// Defines the interpreter's words on top of the core words: input and
/// output, the parser, and the outer interpreter. `FIND-NAME` starts its
/// search at the entry stored in `LATEST`.
pub fn build(compiler: &mut Compiler)
    requires
        old(compiler).wf(),
        core_words_defined(old(compiler)@),
    ensures
        final(compiler).wf(),
        grows(old(compiler)@, final(compiler)@),
        interpreter_words_defined(final(compiler)@),
        final(compiler)@ == with_interpreter_words(old(compiler)@),
{
    let ghost c0 = compiler@;
    build_io(compiler);
    let ghost c1 = compiler@;
    proof {
        lemma_core_words_kept(c0, c1);
    }
    build_parser(compiler);
    let ghost c2 = compiler@;
    proof {
        lemma_core_words_kept(c0, c2);
        lemma_interpreter_words_kept(c1, c2);
    }
    build_name_words(compiler);
    let ghost c3 = compiler@;
    proof {
        lemma_core_words_kept(c0, c3);
        lemma_interpreter_words_kept(c1, c3);
        lemma_interpreter_words_kept(c2, c3);
    }
    build_outer_words(compiler);
    proof {
        lemma_core_words_kept(c0, compiler@);
        lemma_interpreter_words_kept(c1, compiler@);
        lemma_interpreter_words_kept(c2, compiler@);
        lemma_interpreter_words_kept(c3, compiler@);
        reveal(interpreter_words_defined);
    }
}

} // verus!
