//! A parser for the first code generator's terminal input buffer: words that
//! find the parse area and parse delimited text out of it.
use vstd::prelude::*;
use crate::generator::{
    core_words_defined, grows, stack_words_defined, memory_words_defined, execution_words_defined,
    math_words_defined, Generator, GeneratorSpec,
};
use crate::generator::ColonValue::{Branch, Lit, QBranch, XT};

verus! {

/// Where the terminal input buffer starts.
pub const TIB_START: i32 = 0x100;

/// The parser's words are defined.
#[verifier::opaque]
pub open spec fn parser_words_defined(c: GeneratorSpec) -> bool {
    &&& c.defines("TIB")
    &&& c.defines("#TIB")
    &&& c.defines(">IN")
    &&& c.defines("PARSING?")
    &&& c.defines("'IN")
    &&& c.defines("IN@")
    &&& c.defines("1+IN!")
    &&& c.defines("PARSE")
}

/// The generator after defining the terminal input buffer and the parser
/// words.
#[verifier::opaque]
pub open spec fn with_parser_words(c: GeneratorSpec) -> GeneratorSpec {
    let buf_start = TIB_START;
    let c = c.with_variable("TIB"@, buf_start);
    let c = c.with_variable("#TIB"@, 0i32);
    let c = c.with_variable(">IN"@, 0i32);
    let c = c.with_colon_word("PARSING?", [XT(">IN"), XT("@"), XT("#TIB"), XT("@"), XT("<>")]@);
    let c = c.with_colon_word("'IN", [XT(">IN"), XT("@"), XT("TIB"), XT("@"), XT("+")]@);
    let c = c.with_colon_word("IN@", [XT("'IN"), XT("C@")]@);
    let c = c.with_colon_word("1+IN!", [Lit(1), XT(">IN"), XT("+!")]@);
    let c = c.with_colon_word("PARSE", [
        XT("PARSING?"), XT("OVER"), XT("IN@"), XT("="), XT("AND"), QBranch(12), XT("1+IN!"),
        Branch(-40i32), XT("'IN"), XT("SWAP"), XT("PARSING?"), XT("OVER"), XT("IN@"), XT("<>"),
        XT("AND"), QBranch(12), XT("1+IN!"), Branch(-40i32), XT("DROP"), XT("DUP"), XT("'IN"),
        XT("SWAP"), XT("-"),
    ]@);
    c
}

/// Defines the terminal input buffer (`TIB` holds its address, `#TIB` its
/// length, `>IN` the offset of the parse area), the words finding the parse
/// area, and `PARSE` ( c -- c-addr u ), which skips leading delimiters `c`
/// and parses the text up to the next one.
pub fn build_parser(gen: &mut Generator)
    requires
        old(gen).wf(),
        core_words_defined(old(gen)@),
    ensures
        final(gen)@ == with_parser_words(old(gen)@),
        final(gen).wf(),
        grows(old(gen)@, final(gen)@),
        parser_words_defined(final(gen)@),
{
    reveal(with_parser_words);
    proof {
        reveal(core_words_defined);
        reveal(stack_words_defined);
        reveal(memory_words_defined);
        reveal(execution_words_defined);
        reveal(math_words_defined);
    }
    let buf_start = TIB_START;
    gen.define_variable_word("TIB", buf_start);
    gen.define_variable_word("#TIB", 0);
    gen.define_variable_word(">IN", 0);

    // is there anything to parse( -- ? )
    gen.define_colon_word(
        "PARSING?",
        vec![XT(">IN"), XT("@"), XT("#TIB"), XT("@"), XT("<>")],
    );

    // get the address of the head of the parse area ( -- addr )
    gen.define_colon_word("'IN", vec![XT(">IN"), XT("@"), XT("TIB"), XT("@"), XT("+")]);

    // get first character in the parse area ( -- c )
    gen.define_colon_word("IN@", vec![XT("'IN"), XT("C@")]);

    // Increment the head of the parse area ( -- )
    gen.define_colon_word("1+IN!", vec![Lit(1), XT(">IN"), XT("+!")]);

    // Parse a word from the input buffer ( c -- c-addr u )
    gen.define_colon_word(
        "PARSE",
        vec![
            // ignore leading chars-to-ignore
            XT("PARSING?"),
            XT("OVER"), XT("IN@"), XT("="),
            XT("AND"), QBranch(12),
            XT("1+IN!"),
            Branch(-40),
            // we are at the head of our word! get it on the stack
            XT("'IN"), XT("SWAP"),
            // keep parsing until we DO see chars-to-ignore or we're done
            XT("PARSING?"),
            XT("OVER"), XT("IN@"), XT("<>"),
            XT("AND"), QBranch(12),
            XT("1+IN!"),
            Branch(-40),
            // Get char-to-ignore off the stack, put len on instead
            XT("DROP"),
            XT("DUP"), XT("'IN"), XT("SWAP"), XT("-"),
        ],
    );
    proof {
        reveal(parser_words_defined);
    }
}

} // verus!
