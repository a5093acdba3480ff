//! The words of a basic Forth interpreter built with the first code
//! generator: a parser for the terminal input buffer, case-insensitive name
//! comparison, and dictionary lookup from `LAST-WORD` back.
use vstd::prelude::*;
use crate::generator::{
    core_words_defined, grows, lemma_core_words_kept, stack_words_defined, memory_words_defined,
    execution_words_defined, math_words_defined, Generator, GeneratorSpec,
};
use crate::generator::ColonValue::{Branch, Lit, QBranch, XT};
use crate::parser::TIB_START;

verus! {

/// The words of the interpreter's parser are defined.
#[verifier::opaque]
pub open spec fn name_parser_words_defined(c: GeneratorSpec) -> bool {
    &&& c.defines("TIB")
    &&& c.defines("#TIB")
    &&& c.defines(">IN")
    &&& c.defines("PARSING?")
    &&& c.defines("'IN")
    &&& c.defines("IN@")
    &&& c.defines("1+IN!")
    &&& c.defines("PARSE-NAME")
}

/// The words comparing names and searching the dictionary are defined.
#[verifier::opaque]
pub open spec fn lookup_words_defined(c: GeneratorSpec) -> bool {
    &&& c.defines("UPCHAR")
    &&& c.defines("STR-UPPER-EQ")
    &&& c.defines("NAME>U")
    &&& c.defines("NAME>STRING")
    &&& c.defines("NAME>BACKWORD")
    &&& c.defines("FIND-NAME")
}

/// The generator after defining the terminal input buffer and `PARSE-NAME`.
#[verifier::opaque]
pub open spec fn with_name_parser_words(c: GeneratorSpec) -> GeneratorSpec {
    let buf_start = TIB_START;
    let c = c.with_variable("TIB"@, buf_start);
    let c = c.with_variable("#TIB"@, 0i32);
    let c = c.with_variable(">IN"@, 0i32);
    let c = c.with_colon_word("PARSING?", [XT(">IN"), XT("@"), XT("#TIB"), XT("@"), XT("<>")]@);
    let c = c.with_colon_word("'IN", [XT(">IN"), XT("@"), XT("TIB"), XT("@"), XT("+")]@);
    let c = c.with_colon_word("IN@", [XT("'IN"), XT("C@")]@);
    let c = c.with_colon_word("1+IN!", [Lit(1), XT(">IN"), XT("+!")]@);
    let c = c.with_colon_word("PARSE-NAME", [
        XT("PARSING?"), XT("OVER"), XT("IN@"), XT("="), XT("AND"), QBranch(12), XT("1+IN!"),
        Branch(-40i32), XT("'IN"), XT("SWAP"), XT("PARSING?"), XT("OVER"), XT("IN@"), XT("<>"),
        XT("AND"), QBranch(12), XT("1+IN!"), Branch(-40i32), XT("DROP"), XT("DUP"), XT("'IN"),
        XT("SWAP"), XT("-"),
    ]@);
    c
}

/// Defines the terminal input buffer, the words finding the parse area, and
/// `PARSE-NAME` ( c -- c-addr u ), which skips leading delimiters `c` and
/// parses the text up to the next one.
fn build_parser(gen: &mut Generator)
    requires
        old(gen).wf(),
        core_words_defined(old(gen)@),
    ensures
        final(gen)@ == with_name_parser_words(old(gen)@),
        final(gen).wf(),
        grows(old(gen)@, final(gen)@),
        name_parser_words_defined(final(gen)@),
{
    reveal(with_name_parser_words);
    proof {
        reveal(core_words_defined);
        reveal(stack_words_defined);
        reveal(memory_words_defined);
        reveal(execution_words_defined);
        reveal(math_words_defined);
    }
    let buf_start = TIB_START;
    gen.define_variable_word("TIB", buf_start);
    gen.define_variable_word("#TIB", 0);
    gen.define_variable_word(">IN", 0);

    // is there anything to parse( -- ? )
    gen.define_colon_word(
        "PARSING?",
        vec![XT(">IN"), XT("@"), XT("#TIB"), XT("@"), XT("<>")],
    );

    // get the address of the head of the parse area ( -- addr )
    gen.define_colon_word("'IN", vec![XT(">IN"), XT("@"), XT("TIB"), XT("@"), XT("+")]);

    // get first character in the parse area ( -- c )
    gen.define_colon_word("IN@", vec![XT("'IN"), XT("C@")]);

    // Increment the head of the parse area ( -- )
    gen.define_colon_word("1+IN!", vec![Lit(1), XT(">IN"), XT("+!")]);

    // Parse a word from the input buffer ( c -- c-addr u )
    gen.define_colon_word(
        "PARSE-NAME",
        vec![
            // ignore leading chars-to-ignore
            XT("PARSING?"),
            XT("OVER"), XT("IN@"), XT("="),
            XT("AND"), QBranch(12),
            XT("1+IN!"),
            Branch(-40),
            // we are at the head of our word! get it on the stack
            XT("'IN"), XT("SWAP"),
            // keep parsing until we DO see chars-to-ignore or we're done
            XT("PARSING?"),
            XT("OVER"), XT("IN@"), XT("<>"),
            XT("AND"), QBranch(12),
            XT("1+IN!"),
            Branch(-40),
            // Get char-to-ignore off the stack, put len on instead
            XT("DROP"),
            XT("DUP"), XT("'IN"), XT("SWAP"), XT("-"),
        ],
    );
    proof {
        reveal(name_parser_words_defined);
    }
}

/// The generator after defining name comparison, the words reading dictionary
/// entries, and `FIND-NAME`.
#[verifier::opaque]
pub open spec fn with_lookup_words(c: GeneratorSpec) -> GeneratorSpec {
    let c = c.with_colon_word("UPCHAR", [
        XT("DUP"), Lit(97 /* a */), XT(">="), XT("OVER"), Lit(122 /* z */), XT("<="), XT("AND"),
        QBranch(12), Lit(32), XT("-"),
    ]@);
    let c = c.with_colon_word("STR-UPPER-EQ", [
        XT("ROT"), XT("SWAP"), XT("OVER"), XT("<>"), QBranch(20), XT("DROP"), XT("DROP"),
        XT("DROP"), XT("FALSE"), XT("EXIT"), XT("DUP"), XT(">0"), QBranch(100), XT(">R"),
        XT("OVER"), XT("C@"), XT("UPCHAR"), XT("OVER"), XT("C@"), XT("<>"), QBranch(32), XT("R>"),
        XT("DROP"), XT("DROP"), XT("DROP"), XT("FALSE"), XT("EXIT"), Branch(24), XT("SWAP"),
        XT("1+"), XT("SWAP"), XT("1+"), XT("R>"), XT("1-"), Branch(-116i32), XT("DROP"), XT("DROP"),
        XT("DROP"), XT("TRUE"),
    ]@);
    let c = c.with_colon_word("NAME>U", [XT("C@"), Lit(31), XT("AND")]@);
    let c = c.with_colon_word("NAME>STRING", [XT("DUP"), XT("1+"), XT("SWAP"), XT("NAME>U")]@);
    let c = c.with_colon_word("NAME>BACKWORD", [
        XT("DUP"), XT("NAME>U"), XT("1+"), XT("+"), XT("@"),
    ]@);
    let c = c.with_colon_word("FIND-NAME", [
        XT("LAST-WORD"), XT("@"), XT("DUP"), XT("=0"), QBranch(20), XT("DROP"), XT("DROP"),
        XT("DROP"), XT("FALSE"), XT("EXIT"), XT(">R"), XT("OVER"), XT("OVER"), XT("R@"),
        XT("NAME>STRING"), XT("STR-UPPER-EQ"), QBranch(24), XT("DROP"), XT("DROP"), XT("R>"),
        XT("EXIT"), Branch(8), XT("R>"), XT("NAME>BACKWORD"), Branch(-108i32),
    ]@);
    c
}

/// Defines case conversion, case-insensitive comparison against a capital
/// name, the words reading a dictionary entry, and `FIND-NAME`, which walks
/// the dictionary back from `LAST-WORD`.
#[verifier::rlimit(50)]
fn build_interpreter(gen: &mut Generator)
    requires
        old(gen).wf(),
        core_words_defined(old(gen)@),
    ensures
        final(gen)@ == with_lookup_words(old(gen)@),
        final(gen).wf(),
        grows(old(gen)@, final(gen)@),
        lookup_words_defined(final(gen)@),
{
    reveal(with_lookup_words);
    proof {
        reveal(core_words_defined);
        reveal(stack_words_defined);
        reveal(memory_words_defined);
        reveal(execution_words_defined);
        reveal(math_words_defined);
    }
    // Capitalize a character ( c -- C )
    gen.define_colon_word(
        "UPCHAR",
        vec![
            XT("DUP"), Lit(97 /* a */), XT(">="),
            XT("OVER"), Lit(122 /* z */), XT("<="), XT("AND"),
            QBranch(12),
            Lit(32), XT("-"),
        ],
    );

    // Case-insensitive string equality against a known-capital string
    // ( c-addr1 u1 C-ADDR U2 -- ? )
    gen.define_colon_word(
        "STR-UPPER-EQ",
        vec![
            XT("ROT"), XT("SWAP"), // ( c-addr1 c-addr2 u1 u2 )
            XT("OVER"), XT("<>"), QBranch(20), // If lengths mismatch, return now
            XT("DROP"), XT("DROP"), XT("DROP"), XT("FALSE"), XT("EXIT"),
            // then

            // stack is now ( c-addr1 c-addr2 u )
            // start of loop
            XT("DUP"), XT(">0"), QBranch(100), // if length is 0, break outta the loop

            XT(">R"), // push length into return stack
            XT("OVER"), XT("C@"), XT("UPCHAR"), XT("OVER"), XT("C@"), XT("<>"), // are chars not-equal?
            QBranch(32), // if
            XT("R>"), XT("DROP"), XT("DROP"), XT("DROP"), //fix the stacks
            XT("FALSE"), XT("EXIT"), // return false
            Branch(24), // else
            XT("SWAP"), XT("1+"), XT("SWAP"), XT("1+"), // increment pointers
            XT("R>"), XT("1-"), // get the count out of the return stack and decremented
            // then

            Branch(-116), // end of loop

            XT("DROP"), XT("DROP"), XT("DROP"), XT("TRUE"), // if we made it this far we win!
        ],
    );

    // Given a name token, get its length ( nt -- u )
    gen.define_colon_word("NAME>U", vec![XT("C@"), Lit(31), XT("AND")]);

    // Given a name token, get the name ( nt -- c-addr u )
    gen.define_colon_word(
        "NAME>STRING",
        vec![
            XT("DUP"), XT("1+"), // start of the name is 1 byte after the head
            XT("SWAP"), XT("NAME>U"),
        ],
    );

    // given a name token, get the name token before it ( nt -- nt | 0 )
    gen.define_colon_word(
        "NAME>BACKWORD",
        vec![
            XT("DUP"), XT("NAME>U"), // get word length
            XT("1+"), XT("+"), // backword is 1 + len bytes into the def
            XT("@"),
        ],
    );

    // Find the address of some word ( c-addr u -- nt | 0 )
    gen.define_colon_word(
        "FIND-NAME",
        vec![
            XT("LAST-WORD"), XT("@"), // start at the end of the dictionary

            // start of loop
            XT("DUP"), XT("=0"), // if we've found null
            QBranch(20), // give up
            XT("DROP"), XT("DROP"), XT("DROP"), // flush the stack
            XT("FALSE"), XT("EXIT"), // and exit with haste and falseness

            XT(">R"), XT("OVER"), XT("OVER"), // set up copies of c-addr and u
            XT("R@"), XT("NAME>STRING"), // and extract the name from the nt
            XT("STR-UPPER-EQ"), // Are they equal?

            QBranch(24), // this IS it chief!
            XT("DROP"), XT("DROP"), // get rid of c-addr and u
            XT("R>"), XT("EXIT"), // return the address of the word
            Branch(8), // this ain't it chief
            XT("R>"), XT("NAME>BACKWORD"), // go to the previous def
            Branch(-108), // end of loop
        ],
    );
    proof {
        reveal(lookup_words_defined);
    }
}

/// The generator after defining the basic interpreter's words.
pub open spec fn with_interpreter_words(c: GeneratorSpec) -> GeneratorSpec {
    with_lookup_words(with_name_parser_words(c))
}

/// Defines a basic interpreter's words on top of the core words: the
/// terminal input buffer and `PARSE-NAME`, name comparison, the words
/// reading dictionary entries, and `FIND-NAME`.
pub fn build(gen: &mut Generator)
    requires
        old(gen).wf(),
        core_words_defined(old(gen)@),
    ensures
        final(gen).wf(),
        grows(old(gen)@, final(gen)@),
        core_words_defined(final(gen)@),
        name_parser_words_defined(final(gen)@),
        lookup_words_defined(final(gen)@),
        final(gen)@ == with_interpreter_words(old(gen)@),
{
    let ghost g0 = gen@;
    build_parser(gen);
    let ghost g1 = gen@;
    proof {
        lemma_core_words_kept(g0, g1);
    }
    build_interpreter(gen);
    proof {
        lemma_core_words_kept(g0, gen@);
        reveal(name_parser_words_defined);
    }
}

} // verus!
