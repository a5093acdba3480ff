//! Laws of the dictionary image the compiler lays out: where each field of
//! an entry lies (the Forth words `NAME>U`, `NAME>STRING`, `NAME>BACKWORD`
//! and `NAME>XT` read them back at these places), that entries keep the
//! dictionary 4-aligned, that the compiled items of a colon definition sit
//! where the compiler tracks them, and what the token table answers after a
//! definition.
use vstd::prelude::*;
use crate::assembler::AssemblerSpec;
use crate::bootstrapper::compiler::{
    colon_code, colon_item, entry_bytes, entry_token, exported_words, finished, header_size, DICTIONARY_BASE,
    string_bytes, with_runners, word_key, ColonValue, CompilerSpec,
};
use crate::wasm::DataSpec;
use crate::layout::{add32, aligned, cell_value, le32, lemma_padding, padding, zeros};

verus! {

/// No string literal of `values` is longer than `i32::MAX - 27` bytes, so
/// each item's size fits in an `i32`.
pub open spec fn literals_fit(values: Seq<ColonValue>) -> bool {
    forall|i: int|
        0 <= i < values.len() ==> match #[trigger] values[i] {
            ColonValue::StringLit(s) => string_bytes(s).len() <= i32::MAX - 27,
            _ => true,
        }
}

/// The size of the header of an entry for a name of `n` bytes, as an integer.
pub open spec fn header_len(n: int) -> int {
    1 + n + padding((1 + n) as i32) + 8
}

/// Law (entry layout): an entry for `name` starts with the name's length in
/// one byte and the name's bytes; zero bytes pad them to a multiple of 4;
/// the link to the previous entry and then the code cell follow, and then
/// the parameter. The execution token is the address of the code cell, so
/// reading the link at `aligned(nt + 1 + len)` (`NAME>BACKWORD`) and the token
/// at `aligned(nt + len + 5)` (`NAME>XT`) finds them for an entry at a
/// 4-aligned address `nt`.
#[verifier::rlimit(40)]
pub proof fn lemma_entry_layout(address: i32, name: Seq<u8>, link: i32, code: u32, parameter: Seq<u8>)
    requires
        name.len() < 256,
        0 <= address,
        address % 4 == 0,
        address + header_len(name.len() as int) + parameter.len() <= i32::MAX,
    ensures
        ({
            let bytes = entry_bytes(name, link, code, parameter);
            let h = header_len(name.len() as int);
            &&& h % 4 == 0
            &&& header_size(name) == h
            &&& bytes.len() == h + parameter.len()
            &&& bytes[0] == name.len() as u8
            &&& bytes.subrange(1, 1 + name.len() as int) == name
            &&& bytes.subrange(1 + name.len() as int, h - 8) == zeros(h - 9 - name.len())
            &&& bytes.subrange(h - 8, h - 4) == le32(link)
            &&& bytes.subrange(h - 4, h) == le32(code as i32)
            &&& bytes.subrange(h, bytes.len() as int) == parameter
            &&& entry_token(address, name) == address + h - 4
            &&& aligned((address + 1 + name.len()) as i32) == address + h - 8
            &&& aligned((address + name.len() + 5) as i32) == address + h - 4
        }),
{
    let n = name.len() as int;
    lemma_padding((1 + n) as i32);
    lemma_padding((address + 1 + n) as i32);
    lemma_padding((address + n + 5) as i32);
    let pad = padding((1 + n) as i32);
    let h = header_len(n);
    assert(add32(1, n as i32) == 1 + n);
    assert(aligned((1 + n) as i32) == 1 + n + pad);
    assert(padding((address + 1 + n) as i32) == pad) by {
        assert((address + 1 + n + pad) % 4 == 0);
        assert((address + 1 + n + padding((address + 1 + n) as i32)) % 4 == 0);
    }
    assert(padding((address + n + 5) as i32) == pad) by {
        assert((address + n + 5 + pad) % 4 == 0);
        assert((address + n + 5 + padding((address + n + 5) as i32)) % 4 == 0);
    }
    vstd::bytes::lemma_auto_spec_u32_to_from_le_bytes();
    assert(le32(link).len() == 4);
    assert(le32(code as i32).len() == 4);
    let bytes = entry_bytes(name, link, code, parameter);
    let p0 = seq![n as u8];
    let p1 = p0 + name;
    let p2 = p1 + zeros(pad as int);
    let p3 = p2 + le32(link);
    let p4 = p3 + le32(code as i32);
    assert(bytes == p4 + parameter);
    assert(bytes.subrange(1, 1 + n) =~= name);
    assert(bytes.subrange(1 + n, h - 8) =~= zeros(h - 9 - n));
    assert(bytes.subrange(h - 8, h - 4) =~= le32(link));
    assert(bytes.subrange(h - 4, h) =~= le32(code as i32));
    assert(bytes.subrange(h, bytes.len() as int) =~= parameter);
}

/// Law (alignment): an entry added at a 4-aligned end of the dictionary with
/// a parameter whose length is a multiple of 4 leaves the end 4-aligned and
/// gets a 4-aligned execution token; the end moves by the entry's size and
/// the entry becomes the latest one.
pub proof fn lemma_entry_keeps_alignment(c: CompilerSpec, label: Seq<char>, code: u32, parameter: Seq<u8>)
    requires
        vstd::utf8::encode_utf8(label).len() < 256,
        0 <= c.cp,
        c.cp % 4 == 0,
        c.cp + header_len(vstd::utf8::encode_utf8(label).len() as int) + parameter.len() <= i32::MAX,
        parameter.len() % 4 == 0,
    ensures
        ({
            let name = vstd::utf8::encode_utf8(label);
            let d = c.with_entry(label, code, parameter);
            &&& d.cp == c.cp + header_len(name.len() as int) + parameter.len()
            &&& d.cp % 4 == 0
            &&& d.latest_address == c.cp
            &&& d.tokens[name] == c.cp + header_len(name.len() as int) - 4
            &&& d.tokens[name] % 4 == 0
        }),
{
    reveal(CompilerSpec::with_entry);
    let name = vstd::utf8::encode_utf8(label);
    lemma_entry_layout(c.cp, name, c.latest_address, code, parameter);
    lemma_padding((1 + name.len()) as i32);
    let bytes = entry_bytes(name, c.latest_address, code, parameter);
    assert(add32(c.cp, bytes.len() as i32) == c.cp + bytes.len());
}

/// Law (token table): after an entry for `label` is added, its name maps to
/// the new entry's execution token and every other name keeps its token, so
/// a redefinition shadows the earlier one.
pub proof fn lemma_entry_token(c: CompilerSpec, label: Seq<char>, code: u32, parameter: Seq<u8>, other: Seq<u8>)
    ensures
        ({
            let name = vstd::utf8::encode_utf8(label);
            let d = c.with_entry(label, code, parameter);
            &&& d.tokens.contains_key(name)
            &&& d.tokens[name] == entry_token(c.cp, name)
            &&& d.latest_address == c.cp
            &&& other != name ==> (d.tokens.contains_key(other) == c.tokens.contains_key(other))
            &&& other != name && c.tokens.contains_key(other) ==> d.tokens[other] == c.tokens[other]
        }),
{
    reveal(CompilerSpec::with_entry);
}

/// Law (item placement): the compiler's running address after an item of a
/// colon definition is the item's address plus its size, so the absolute
/// jump targets it computes are counted from the end of the branch item as
/// written, and a string literal's data lies 8 bytes into its item. Every
/// item's size is a multiple of 4.
pub proof fn lemma_colon_item_size(v: ColonValue, cp: i32, c: CompilerSpec)
    requires
        literals_fit(seq![v]),
    ensures
        ({
            let (bytes, next) = colon_item(v, cp, c);
            &&& next == add32(cp, bytes.len() as i32)
            &&& bytes.len() % 4 == 0
            &&& bytes.len() <= i32::MAX
            &&& (v is Branch ==> bytes.subrange(4, 8) == le32(add32(next, v->Branch_0)))
            &&& (v is QBranch ==> bytes.subrange(4, 8) == le32(add32(next, v->QBranch_0)))
            &&& (v matches ColonValue::StringLit(s) ==> bytes.subrange(8, 8 + string_bytes(s).len() as int)
                == string_bytes(s))
        }),
{
    vstd::bytes::lemma_auto_spec_u32_to_from_le_bytes();
    let (bytes, next) = colon_item(v, cp, c);
    assert(seq![v][0] == v);
    match v {
        ColonValue::XT(name) => {
            assert(le32(c.token(name)).len() == 4);
        },
        ColonValue::Lit(value) => {
            assert(le32(c.token("LIT")).len() == 4);
            assert(le32(value).len() == 4);
            assert(add32(cp, 8) == add32(cp, bytes.len() as i32));
        },
        ColonValue::StringLit(s) => {
            let data_start = add32(cp, 8);
            let data = string_bytes(s);
            let data_len = data.len() as i32;
            let pad = padding(data_len);
            lemma_padding(data_len);
            let target = add32(add32(data_start, data_len), pad);
            let b = le32(c.token("BRANCH")) + le32(target);
            assert(b.len() == 8);
            let b2 = b + data;
            let b3 = b2 + zeros(pad as int);
            let b4 = b3 + le32(c.token("LIT")) + le32(data_start) + le32(c.token("LIT")) + le32(data_len);
            assert(bytes == b4);
            assert(bytes.len() == 8 + data.len() + pad + 16);
            assert(bytes.subrange(8, 8 + data.len() as int) =~= data);
            crate::layout::lemma_add32_add(cp, 8, data_len);
            crate::layout::lemma_add32_add(cp, (8 + data_len) as i32, pad);
            crate::layout::lemma_add32_add(cp, (8 + data_len + pad) as i32, 16);
        },
        ColonValue::Branch(offset) => {
            assert(le32(c.token("BRANCH")).len() == 4);
            assert(bytes.subrange(4, 8) =~= le32(add32(next, offset)));
        },
        ColonValue::QBranch(offset) => {
            assert(le32(c.token("?BRANCH")).len() == 4);
            assert(bytes.subrange(4, 8) =~= le32(add32(next, offset)));
        },
    }
}

/// The address at which item `i` of a colon definition whose first item is
/// placed at `cp` starts.
pub open spec fn item_start(values: Seq<ColonValue>, cp: i32, c: CompilerSpec, i: int) -> i32
    decreases i,
{
    if i <= 0 || values.len() == 0 {
        cp
    } else {
        item_start(values.drop_first(), colon_item(values[0], cp, c).1, c, i - 1)
    }
}

/// Law (item sequence): the compiled items of a colon definition are the
/// items before item `i`, then item `i` and the rest compiled from the
/// address where item `i` starts; so item `i` is `colon_item(values[i], ..)`
/// at `item_start(values, cp, c, i)`, and a branch's operand cell holds the
/// address after its item plus the offset (see `lemma_colon_item_size`).
pub proof fn lemma_colon_code_split(values: Seq<ColonValue>, cp: i32, c: CompilerSpec, i: int)
    requires
        0 <= i <= values.len(),
    ensures
        colon_code(values, cp, c) == colon_code(values.take(i), cp, c) + colon_code(
            values.skip(i),
            item_start(values, cp, c, i),
            c,
        ),
        i < values.len() ==> colon_code(values.skip(i), item_start(values, cp, c, i), c) == colon_item(
            values[i],
            item_start(values, cp, c, i),
            c,
        ).0 + colon_code(values.skip(i + 1), colon_item(values[i], item_start(values, cp, c, i), c).1, c),
    decreases i,
{
    if i == 0 {
        assert(values.take(0) =~= Seq::<ColonValue>::empty());
        assert(values.skip(0) =~= values);
        if values.len() > 0 {
            assert(values.skip(1) =~= values.drop_first());
        }
    } else {
        let (bytes, next) = colon_item(values[0], cp, c);
        let rest = values.drop_first();
        lemma_colon_code_split(rest, next, c, i - 1);
        assert(values.take(i).drop_first() =~= rest.take(i - 1));
        assert(values.take(i)[0] == values[0]);
        assert(rest.skip(i - 1) =~= values.skip(i));
        assert(colon_code(values.take(i), cp, c) == bytes + colon_code(rest.take(i - 1), next, c));
        if i < values.len() {
            assert(rest[i - 1] == values[i]);
            assert(rest.skip(i) =~= values.skip(i + 1));
            assert(values.skip(i).drop_first() =~= values.skip(i + 1));
            assert(values.skip(i)[0] == values[i]);
        }
    }
}

/// Law (colon code size): the compiled items of a colon definition take a
/// multiple of 4 bytes, so a colon word (its items and the final `EXIT`
/// cell) keeps the dictionary 4-aligned.
pub proof fn lemma_colon_code_size(values: Seq<ColonValue>, cp: i32, c: CompilerSpec)
    requires
        literals_fit(values),
    ensures
        colon_code(values, cp, c).len() % 4 == 0,
    decreases values.len(),
{
    if values.len() > 0 {
        assert(seq![values[0]][0] == values[0]);
        assert(literals_fit(seq![values[0]]));
        lemma_colon_item_size(values[0], cp, c);
        let (bytes, next) = colon_item(values[0], cp, c);
        assert forall|i: int| 0 <= i < values.drop_first().len() implies match #[trigger] values.drop_first()[i] {
            ColonValue::StringLit(s) => string_bytes(s).len() <= i32::MAX - 27,
            _ => true,
        } by {
            assert(values.drop_first()[i] == values[i + 1]);
        }
        lemma_colon_code_size(values.drop_first(), next, c);
    }
}

/// Law (colon words keep alignment): a colon definition added at a
/// 4-aligned end of the dictionary leaves the end 4-aligned.
pub proof fn lemma_colon_word_keeps_alignment(
    c: CompilerSpec,
    label: Seq<char>,
    values: Seq<ColonValue>,
    cp: i32,
    exit: i32,
)
    requires
        literals_fit(values),
        vstd::utf8::encode_utf8(label).len() < 256,
        0 <= c.cp,
        c.cp % 4 == 0,
        c.cp + header_len(vstd::utf8::encode_utf8(label).len() as int) + colon_code(values, cp, c).len() + 4
            <= i32::MAX,
    ensures
        c.with_entry(label, c.docol, colon_code(values, cp, c) + le32(exit)).cp % 4 == 0,
{
    lemma_colon_code_size(values, cp, c);
    vstd::bytes::lemma_auto_spec_u32_to_from_le_bytes();
    assert(le32(exit).len() == 4);
    lemma_entry_keeps_alignment(c, label, c.docol, colon_code(values, cp, c) + le32(exit));
}

/// Adding runner functions keeps the module's imports, data, table, globals
/// and memory, and appends one export per word, under the word's name, after the
/// existing exports.
pub proof fn lemma_runners(
    a: AssemblerSpec,
    words: Seq<(Seq<char>, i32)>,
    push: u32,
    ip: u32,
    start: u32,
    run_xt: i32,
)
    ensures
        ({
            let r = with_runners(a, words, push, ip, start, run_xt);
            &&& r.imports == a.imports
            &&& r.data == a.data
            &&& r.table == a.table
            &&& r.globals == a.globals
            &&& r.memory == a.memory
            &&& r.exports.len() == a.exports.len() + words.len()
            &&& forall|i: int| 0 <= i < a.exports.len() ==> #[trigger] r.exports[i] == a.exports[i]
            &&& forall|i: int| 0 <= i < words.len() ==> #[trigger] r.exports[a.exports.len() + i].0 == words[i].0
        }),
    decreases words.len(),
{
    if words.len() > 0 {
        lemma_runners(a, words.drop_last(), push, ip, start, run_xt);
        let prev = with_runners(a, words.drop_last(), push, ip, start, run_xt);
        let r = with_runners(a, words, push, ip, start, run_xt);
        assert forall|i: int| 0 <= i < words.len() implies #[trigger] r.exports[a.exports.len() + i].0
            == words[i].0 by {
            if i < words.len() - 1 {
                assert(words.drop_last()[i] == words[i]);
                assert(r.exports[a.exports.len() + i] == prev.exports[a.exports.len() + i]);
            }
        }
    }
}

/// Finishing the module imports no function.
pub proof fn lemma_finished_keeps_imports(c: CompilerSpec)
    ensures
        finished(c).assembler.imports == c.assembler.imports,
{
    broadcast use crate::bootstrapper::compiler::lemma_entry_keeps_imports;
    let c1 = c.with_entry(
        "RUN-WORD"@,
        c.docol,
        colon_code(
            seq![ColonValue::XT("EXECUTE"), ColonValue::XT("BYE")],
            add32(c.cp, header_size(word_key("RUN-WORD"))),
            c,
        ) + le32(c.token("EXIT")),
    );
    let a1 = c1.assembler.with_data(add32(c1.token("CP"), 4), le32(c1.cp)).with_data(
        add32(c1.token("LATEST"), 4),
        le32(c1.latest_address),
    );
    let a2 = if c.export_all {
        a1.with_export("push"@, c.push).with_export("pop"@, c.pop).with_export("push_d"@, c.push_d).with_export(
            "pop_d"@,
            c.pop_d,
        )
    } else {
        a1
    };
    lemma_runners(a2, exported_words(c1), c.push, c.ip, c.start, c1.token("RUN-WORD"));
}

/// Law (finishing): finishing adds `RUN-WORD` as the last entry of the
/// dictionary; after every entry's data it writes the final end of the
/// dictionary into the cell of `CP` and the address of the last entry into
/// the cell of `LATEST`; and it exports each of the words it exports (every
/// word, in the order first defined, or only `_start`) under its name,
/// after the stack functions when every word is exported.
pub proof fn lemma_finished(c: CompilerSpec)
    ensures
        ({
            let param = colon_code(
                seq![ColonValue::XT("EXECUTE"), ColonValue::XT("BYE")],
                add32(c.cp, header_size(word_key("RUN-WORD"))),
                c,
            ) + le32(c.token("EXIT"));
            let c1 = c.with_entry("RUN-WORD"@, c.docol, param);
            let f = finished(c);
            let base = c1.assembler.exports.len() + if c.export_all { 4int } else { 0int };
            let words = exported_words(c1);
            &&& f.tokens == c1.tokens
            &&& f.cp == c1.cp
            &&& f.latest_address == c.cp
            &&& f.assembler.data == c1.assembler.data.push(
                DataSpec { offset: add32(c1.token("CP"), 4), bytes: le32(c1.cp) },
            ).push(DataSpec { offset: add32(c1.token("LATEST"), 4), bytes: le32(c.cp) })
            &&& f.assembler.exports.len() == base + words.len()
            &&& forall|i: int| 0 <= i < words.len() ==> #[trigger] f.assembler.exports[base + i].0 == words[i].0
        }),
{
    let param = colon_code(
        seq![ColonValue::XT("EXECUTE"), ColonValue::XT("BYE")],
        add32(c.cp, header_size(word_key("RUN-WORD"))),
        c,
    ) + le32(c.token("EXIT"));
    let c1 = c.with_entry("RUN-WORD"@, c.docol, param);
    crate::bootstrapper::compiler::lemma_with_entry_keeps(c, "RUN-WORD"@, c.docol, param);
    lemma_entry_token(c, "RUN-WORD"@, c.docol, param, seq![]);
    let a1 = c1.assembler.with_data(add32(c1.token("CP"), 4), le32(c1.cp)).with_data(
        add32(c1.token("LATEST"), 4),
        le32(c1.latest_address),
    );
    let a2 = if c.export_all {
        a1.with_export("push"@, c.push).with_export("pop"@, c.pop).with_export("push_d"@, c.push_d).with_export(
            "pop_d"@,
            c.pop_d,
        )
    } else {
        a1
    };
    lemma_runners(a2, exported_words(c1), c.push, c.ip, c.start, c1.token("RUN-WORD"));
}


/// The link cell of the entry whose bytes are `bytes` (`NAME>BACKWORD`): the
/// cell after the length byte and the padded name.
pub open spec fn entry_link(bytes: Seq<u8>) -> i32 {
    let h = header_len(bytes[0] as int);
    cell_value(bytes.subrange(h - 8, h - 4))
}

/// The link cell of the entry placed at `address` in the module's data.
pub open spec fn link_at(data: Seq<DataSpec>, address: i32) -> i32 {
    let k = choose|k: int| 0 <= k < data.len() && data[k].offset == address;
    entry_link(data[k].bytes)
}

/// Some data segment is placed at `address`.
pub open spec fn has_entry_at(data: Seq<DataSpec>, address: i32) -> bool {
    exists|k: int| 0 <= k < data.len() && #[trigger] data[k].offset == address
}

/// `hs` are the addresses of the entries of `c`'s dictionary, oldest first:
/// they increase and lie between `DICTIONARY_BASE` and the dictionary's end,
/// the newest is `latest_address` (0 for an empty dictionary), an entry is
/// placed at each, whose link cell holds the address of the entry before it
/// (0 for the oldest), and nothing is placed at or beyond the dictionary's
/// end.
pub open spec fn linked_entries(c: CompilerSpec, hs: Seq<i32>) -> bool {
    &&& c.latest_address == (if hs.len() == 0 { 0i32 } else { hs.last() })
    &&& forall|i: int| 0 <= i < hs.len() ==> DICTIONARY_BASE <= #[trigger] hs[i] < c.cp
    &&& forall|i: int, j: int| 0 <= i < j < hs.len() ==> #[trigger] hs[i] < #[trigger] hs[j]
    &&& forall|k: int| 0 <= k < c.assembler.data.len() ==> (#[trigger] c.assembler.data[k]).offset < c.cp
    &&& forall|i: int| 0 <= i < hs.len() ==> has_entry_at(c.assembler.data, #[trigger] hs[i])
    &&& forall|i: int, k: int|
        0 <= i < hs.len() && 0 <= k < c.assembler.data.len() && #[trigger] c.assembler.data[k].offset
            == #[trigger] hs[i] ==> entry_link(c.assembler.data[k].bytes) == (if i == 0 {
            0i32
        } else {
            hs[i - 1]
        })
}

/// The addresses met by following at most `n` link cells from `address`,
/// stopping at 0.
pub open spec fn back_links(data: Seq<DataSpec>, address: i32, n: nat) -> Seq<i32>
    decreases n,
{
    if n == 0 || address == 0 {
        seq![]
    } else {
        seq![address] + back_links(data, link_at(data, address), (n - 1) as nat)
    }
}

/// An empty dictionary is linked: it has no entries and `latest_address` is 0.
pub proof fn lemma_empty_dictionary_linked(c: CompilerSpec)
    requires
        c.latest_address == 0,
        c.assembler.data.len() == 0,
    ensures
        linked_entries(c, seq![]),
{
}

/// Changing the module but not its data (adding functions, table slots,
/// globals, imports or exports) keeps the dictionary linked.
pub proof fn lemma_module_change_keeps_chain(c: CompilerSpec, hs: Seq<i32>, a: AssemblerSpec)
    requires
        linked_entries(c, hs),
        a.data == c.assembler.data,
    ensures
        linked_entries(CompilerSpec { assembler: a, ..c }, hs),
{
}

/// Law (back-link chain): adding an entry at the end of a linked dictionary
/// links the new entry to the previous newest one and makes it the newest, so
/// the dictionary stays linked with the new entry's address appended.
#[verifier::rlimit(40)]
pub proof fn lemma_entry_extends_chain(
    c: CompilerSpec,
    hs: Seq<i32>,
    label: Seq<char>,
    code: u32,
    parameter: Seq<u8>,
)
    requires
        linked_entries(c, hs),
        DICTIONARY_BASE <= c.cp,
        c.cp % 4 == 0,
        vstd::utf8::encode_utf8(label).len() < 256,
        c.cp + header_len(vstd::utf8::encode_utf8(label).len() as int) + parameter.len() <= i32::MAX,
    ensures
        linked_entries(c.with_entry(label, code, parameter), hs.push(c.cp)),
{
    reveal(CompilerSpec::with_entry);
    let name = vstd::utf8::encode_utf8(label);
    let bytes = entry_bytes(name, c.latest_address, code, parameter);
    lemma_entry_layout(c.cp, name, c.latest_address, code, parameter);
    crate::layout::lemma_le32(c.latest_address);
    let d = c.with_entry(label, code, parameter);
    let gs = hs.push(c.cp);
    assert(d.cp == c.cp + bytes.len());
    assert(bytes[0] as int == name.len());
    assert(entry_link(bytes) == c.latest_address);
    let n = c.assembler.data.len() as int;
    assert(d.assembler.data == c.assembler.data.push(DataSpec { offset: c.cp, bytes }));
    assert forall|i: int| 0 <= i < gs.len() implies has_entry_at(d.assembler.data, #[trigger] gs[i]) by {
        if i < hs.len() {
            let k = choose|k: int| 0 <= k < c.assembler.data.len() && #[trigger] c.assembler.data[k].offset == hs[i];
            assert(d.assembler.data[k].offset == gs[i]);
        } else {
            assert(d.assembler.data[n].offset == gs[i]);
        }
    }
    assert forall|i: int, k: int|
        0 <= i < gs.len() && 0 <= k < d.assembler.data.len() && #[trigger] d.assembler.data[k].offset
            == #[trigger] gs[i] implies entry_link(d.assembler.data[k].bytes) == (if i == 0 {
            0i32
        } else {
            gs[i - 1]
        }) by {
        if k == n {
            if i < hs.len() {
                assert(hs[i] < c.cp);
            }
            assert(i == hs.len());
        } else {
            assert(d.assembler.data[k] == c.assembler.data[k]);
            assert(c.assembler.data[k].offset < c.cp);
        }
    }
}

/// The link cell of the entry at `hs[j]` holds the address of the entry
/// before it, or 0.
proof fn lemma_link_at(c: CompilerSpec, hs: Seq<i32>, j: int)
    requires
        linked_entries(c, hs),
        0 <= j < hs.len(),
    ensures
        link_at(c.assembler.data, hs[j]) == (if j == 0 { 0i32 } else { hs[j - 1] }),
        hs[j] != 0,
{
    let data = c.assembler.data;
    assert(has_entry_at(data, hs[j]));
    let k = choose|k: int| 0 <= k < data.len() && data[k].offset == hs[j];
    assert(entry_link(data[k].bytes) == (if j == 0 { 0i32 } else { hs[j - 1] }));
}

/// Following the links from the entry at `hs[j]` meets it and every older
/// entry, newest first, then reaches 0.
proof fn lemma_walk_from(c: CompilerSpec, hs: Seq<i32>, j: int)
    requires
        linked_entries(c, hs),
        0 <= j < hs.len(),
    ensures
        back_links(c.assembler.data, hs[j], (j + 2) as nat) == hs.take(j + 1).reverse(),
    decreases j,
{
    let data = c.assembler.data;
    lemma_link_at(c, hs, j);
    if j == 0 {
        assert(back_links(data, 0, 1) == Seq::<i32>::empty());
        assert(hs.take(1).reverse() =~= seq![hs[0]]);
    } else {
        lemma_walk_from(c, hs, j - 1);
        assert(hs.take(j + 1).reverse() =~= seq![hs[j]] + hs.take(j).reverse());
    }
}

/// Law (back-link walk): in a linked dictionary, following the link cells
/// from `latest_address` meets every entry exactly once, newest first, and
/// then reaches 0.
pub proof fn lemma_back_links(c: CompilerSpec, hs: Seq<i32>)
    requires
        linked_entries(c, hs),
    ensures
        back_links(c.assembler.data, c.latest_address, hs.len() + 1) == hs.reverse(),
{
    if hs.len() == 0 {
        assert(hs.reverse() =~= Seq::<i32>::empty());
    } else {
        lemma_walk_from(c, hs, hs.len() - 1);
        assert(hs.take(hs.len() as int) =~= hs);
    }
}

} // verus!
