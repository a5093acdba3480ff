//! Byte-level building blocks of the dictionary images the compilers lay out:
//! little-endian cells, address arithmetic on 32-bit WebAssembly addresses,
//! and 4-byte alignment.
use vstd::prelude::*;
use vstd::bytes::{spec_u32_from_le_bytes, spec_u32_to_le_bytes, u32_to_le_bytes};

verus! {

/// 32-bit two's-complement addition, as WebAssembly addresses and the
/// compilers' `i32` bookkeeping wrap.
pub open spec fn add32(a: i32, b: i32) -> i32 {
    vstd::wrapping::i32_specs::wrapping_add(a, b)
}

/// 32-bit two's-complement subtraction.
pub open spec fn sub32(a: i32, b: i32) -> i32 {
    vstd::wrapping::i32_specs::wrapping_sub(a, b)
}

/// Adding in two steps is adding the sum, when the sum of the two steps fits.
pub proof fn lemma_add32_add(a: i32, b: i32, c: i32)
    requires
        i32::MIN <= b + c <= i32::MAX,
    ensures
        add32(add32(a, b), c) == add32(a, (b + c) as i32),
{
}

/// Wrapping addition and subtraction keep remainders modulo 4: the result
/// wraps by `2^32`.
pub proof fn lemma_wrapping_mod4(a: i32, b: i32)
    ensures
        add32(a, b) % 4 == (a + b) % 4,
        sub32(a, b) % 4 == (a - b) % 4,
{
}

/// A length cast to `i32` keeps its remainder modulo 4.
pub proof fn lemma_len_cast_mod4(len: usize)
    ensures
        (len as i32) % 4 == len % 4,
{
    assert(((len as i32) & 3) == ((len & 3) as i32)) by (bit_vector);
    let x = len as i32;
    assert((x & 3) as int == x % 4) by (bit_vector);
    assert((len & 3) as int == len % 4) by (bit_vector);
}

/// The four bytes of a cell holding `v`, least significant first.
pub open spec fn le32(v: i32) -> Seq<u8> {
    spec_u32_to_le_bytes(v as u32)
}

/// The value of the cell whose four bytes, least significant first, are `s`.
pub open spec fn cell_value(s: Seq<u8>) -> i32 {
    spec_u32_from_le_bytes(s) as i32
}

/// Law: a cell is four bytes long and reads back the value written into it.
pub proof fn lemma_le32(v: i32)
    ensures
        le32(v).len() == 4,
        cell_value(le32(v)) == v,
{
    vstd::bytes::lemma_auto_spec_u32_to_from_le_bytes();
    let x = v as u32;
    assert(spec_u32_to_le_bytes(x).len() == 4);
    assert(spec_u32_from_le_bytes(spec_u32_to_le_bytes(x)) == x);
    assert(((v as u32) as i32) == v) by (bit_vector);
}

/// `n` zero bytes.
pub open spec fn zeros(n: int) -> Seq<u8> {
    Seq::new(n as nat, |i: int| 0u8)
}

/// Appends the bytes of `src` to `dst`.
pub fn push_bytes(dst: &mut Vec<u8>, src: &[u8])
    ensures
        final(dst)@ == old(dst)@ + src@,
{
    let mut i: usize = 0;
    while i < src.len()
        invariant
            i <= src@.len(),
            dst@ == old(dst)@ + src@.subrange(0, i as int),
        decreases src@.len() - i,
    {
        dst.push(src[i]);
        i = i + 1;
        assert(src@.subrange(0, i as int) == src@.subrange(0, i - 1).push(src@[i - 1]));
    }
    assert(src@.subrange(0, i as int) =~= src@);
}

/// Appends the cell holding `v` to `dst`.
pub fn push_cell(dst: &mut Vec<u8>, v: i32)
    ensures
        final(dst)@ == old(dst)@ + le32(v),
{
    let bytes = u32_to_le_bytes(v as u32);
    push_bytes(dst, bytes.as_slice());
}

/// Appends `n` zero bytes to `dst`.
pub fn push_zeros(dst: &mut Vec<u8>, n: usize)
    ensures
        final(dst)@ == old(dst)@ + zeros(n as int),
{
    let mut i: usize = 0;
    while i < n
        invariant
            i <= n,
            dst@ == old(dst)@ + zeros(i as int),
        decreases n - i,
    {
        dst.push(0u8);
        i = i + 1;
        assert(zeros(i as int) =~= zeros(i - 1).push(0u8));
    }
}

/// The number of bytes needed to bring `offset` up to a multiple of 4.
pub open spec fn padding(offset: i32) -> i32 {
    sub32(0, offset) & 3
}

/// `offset` rounded up to the next multiple of 4.
pub open spec fn aligned(offset: i32) -> i32 {
    add32(offset, padding(offset))
}

/// Rounding up gives a multiple of 4.
pub proof fn lemma_aligned_mod4(offset: i32)
    ensures
        aligned(offset) % 4 == 0,
{
    lemma_padding(offset);
    lemma_wrapping_mod4(offset, padding(offset));
}

/// A length byte and `n` name bytes, padded, take a multiple of 4 bytes, and
/// so does a header made of them and two cells.
pub proof fn lemma_name_field(n: usize)
    ensures
        (1 + n + padding(add32(1, n as i32))) % 4 == 0,
        add32(add32(aligned(add32(1, n as i32)), 4), 4) % 4 == 0,
{
    lemma_len_cast_mod4(n);
    lemma_wrapping_mod4(1, n as i32);
    lemma_padding(add32(1, n as i32));
    let a = aligned(add32(1, n as i32));
    lemma_aligned_mod4(add32(1, n as i32));
    lemma_wrapping_mod4(a, 4);
    lemma_wrapping_mod4(add32(a, 4), 4);
}

/// Moving a multiple of 4 by a length that is a multiple of 4 gives a
/// multiple of 4.
pub proof fn lemma_advance_aligned(cp: i32, len: usize)
    requires
        cp % 4 == 0,
        len % 4 == 0,
    ensures
        add32(cp, len as i32) % 4 == 0,
{
    lemma_len_cast_mod4(len);
    lemma_wrapping_mod4(cp, len as i32);
}

/// The cell 4 bytes before the end of an aligned header at an aligned
/// address is aligned.
pub proof fn lemma_cell_before_aligned(cp: i32, h: i32)
    requires
        cp % 4 == 0,
        h % 4 == 0,
    ensures
        sub32(add32(cp, h), 4) % 4 == 0,
{
    lemma_wrapping_mod4(cp, h);
    lemma_wrapping_mod4(add32(cp, h), 4);
}

/// Law: the padding of an offset is between 0 and 3 and brings the offset to
/// a multiple of 4; rounding up a non-negative offset that does not overflow
/// gives the least multiple of 4 at or above it.
pub proof fn lemma_padding(offset: i32)
    ensures
        0 <= padding(offset) < 4,
        (offset + padding(offset)) % 4 == 0,
        offset % 4 == 0 ==> padding(offset) == 0,
        0 <= offset <= i32::MAX - 3 ==> aligned(offset) == offset + padding(offset),
{
    let n = sub32(0, offset);
    assert(n as int == (if offset == i32::MIN { i32::MIN as int } else { -offset }));
    assert(0 <= n & 3 < 4) by (bit_vector);
    assert(((n & 3) as int) == (n as int) % 4) by (bit_vector);
}

/// The required padding of `offset`, computed as the compilers do: the low
/// two bits of its negation.
pub fn required_padding(offset: i32) -> (r: i32)
    ensures
        r == padding(offset),
{
    0i32.wrapping_sub(offset) & 3
}

/// `offset` rounded up to a multiple of 4.
pub fn align(offset: i32) -> (r: i32)
    ensures
        r == aligned(offset),
{
    offset.wrapping_add(required_padding(offset))
}

} // verus!
