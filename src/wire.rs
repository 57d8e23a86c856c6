//! Little-endian 32-bit words: the unit every field of the file is made of.
use vstd::prelude::*;
use byteorder::{ByteOrder, LittleEndian};

verus! {

/// The value of four bytes read least significant first.
pub open spec fn le_u32(b: Seq<u8>) -> u32
    recommends
        b.len() >= 4,
{
    (b[0] as u32) | ((b[1] as u32) << 8) | ((b[2] as u32) << 16) | ((b[3] as u32) << 24)
}

/// The four bytes of `n`, least significant first.
pub open spec fn le_bytes(n: u32) -> Seq<u8> {
    seq![(n & 0xff) as u8, ((n >> 8) & 0xff) as u8, ((n >> 16) & 0xff) as u8, ((n >> 24) & 0xff) as u8]
}

/// The `i`-th 32-bit word of a byte string.
pub open spec fn word_at(b: Seq<u8>, i: int) -> u32 {
    le_u32(b.subrange(4 * i, 4 * i + 4))
}

/// A sequence of words laid out one after the other, each little-endian.
pub open spec fn words_to_bytes(ws: Seq<u32>) -> Seq<u8>
    decreases ws.len(),
{
    if ws.len() == 0 {
        Seq::empty()
    } else {
        words_to_bytes(ws.drop_last()) + le_bytes(ws.last())
    }
}

/// Reading back the bytes of a word gives the word.
pub proof fn lemma_le_round_trip(n: u32)
    ensures
        le_u32(le_bytes(n)) == n,
{
    let b = le_bytes(n);
    let b0 = b[0] as u32;
    let b1 = b[1] as u32;
    let b2 = b[2] as u32;
    let b3 = b[3] as u32;
    assert(b0 == n & 0xff && b1 == (n >> 8) & 0xff && b2 == (n >> 16) & 0xff && b3 == (n >> 24)
        & 0xff) by {
        assert(((n & 0xff) as u8) as u32 == n & 0xff) by (bit_vector);
        assert((((n >> 8) & 0xff) as u8) as u32 == (n >> 8) & 0xff) by (bit_vector);
        assert((((n >> 16) & 0xff) as u8) as u32 == (n >> 16) & 0xff) by (bit_vector);
        assert((((n >> 24) & 0xff) as u8) as u32 == (n >> 24) & 0xff) by (bit_vector);
    }
    assert(n == (n & 0xff) | (((n >> 8) & 0xff) << 8) | (((n >> 16) & 0xff) << 16) | (((n >> 24)
        & 0xff) << 24)) by (bit_vector);
}

pub proof fn lemma_words_to_bytes_len(ws: Seq<u32>)
    ensures
        words_to_bytes(ws).len() == 4 * ws.len(),
    decreases ws.len(),
{
    if ws.len() > 0 {
        lemma_words_to_bytes_len(ws.drop_last());
    }
}

/// Laying out two sequences of words one after the other lays out their concatenation.
pub proof fn lemma_words_to_bytes_append(a: Seq<u32>, b: Seq<u32>)
    ensures
        words_to_bytes(a + b) == words_to_bytes(a) + words_to_bytes(b),
    decreases b.len(),
{
    if b.len() == 0 {
        assert(a + b =~= a);
        assert(words_to_bytes(a) + words_to_bytes(b) =~= words_to_bytes(a));
    } else {
        assert((a + b).drop_last() =~= a + b.drop_last());
        lemma_words_to_bytes_append(a, b.drop_last());
        assert(words_to_bytes(a + b) =~= words_to_bytes(a) + words_to_bytes(b));
    }
}

/// Each word of a laid-out sequence reads back as itself, whatever follows it.
pub proof fn lemma_word_at_words(ws: Seq<u32>, rest: Seq<u8>, i: int)
    requires
        0 <= i < ws.len(),
    ensures
        word_at(words_to_bytes(ws) + rest, i) == ws[i],
    decreases ws.len(),
{
    let init = ws.drop_last();
    lemma_words_to_bytes_len(ws);
    lemma_words_to_bytes_len(init);
    let tail = le_bytes(ws.last()) + rest;
    assert(words_to_bytes(ws) + rest =~= words_to_bytes(init) + tail);
    if i == ws.len() - 1 {
        assert((words_to_bytes(ws) + rest).subrange(4 * i, 4 * i + 4) =~= le_bytes(ws.last()));
        lemma_le_round_trip(ws.last());
    } else {
        lemma_word_at_words(init, tail, i);
    }
}

/// Relies on byteorder's `LittleEndian::read_u32`, which reads the first four bytes of its
/// argument least significant first.
#[verifier::external_body]
fn read_u32_le(bytes: &[u8], pos: usize) -> (r: u32)
    requires
        pos + 4 <= bytes@.len(),
    ensures
        r == le_u32(bytes@.subrange(pos as int, pos + 4)),
{
    LittleEndian::read_u32(&bytes[pos..])
}

/// Relies on byteorder's `LittleEndian::write_u32`, which stores `n` least significant byte
/// first in the first four bytes of its buffer.
#[verifier::external_body]
fn u32_to_le(n: u32) -> (r: [u8; 4])
    ensures
        r@ == le_bytes(n),
{
    let mut buf = [0u8; 4];
    LittleEndian::write_u32(&mut buf, n);
    buf
}

/// The `i`-th word of `bytes`.
pub fn read_word(bytes: &[u8], i: usize) -> (r: u32)
    requires
        4 * i + 4 <= bytes@.len(),
    ensures
        r == word_at(bytes@, i as int),
{
    assert(bytes@.len() == bytes.len());
    read_u32_le(bytes, 4 * i)
}

/// Appends the little-endian bytes of each word to `out`.
pub fn push_words(out: &mut Vec<u8>, ws: &[u32])
    ensures
        final(out)@ == old(out)@ + words_to_bytes(ws@),
{
    let mut i: usize = 0;
    while i < ws.len()
        invariant
            i <= ws@.len(),
            out@ == old(out)@ + words_to_bytes(ws@.take(i as int)),
        decreases ws@.len() - i,
    {
        let b = u32_to_le(ws[i]);
        out.push(b[0]);
        out.push(b[1]);
        out.push(b[2]);
        out.push(b[3]);
        assert(ws@.take(i + 1).drop_last() =~= ws@.take(i as int));
        assert(out@ =~= old(out)@ + words_to_bytes(ws@.take(i + 1)));
        i += 1;
    }
    assert(ws@.take(i as int) =~= ws@);
}

} // verus!
