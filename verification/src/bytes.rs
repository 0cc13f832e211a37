//! Big-endian byte encodings of storage words.
//!
//! Storage slots of compound fields are derived by hashing fixed-width
//! big-endian encodings; this module gives the canonical 32-byte encoding of
//! a [`Word`] and its inverse, each pinned to a spec-level counterpart.

use vstd::prelude::*;

verus! {

use crate::word::Word;

/// The eight big-endian bytes of a 64-bit value.
pub open spec fn u64_be(x: u64) -> Seq<u8> {
    seq![
        ((x / 0x100_0000_0000_0000) % 0x100) as u8,
        ((x / 0x1_0000_0000_0000) % 0x100) as u8,
        ((x / 0x100_0000_0000) % 0x100) as u8,
        ((x / 0x1_0000_0000) % 0x100) as u8,
        ((x / 0x100_0000) % 0x100) as u8,
        ((x / 0x1_0000) % 0x100) as u8,
        ((x / 0x100) % 0x100) as u8,
        (x % 0x100) as u8,
    ]
}

/// The 64-bit value read big-endian from eight bytes of `s` starting at `i`.
pub open spec fn be_u64(s: Seq<u8>, i: int) -> nat {
    (s[i] * 0x100_0000_0000_0000
        + s[i + 1] * 0x1_0000_0000_0000
        + s[i + 2] * 0x100_0000_0000
        + s[i + 3] * 0x1_0000_0000
        + s[i + 4] * 0x100_0000
        + s[i + 5] * 0x1_0000
        + s[i + 6] * 0x100
        + s[i + 7]) as nat
}

/// The canonical 32-byte big-endian encoding of a word.
pub open spec fn word_bytes(w: Word) -> Seq<u8> {
    u64_be(w.l3) + u64_be(w.l2) + u64_be(w.l1) + u64_be(w.l0)
}

/// The word read big-endian from a 32-byte sequence.
pub open spec fn word_of_bytes(s: Seq<u8>) -> Word
    recommends
        s.len() == 32,
{
    Word {
        l3: be_u64(s, 0) as u64,
        l2: be_u64(s, 8) as u64,
        l1: be_u64(s, 16) as u64,
        l0: be_u64(s, 24) as u64,
    }
}

/// Reassembling the eight big-endian bytes of a value gives the value back.
pub proof fn lemma_u64_bytes_roundtrip(x: u64)
    by (bit_vector)
    ensures
        (x / 0x100_0000_0000_0000) % 0x100 * 0x100_0000_0000_0000
            + (x / 0x1_0000_0000_0000) % 0x100 * 0x1_0000_0000_0000
            + (x / 0x100_0000_0000) % 0x100 * 0x100_0000_0000
            + (x / 0x1_0000_0000) % 0x100 * 0x1_0000_0000
            + (x / 0x100_0000) % 0x100 * 0x100_0000
            + (x / 0x1_0000) % 0x100 * 0x1_0000
            + (x / 0x100) % 0x100 * 0x100
            + x % 0x100 == x,
{
}

/// Decoding an encoded word gives the word back.
#[verifier::rlimit(100)]
#[verifier::spinoff_prover]
pub proof fn lemma_word_bytes_roundtrip(w: Word)
    ensures
        word_of_bytes(word_bytes(w)) == w,
{
    let s = word_bytes(w);
    assert(forall|j: int| 0 <= j < 8 ==> s[j] == #[trigger] u64_be(w.l3)[j]
        && s[j + 8] == u64_be(w.l2)[j] && s[j + 16] == u64_be(w.l1)[j] && s[j + 24] == u64_be(
        w.l0,
    )[j]);
    assert(be_u64(s, 0) == w.l3) by {
        lemma_u64_bytes_roundtrip(w.l3);
    }
    assert(be_u64(s, 8) == w.l2) by {
        lemma_u64_bytes_roundtrip(w.l2);
    }
    assert(be_u64(s, 16) == w.l1) by {
        lemma_u64_bytes_roundtrip(w.l1);
    }
    assert(be_u64(s, 24) == w.l0) by {
        lemma_u64_bytes_roundtrip(w.l0);
    }
}

/// Appends the eight big-endian bytes of `x`.
pub fn push_u64_be(out: &mut Vec<u8>, x: u64)
    ensures
        final(out)@ == old(out)@ + u64_be(x),
{
    out.push((x / 0x100_0000_0000_0000) as u8);
    out.push(((x / 0x1_0000_0000_0000) % 0x100) as u8);
    out.push(((x / 0x100_0000_0000) % 0x100) as u8);
    out.push(((x / 0x1_0000_0000) % 0x100) as u8);
    out.push(((x / 0x100_0000) % 0x100) as u8);
    out.push(((x / 0x1_0000) % 0x100) as u8);
    out.push(((x / 0x100) % 0x100) as u8);
    out.push((x % 0x100) as u8);
    proof {
        assert(final(out)@ =~= old(out)@ + u64_be(x));
    }
}

/// Appends the canonical 32-byte big-endian encoding of `w`.
pub fn push_word_be(out: &mut Vec<u8>, w: Word)
    ensures
        final(out)@ == old(out)@ + word_bytes(w),
{
    push_u64_be(out, w.l3);
    push_u64_be(out, w.l2);
    push_u64_be(out, w.l1);
    push_u64_be(out, w.l0);
    proof {
        assert(final(out)@ =~= old(out)@ + word_bytes(w));
    }
}

impl Word {
    /// The canonical 32-byte big-endian encoding.
    pub fn to_be_bytes(&self) -> (r: Vec<u8>)
        ensures
            r@ == word_bytes(*self),
    {
        let mut out: Vec<u8> = Vec::new();
        push_word_be(&mut out, *self);
        proof {
            assert(out@ =~= word_bytes(*self));
        }
        out
    }

    /// The word stored big-endian in a 32-byte sequence.
    pub fn from_be_bytes(bytes: &Vec<u8>) -> (r: Word)
        requires
            bytes@.len() == 32,
        ensures
            r == word_of_bytes(bytes@),
    {
        let l3 = u64_from_be(bytes, 0);
        let l2 = u64_from_be(bytes, 8);
        let l1 = u64_from_be(bytes, 16);
        let l0 = u64_from_be(bytes, 24);
        Word { l0, l1, l2, l3 }
    }
}

/// Reads a 64-bit value big-endian from eight bytes of `bytes` starting at `i`.
fn u64_from_be(bytes: &Vec<u8>, i: usize) -> (r: u64)
    requires
        i + 8 <= bytes@.len(),
        bytes@.len() == 32,
    ensures
        r == be_u64(bytes@, i as int),
{
    (bytes[i] as u64) * 0x100_0000_0000_0000
        + (bytes[i + 1] as u64) * 0x1_0000_0000_0000
        + (bytes[i + 2] as u64) * 0x100_0000_0000
        + (bytes[i + 3] as u64) * 0x1_0000_0000
        + (bytes[i + 4] as u64) * 0x100_0000
        + (bytes[i + 5] as u64) * 0x1_0000
        + (bytes[i + 6] as u64) * 0x100
        + (bytes[i + 7] as u64)
}


/// The four big-endian bytes of a 32-bit value.
pub open spec fn u32_be(x: u32) -> Seq<u8> {
    seq![
        ((x / 0x100_0000) % 0x100) as u8,
        ((x / 0x1_0000) % 0x100) as u8,
        ((x / 0x100) % 0x100) as u8,
        (x % 0x100) as u8,
    ]
}

/// The three big-endian bytes of a 24-bit value.
pub open spec fn u24_be(x: nat) -> Seq<u8>
    recommends
        x < 0x100_0000,
{
    seq![((x / 0x1_0000nat) % 0x100nat) as u8, ((x / 0x100nat) % 0x100nat) as u8, (x % 0x100nat) as u8]
}

/// Appends the four big-endian bytes of `x`.
pub fn push_u32_be(out: &mut Vec<u8>, x: u32)
    ensures
        final(out)@ == old(out)@ + u32_be(x),
{
    out.push((x / 0x100_0000) as u8);
    out.push(((x / 0x1_0000) % 0x100) as u8);
    out.push(((x / 0x100) % 0x100) as u8);
    out.push((x % 0x100) as u8);
    proof {
        assert(final(out)@ =~= old(out)@ + u32_be(x));
    }
}

/// Appends the three big-endian bytes of a 24-bit value.
pub fn push_u24_be(out: &mut Vec<u8>, x: u64)
    requires
        x < 0x100_0000,
    ensures
        final(out)@ == old(out)@ + u24_be(x as nat),
{
    out.push((x / 0x1_0000) as u8);
    out.push(((x / 0x100) % 0x100) as u8);
    out.push((x % 0x100) as u8);
    proof {
        assert(final(out)@ =~= old(out)@ + u24_be(x as nat));
    }
}

} // verus!
