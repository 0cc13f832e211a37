//! The 256-bit cryptographic hash that locates compound storage fields.
//!
//! The digest itself is computed by an outside crate; this module names its
//! result so that every slot derivation can be stated exactly over it.

use vstd::prelude::*;

verus! {

use crate::bytes::word_of_bytes;
use crate::word::Word;

/// The 32-byte Keccak-256 digest of a byte string. The digest is a pure
/// function of the bytes; nothing further is assumed of it.
pub uninterp spec fn keccak_of(input: Seq<u8>) -> Seq<u8>;

/// Relies on `alloy_primitives::keccak256`: the Keccak-256 digest, 32 bytes,
/// depending on the input bytes alone.
#[verifier::external_body]
fn keccak256_raw(input: &Vec<u8>) -> (r: Vec<u8>)
    ensures
        r@ == keccak_of(input@),
        r@.len() == 32,
{
    alloy_primitives::keccak256(input.as_slice()).0.to_vec()
}

/// The Keccak-256 digest of `input`, read as a storage word.
pub fn keccak_word(input: &Vec<u8>) -> (r: Word)
    ensures
        r == word_of_bytes(keccak_of(input@)),
{
    let digest = keccak256_raw(input);
    Word::from_be_bytes(&digest)
}

} // verus!
