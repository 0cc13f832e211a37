//! The slot address calculator: where a declared field lives in storage.
//!
//! Scalars sit at their declared slot number. A mapping entry sits at the
//! hash of the key's 32-byte encoding followed by the base slot's 32-byte
//! encoding; multi-level mappings apply the rule recursively. A dynamic
//! array's data begins at the hash of the declared slot's encoding, one
//! fixed-size stride per element.

use vstd::prelude::*;

verus! {

use vstd::arithmetic::div_mod::lemma_small_mod;
use crate::bytes::{word_bytes, word_of_bytes, push_word_be};
use crate::keccak::{keccak_of, keccak_word};
use crate::word::{Word, p256, lemma_as_nat_bound};

/// The slot of the entry at `key` of the mapping declared at `base`.
pub open spec fn spec_mapping_slot(key: Word, base: Word) -> Word {
    word_of_bytes(keccak_of(word_bytes(key) + word_bytes(base)))
}

/// The slot where a dynamic array declared at `declared_slot` keeps its
/// first element.
pub open spec fn spec_array_base_slot(declared_slot: Word) -> Word {
    word_of_bytes(keccak_of(word_bytes(declared_slot)))
}

/// The slot of element `index` of a dynamic array declared at
/// `declared_slot`, each element `slots_per_element` words wide.
pub open spec fn spec_array_element_slot(declared_slot: Word, index: nat, slots_per_element: nat) -> nat {
    (spec_array_base_slot(declared_slot).as_nat() + index * slots_per_element) % p256()
}

/// Computes the slot of the mapping entry at `key`, for the mapping declared
/// at slot `base`.
pub fn mapping_slot(key: Word, base: Word) -> (r: Word)
    ensures
        r == spec_mapping_slot(key, base),
{
    let mut buf: Vec<u8> = Vec::new();
    push_word_be(&mut buf, key);
    push_word_be(&mut buf, base);
    keccak_word(&buf)
}

/// Computes the slot of the first element of the dynamic array declared at
/// slot `declared_slot`.
pub fn array_base_slot(declared_slot: Word) -> (r: Word)
    ensures
        r == spec_array_base_slot(declared_slot),
{
    let buf = declared_slot.to_be_bytes();
    keccak_word(&buf)
}

/// Computes the slot of element `index` of the dynamic array declared at
/// slot `declared_slot`, whose elements are `slots_per_element` words wide.
///
/// The offset arithmetic wraps modulo 2^256, as the target machine's does.
pub fn array_element_slot(declared_slot: Word, index: u64, slots_per_element: u64) -> (r: Word)
    requires
        index * slots_per_element <= u64::MAX,
    ensures
        r.as_nat() == spec_array_element_slot(
            declared_slot,
            index as nat,
            slots_per_element as nat,
        ),
{
    let base = array_base_slot(declared_slot);
    let offset = index * slots_per_element;
    base.wrapping_add(Word::from_u64(offset))
}

/// The slot of a mapping entry depends on the key and base slot alone: equal
/// keys at an equal base always resolve to the identical slot.
pub proof fn lemma_mapping_slot_deterministic(base: Word, k1: Word, k2: Word)
    requires
        k1 == k2,
    ensures
        spec_mapping_slot(k1, base) == spec_mapping_slot(k2, base),
{
}

/// The slot of a dynamic array's element at index 0 is exactly the hash of
/// the declared slot's 32-byte encoding.
pub proof fn lemma_array_element_slot_zero(declared_slot: Word, slots_per_element: nat)
    ensures
        spec_array_element_slot(declared_slot, 0, slots_per_element)
            == spec_array_base_slot(declared_slot).as_nat(),
{
    let base = spec_array_base_slot(declared_slot);
    lemma_as_nat_bound(base);
    lemma_small_mod(base.as_nat(), p256());
}

/// The slot of a dynamic array's element at index `i` is the element-0 slot
/// advanced by `i` strides, modulo 2^256.
pub proof fn lemma_array_element_slot_stride(declared_slot: Word, index: nat, slots_per_element: nat)
    ensures
        spec_array_element_slot(declared_slot, index, slots_per_element)
            == (spec_array_element_slot(declared_slot, 0, slots_per_element)
                + index * slots_per_element) % p256(),
{
    lemma_array_element_slot_zero(declared_slot, slots_per_element);
}

} // verus!
