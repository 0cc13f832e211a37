//! The pool and position key deriver.
//!
//! A pool is named by the hash of its key's canonical five-word encoding; a
//! position is named by the hash of the packed encoding of its manager, tick
//! bounds and token id. Both are pure functions of their inputs, so equal
//! parameters always derive the identical identifier.

use vstd::prelude::*;

verus! {

use crate::bytes::{push_u24_be, push_word_be, u24_be, word_bytes, word_of_bytes};
use crate::keccak::{keccak_of, keccak_word};
use crate::types::{push_address_be, spec_tick_word, tick_in_range, tick_to_u24, tick_to_word, tick_u24, Address};
use crate::word::Word;

/// A pool's identity: its two currencies in ascending order, its fee in
/// parts per million, its tick spacing, and its hook contract.
///
/// That `currency0 < currency1` is an invariant of the surrounding protocol,
/// assumed and not enforced here.
#[derive(Clone, Copy, Debug, PartialEq, Eq, Structural, Hash)]
pub struct PoolKey {
    pub currency0: Address,
    pub currency1: Address,
    pub fee: u32,
    pub tick_spacing: i32,
    pub hooks: Address,
}

/// The fee fits 24 bits and the tick spacing the signed 24-bit range.
pub open spec fn pool_key_valid(k: PoolKey) -> bool {
    k.fee < 0x100_0000 && tick_in_range(k.tick_spacing as int)
}

/// The canonical five-word encoding of a pool key: each constituent widened
/// to a full 32-byte word, the tick spacing in two's complement.
pub open spec fn spec_pool_key_encoding(k: PoolKey) -> Seq<u8> {
    word_bytes(k.currency0.spec_word()) + word_bytes(k.currency1.spec_word()) + word_bytes(
        Word { l0: k.fee as u64, l1: 0, l2: 0, l3: 0 },
    ) + word_bytes(spec_tick_word(k.tick_spacing as int)) + word_bytes(k.hooks.spec_word())
}


/// The pool identifier: the hash of the key's canonical encoding.
pub open spec fn spec_pool_id(k: PoolKey) -> Word {
    word_of_bytes(keccak_of(spec_pool_key_encoding(k)))
}

/// The packed encoding of a position: 20 bytes of manager address, the two
/// tick bounds as three-byte two's-complement values, and the 32-byte token
/// id.
pub open spec fn spec_position_key_encoding(
    manager: Address,
    token_id: Word,
    tick_lower: int,
    tick_upper: int,
) -> Seq<u8> {
    manager.spec_bytes() + u24_be(tick_u24(tick_lower)) + u24_be(tick_u24(tick_upper))
        + word_bytes(token_id)
}

/// The position identifier: the hash of the packed position encoding.
pub open spec fn spec_position_key(
    manager: Address,
    token_id: Word,
    tick_lower: int,
    tick_upper: int,
) -> Word {
    word_of_bytes(keccak_of(spec_position_key_encoding(manager, token_id, tick_lower, tick_upper)))
}

/// Derives the pool identifier from a pool key.
pub fn pool_id(k: &PoolKey) -> (r: Word)
    requires
        pool_key_valid(*k),
    ensures
        r == spec_pool_id(*k),
{
    let mut buf: Vec<u8> = Vec::new();
    push_word_be(&mut buf, k.currency0.to_word());
    push_word_be(&mut buf, k.currency1.to_word());
    push_word_be(&mut buf, Word::from_u64(k.fee as u64));
    push_word_be(&mut buf, tick_to_word(k.tick_spacing));
    push_word_be(&mut buf, k.hooks.to_word());
    proof {
        assert(buf@ =~= spec_pool_key_encoding(*k));
    }
    keccak_word(&buf)
}

/// Derives the position identifier from the manager address, token id and
/// tick bounds.
pub fn position_key(manager: &Address, token_id: Word, tick_lower: i32, tick_upper: i32) -> (r:
    Word)
    requires
        tick_in_range(tick_lower as int),
        tick_in_range(tick_upper as int),
    ensures
        r == spec_position_key(*manager, token_id, tick_lower as int, tick_upper as int),
{
    let mut buf: Vec<u8> = Vec::new();
    push_address_be(&mut buf, manager);
    push_u24_be(&mut buf, tick_to_u24(tick_lower));
    push_u24_be(&mut buf, tick_to_u24(tick_upper));
    push_word_be(&mut buf, token_id);
    proof {
        assert(buf@ =~= spec_position_key_encoding(
            *manager,
            token_id,
            tick_lower as int,
            tick_upper as int,
        ));
    }
    keccak_word(&buf)
}

/// Determinism law: pool identifiers are a function of the key alone; equal
/// keys always hash to the identical pool id.
pub proof fn lemma_pool_id_deterministic(k1: PoolKey, k2: PoolKey)
    requires
        k1 == k2,
    ensures
        spec_pool_id(k1) == spec_pool_id(k2),
{
}

/// Determinism law: position identifiers are a function of the manager,
/// token id and tick bounds alone.
pub proof fn lemma_position_key_deterministic(
    m1: Address,
    t1: Word,
    lo1: int,
    up1: int,
    m2: Address,
    t2: Word,
    lo2: int,
    up2: int,
)
    requires
        m1 == m2,
        t1 == t2,
        lo1 == lo2,
        up1 == up2,
    ensures
        spec_position_key(m1, t1, lo1, up1) == spec_position_key(m2, t2, lo2, up2),
{
}

} // verus!
