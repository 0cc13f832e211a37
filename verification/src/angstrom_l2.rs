//! Storage queries against a per-pool Angstrom hook contract.
//!
//! The hook keeps its rewards in a mapping at slot 0 — a record of a
//! position mapping, a per-tick growth-outside mapping and a global
//! accumulator — its fee configuration in a mapping at slot 2, and the
//! registered pool keys in a dynamic array at slot 5, five words per
//! element.

use vstd::prelude::*;

verus! {

use vstd::arithmetic::div_mod::{lemma_fundamental_div_mod, lemma_mod_bound, lemma_mod_multiples_vanish};
use vstd::arithmetic::mul::lemma_mul_inequality;
use crate::codec::{pool_fee_configuration_valid, AngstromL2PoolFeeConfiguration};
use crate::fetcher::{StorageError, StorageSlotFetcherSync};
use crate::growth::growth_inside;
use crate::keys::{pool_key_valid, position_key, PoolKey};
use crate::slots::{array_element_slot, mapping_slot, spec_mapping_slot};
use crate::types::{tick_in_range, tick_to_word, Address};
use crate::word::Word;

/// Declared slot of the rewards mapping.
pub const ANGSTROM_L2_REWARDS_SLOT: u64 = 0;

/// Declared slot of the pool fee configuration mapping.
pub const ANGSTROM_L2_POOL_FEE_CONFIG_SLOT: u64 = 2;

/// Declared slot of the pool keys array.
pub const ANGSTROM_L2_POOL_KEYS_SLOT: u64 = 5;

/// Words per element of the pool keys array.
pub const POOL_KEY_SLOTS_PER_ELEMENT: u64 = 5;

/// The base slot of a pool's rewards record.
pub open spec fn spec_angstrom_l2_pool_rewards_slot(pool_id: Word) -> Word {
    spec_mapping_slot(pool_id, Word::spec_u64_word(ANGSTROM_L2_REWARDS_SLOT))
}

/// The slot of a position's accumulator: the rewards record's position
/// mapping resolved at the position key.
pub open spec fn spec_angstrom_l2_position_slot(pool_id: Word, pos_key: Word) -> Word {
    spec_mapping_slot(pos_key, spec_angstrom_l2_pool_rewards_slot(pool_id))
}

/// The slot of a pool's fee configuration.
pub open spec fn spec_angstrom_l2_pool_fee_config_slot(pool_id: Word) -> Word {
    spec_mapping_slot(pool_id, Word::spec_u64_word(ANGSTROM_L2_POOL_FEE_CONFIG_SLOT))
}

/// Computes the base slot of a pool's rewards record.
pub fn angstrom_l2_pool_rewards_slot(pool_id: Word) -> (r: Word)
    ensures
        r == spec_angstrom_l2_pool_rewards_slot(pool_id),
{
    mapping_slot(pool_id, Word::from_u64(ANGSTROM_L2_REWARDS_SLOT))
}

/// Computes the slot of a position's reward accumulator.
pub fn angstrom_l2_position_slot(pool_id: Word, pos_key: Word) -> (r: Word)
    ensures
        r == spec_angstrom_l2_position_slot(pool_id, pos_key),
{
    let rewards_pool_slot = angstrom_l2_pool_rewards_slot(pool_id);
    mapping_slot(pos_key, rewards_pool_slot)
}

/// Computes the slot of a pool's fee configuration.
pub fn angstrom_l2_pool_fee_config_slot(pool_id: Word) -> (r: Word)
    ensures
        r == spec_angstrom_l2_pool_fee_config_slot(pool_id),
{
    mapping_slot(pool_id, Word::from_u64(ANGSTROM_L2_POOL_FEE_CONFIG_SLOT))
}

/// Fetches a pool's global reward-growth accumulator, two words past the
/// rewards record's base.
pub fn angstrom_l2_global_growth<F: StorageSlotFetcherSync>(
    slot_fetcher: &F,
    hook_address: Address,
    pool_id: Word,
    block_number: Option<u64>,
) -> (r: Result<Word, StorageError>)
{
    let base = angstrom_l2_pool_rewards_slot(pool_id);
    let slot = base.wrapping_add(Word::from_u64(2));
    slot_fetcher.storage_at(hook_address, slot, block_number)
}

/// Fetches the growth-outside accumulator recorded at a boundary tick: the
/// per-tick mapping sits one word past the rewards record's base, keyed by
/// the tick's sign-extended word.
pub fn angstrom_l2_tick_growth_outside<F: StorageSlotFetcherSync>(
    slot_fetcher: &F,
    hook_address: Address,
    pool_id: Word,
    tick: i32,
    block_number: Option<u64>,
) -> (r: Result<Word, StorageError>)
    requires
        tick_in_range(tick as int),
{
    let base = angstrom_l2_pool_rewards_slot(pool_id);
    let tick_mapping_slot = base.wrapping_add(Word::from_u64(1));
    let tick_growth_slot = mapping_slot(tick_to_word(tick), tick_mapping_slot);
    slot_fetcher.storage_at(hook_address, tick_growth_slot, block_number)
}

/// Fetches the three accumulators bounding a position's range and combines
/// them into the reward growth strictly inside the range; any single read
/// failure fails the whole query.
pub fn angstrom_l2_growth_inside<F: StorageSlotFetcherSync>(
    slot_fetcher: &F,
    hook_address: Address,
    pool_id: Word,
    current_pool_tick: i32,
    tick_lower: i32,
    tick_upper: i32,
    block_number: Option<u64>,
) -> (r: Result<Word, StorageError>)
    requires
        tick_in_range(tick_lower as int),
        tick_in_range(tick_upper as int),
{
    let lower_growth = match angstrom_l2_tick_growth_outside(
        slot_fetcher,
        hook_address,
        pool_id,
        tick_lower,
        block_number,
    ) {
        Ok(w) => w,
        Err(e) => {
            return Err(e);
        },
    };
    let upper_growth = match angstrom_l2_tick_growth_outside(
        slot_fetcher,
        hook_address,
        pool_id,
        tick_upper,
        block_number,
    ) {
        Ok(w) => w,
        Err(e) => {
            return Err(e);
        },
    };
    let global_growth = match angstrom_l2_global_growth(
        slot_fetcher,
        hook_address,
        pool_id,
        block_number,
    ) {
        Ok(w) => w,
        Err(e) => {
            return Err(e);
        },
    };
    Ok(growth_inside(
        current_pool_tick,
        tick_lower,
        tick_upper,
        lower_growth,
        upper_growth,
        global_growth,
    ))
}

/// Fetches the accumulator a position last settled at.
pub fn angstrom_l2_last_growth_inside<F: StorageSlotFetcherSync>(
    slot_fetcher: &F,
    hook_address: Address,
    position_manager_address: Address,
    pool_id: Word,
    position_token_id: Word,
    tick_lower: i32,
    tick_upper: i32,
    block_number: Option<u64>,
) -> (r: Result<Word, StorageError>)
    requires
        tick_in_range(tick_lower as int),
        tick_in_range(tick_upper as int),
{
    let pos_key = position_key(
        &position_manager_address,
        position_token_id,
        tick_lower,
        tick_upper,
    );
    let slot = angstrom_l2_position_slot(pool_id, pos_key);
    slot_fetcher.storage_at(hook_address, slot, block_number)
}

/// Fetches and unpacks a pool's fee configuration. An uninitialized pool's
/// all-zero cell decodes to an uninitialized record with all fees zero.
pub fn angstrom_l2_pool_fee_config<F: StorageSlotFetcherSync>(
    slot_fetcher: &F,
    hook_address: Address,
    pool_id: Word,
    block_number: Option<u64>,
) -> (r: Result<AngstromL2PoolFeeConfiguration, StorageError>)
    ensures
        r matches Ok(c) ==> pool_fee_configuration_valid(c),
{
    let config_slot = angstrom_l2_pool_fee_config_slot(pool_id);
    let packed_config = match slot_fetcher.storage_at(hook_address, config_slot, block_number) {
        Ok(w) => w,
        Err(e) => {
            return Err(e);
        },
    };
    Ok(AngstromL2PoolFeeConfiguration::decode(packed_config))
}

/// Fetches whether a pool is initialized.
pub fn angstrom_l2_is_pool_initialized<F: StorageSlotFetcherSync>(
    slot_fetcher: &F,
    hook_address: Address,
    pool_id: Word,
    block_number: Option<u64>,
) -> (r: Result<bool, StorageError>)
{
    match angstrom_l2_pool_fee_config(slot_fetcher, hook_address, pool_id, block_number) {
        Ok(config) => Ok(config.is_initialized),
        Err(e) => Err(e),
    }
}

/// Fetches the total swap fee rate (creator plus protocol), in parts per
/// million.
pub fn angstrom_l2_total_swap_fee_rate_e6<F: StorageSlotFetcherSync>(
    slot_fetcher: &F,
    hook_address: Address,
    pool_id: Word,
    block_number: Option<u64>,
) -> (r: Result<u32, StorageError>)
    ensures
        r matches Ok(v) ==> v < 0x200_0000,
{
    match angstrom_l2_pool_fee_config(slot_fetcher, hook_address, pool_id, block_number) {
        Ok(config) => Ok(config.creator_swap_fee_e6 + config.protocol_swap_fee_e6),
        Err(e) => Err(e),
    }
}

/// Fetches the total tax fee rate (creator plus protocol), in parts per
/// million.
pub fn angstrom_l2_total_tax_fee_rate_e6<F: StorageSlotFetcherSync>(
    slot_fetcher: &F,
    hook_address: Address,
    pool_id: Word,
    block_number: Option<u64>,
) -> (r: Result<u32, StorageError>)
    ensures
        r matches Ok(v) ==> v < 0x200_0000,
{
    match angstrom_l2_pool_fee_config(slot_fetcher, hook_address, pool_id, block_number) {
        Ok(config) => Ok(config.creator_tax_fee_e6 + config.protocol_tax_fee_e6),
        Err(e) => Err(e),
    }
}

/// The signed reading of a 24-bit two's-complement value.
pub open spec fn sign24(v: nat) -> int
    recommends
        v < 0x100_0000,
{
    if v >= 0x80_0000 {
        v - 0x100_0000
    } else {
        v as int
    }
}

/// The pool key stored in five consecutive array words: two currency
/// addresses, the fee's low 24 bits, the tick spacing's sign-extended low
/// 24 bits, and the hook address.
pub open spec fn spec_pool_key_from_words(
    s0: Word,
    s1: Word,
    s2: Word,
    s3: Word,
    s4: Word,
) -> PoolKey {
    PoolKey {
        currency0: Address::spec_from_word(s0),
        currency1: Address::spec_from_word(s1),
        fee: (s2.as_nat() % 0x100_0000nat) as u32,
        tick_spacing: sign24(s3.as_nat() % 0x100_0000nat) as i32,
        hooks: Address::spec_from_word(s4),
    }
}

/// Decodes a pool key from the five words of its array element.
pub fn pool_key_from_words(s0: Word, s1: Word, s2: Word, s3: Word, s4: Word) -> (r: PoolKey)
    ensures
        r == spec_pool_key_from_words(s0, s1, s2, s3, s4),
        pool_key_valid(r),
{
    let fee_raw: u64 = s2.l0 % 0x100_0000;
    let ts_raw: u64 = s3.l0 % 0x100_0000;
    let tick_spacing: i32 = if ts_raw >= 0x80_0000 {
        (ts_raw as i32) - 0x100_0000
    } else {
        ts_raw as i32
    };
    proof {
        lemma_low24(s2);
        lemma_low24(s3);
    }
    PoolKey {
        currency0: Address::from_word(s0),
        currency1: Address::from_word(s1),
        fee: fee_raw as u32,
        tick_spacing,
        hooks: Address::from_word(s4),
    }
}

/// A word's value modulo 2^24 is its low limb's.
proof fn lemma_low24(w: Word)
    ensures
        w.as_nat() % 0x100_0000nat == w.l0 % 0x100_0000,
{
    let l0 = w.l0 as int;
    lemma_mod_multiples_vanish(
        w.l1 * 0x100_0000_0000 + w.l2 * 0x100_0000_0000_0000_0000_0000_0000
            + w.l3 * 0x100_0000_0000_0000_0000_0000_0000_0000_0000_0000_0000,
        l0,
        0x100_0000,
    );
    lemma_fundamental_div_mod(l0, 0x100_0000);
    lemma_mod_bound(l0, 0x100_0000);
    lemma_mod_multiples_vanish(l0 / 0x100_0000, l0 % 0x100_0000, 0x100_0000);
    vstd::arithmetic::div_mod::lemma_small_mod((l0 % 0x100_0000) as nat, 0x100_0000);
}

/// The largest element count whose five-word elements stay addressable with
/// 64-bit offsets.
const POOL_KEYS_MAX_LENGTH: u64 = 0x3333_3333_3333_3332;

/// Fetches every registered pool key of the hook, in array order: `None`
/// when the array is empty, an error when any read fails or the stored
/// length does not fit the addressable range.
pub fn angstrom_l2_pool_keys<F: StorageSlotFetcherSync>(
    slot_fetcher: &F,
    hook_address: Address,
    block_number: Option<u64>,
) -> (r: Result<Option<Vec<PoolKey>>, StorageError>)
    ensures
        r matches Ok(Some(keys)) ==> keys@.len() >= 1 && forall|j: int|
            0 <= j < keys@.len() ==> pool_key_valid(#[trigger] keys@[j]),
{
    let length_word = match slot_fetcher.storage_at(
        hook_address,
        Word::from_u64(ANGSTROM_L2_POOL_KEYS_SLOT),
        block_number,
    ) {
        Ok(w) => w,
        Err(e) => {
            return Err(e);
        },
    };
    let length = match length_word.to_u64() {
        Some(l) => l,
        None => {
            return Err(StorageError::ValueOutOfRange);
        },
    };
    if length == 0 {
        return Ok(None);
    }
    if length > POOL_KEYS_MAX_LENGTH {
        return Err(StorageError::ValueOutOfRange);
    }
    let mut keys: Vec<PoolKey> = Vec::new();
    let mut i: u64 = 0;
    while i < length
        invariant
            i <= length,
            length <= POOL_KEYS_MAX_LENGTH,
            keys@.len() == i,
            forall|j: int| 0 <= j < keys@.len() ==> pool_key_valid(#[trigger] keys@[j]),
        decreases length - i,
    {
        proof {
            lemma_mul_inequality(i as int, POOL_KEYS_MAX_LENGTH - 1, 5);
        }
        let key = match fetch_pool_key_element(slot_fetcher, hook_address, i, block_number) {
            Ok(k) => k,
            Err(e) => {
                return Err(e);
            },
        };
        keys.push(key);
        i = i + 1;
    }
    Ok(Some(keys))
}

/// Fetches and decodes the pool key at `index` of the hook's array.
fn fetch_pool_key_element<F: StorageSlotFetcherSync>(
    slot_fetcher: &F,
    hook_address: Address,
    index: u64,
    block_number: Option<u64>,
) -> (r: Result<PoolKey, StorageError>)
    requires
        index * POOL_KEY_SLOTS_PER_ELEMENT <= u64::MAX - 4,
    ensures
        r matches Ok(k) ==> pool_key_valid(k),
{
    let slot0 = array_element_slot(
        Word::from_u64(ANGSTROM_L2_POOL_KEYS_SLOT),
        index,
        POOL_KEY_SLOTS_PER_ELEMENT,
    );
    let s0 = match slot_fetcher.storage_at(hook_address, slot0, block_number) {
        Ok(w) => w,
        Err(e) => {
            return Err(e);
        },
    };
    let s1 = match slot_fetcher.storage_at(
        hook_address,
        slot0.wrapping_add(Word::from_u64(1)),
        block_number,
    ) {
        Ok(w) => w,
        Err(e) => {
            return Err(e);
        },
    };
    let s2 = match slot_fetcher.storage_at(
        hook_address,
        slot0.wrapping_add(Word::from_u64(2)),
        block_number,
    ) {
        Ok(w) => w,
        Err(e) => {
            return Err(e);
        },
    };
    let s3 = match slot_fetcher.storage_at(
        hook_address,
        slot0.wrapping_add(Word::from_u64(3)),
        block_number,
    ) {
        Ok(w) => w,
        Err(e) => {
            return Err(e);
        },
    };
    let s4 = match slot_fetcher.storage_at(
        hook_address,
        slot0.wrapping_add(Word::from_u64(4)),
        block_number,
    ) {
        Ok(w) => w,
        Err(e) => {
            return Err(e);
        },
    };
    Ok(pool_key_from_words(s0, s1, s2, s3, s4))
}

/// Scans the hook's registered pool keys in array order for keys accepted
/// by `search_fn`, stopping as soon as `find_count` matches are collected.
/// Finding fewer is not an error; a failed read aborts the whole scan.
pub fn angstrom_l2_pool_keys_filter<F: StorageSlotFetcherSync, P: Fn(PoolKey) -> bool>(
    slot_fetcher: &F,
    hook_address: Address,
    block_number: Option<u64>,
    search_fn: P,
    find_count: usize,
) -> (r: Result<Vec<PoolKey>, StorageError>)
    requires
        find_count > 0,
        forall|k: PoolKey| #[trigger] search_fn.requires((k,)),
    ensures
        r matches Ok(found) ==> found@.len() <= find_count && forall|j: int|
            0 <= j < found@.len() ==> pool_key_valid(#[trigger] found@[j]) && call_ensures(
                search_fn,
                (found@[j],),
                true,
            ),
{
    let length_word = match slot_fetcher.storage_at(
        hook_address,
        Word::from_u64(ANGSTROM_L2_POOL_KEYS_SLOT),
        block_number,
    ) {
        Ok(w) => w,
        Err(e) => {
            return Err(e);
        },
    };
    let length = match length_word.to_u64() {
        Some(l) => l,
        None => {
            return Err(StorageError::ValueOutOfRange);
        },
    };
    if length > POOL_KEYS_MAX_LENGTH {
        return Err(StorageError::ValueOutOfRange);
    }
    let mut found: Vec<PoolKey> = Vec::new();
    let mut i: u64 = 0;
    while i < length && found.len() < find_count
        invariant
            i <= length,
            length <= POOL_KEYS_MAX_LENGTH,
            found@.len() <= find_count,
            forall|k: PoolKey| #[trigger] search_fn.requires((k,)),
            forall|j: int|
                0 <= j < found@.len() ==> pool_key_valid(#[trigger] found@[j]) && call_ensures(
                    search_fn,
                    (found@[j],),
                    true,
                ),
        decreases length - i,
    {
        proof {
            lemma_mul_inequality(i as int, POOL_KEYS_MAX_LENGTH - 1, 5);
        }
        let key = match fetch_pool_key_element(slot_fetcher, hook_address, i, block_number) {
            Ok(k) => k,
            Err(e) => {
                return Err(e);
            },
        };
        if search_fn(key) {
            found.push(key);
        }
        i = i + 1;
    }
    Ok(found)
}

} // verus!
