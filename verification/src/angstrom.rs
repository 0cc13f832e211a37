//! Storage queries against the first-deployment Angstrom contract.
//!
//! Its pool rewards live in a mapping at a declared slot: the entry for a
//! pool is the base of a growth-outside array indexed by the 24-bit
//! two's-complement reading of the tick, with the global accumulator one
//! past the array's end. Per-position accumulators live in a two-level
//! mapping keyed by pool id and then position key.

use vstd::prelude::*;

verus! {

use crate::fetcher::{StorageError, StorageSlotFetcherSync};
use crate::growth::growth_inside;
use crate::keys::position_key;
use crate::slots::{mapping_slot, spec_mapping_slot};
use crate::types::{tick_in_range, tick_to_u24, tick_u24, Address};
use crate::word::{p256, Word};

/// Elements in a pool's growth-outside array: one per 24-bit tick value.
pub const ANGSTROM_POOL_REWARDS_GROWTH_ARRAY_SIZE: u64 = 16777216;

/// Blocks per day on the target chain.
pub const BLOCKS_24HR: u64 = 7200;

/// Declared slot of the per-position accumulator mapping.
pub const ANGSTROM_POSITIONS_SLOT: u8 = 6;

/// Declared slot of the pool rewards mapping.
pub const ANGSTROM_POOL_REWARDS_SLOT: u8 = 7;

/// The slot of a position's accumulator: the positions mapping resolved
/// first at the pool id, then at the position key.
pub open spec fn spec_angstrom_position_slot(pool_id: Word, pos_key: Word) -> Word {
    spec_mapping_slot(
        pos_key,
        spec_mapping_slot(pool_id, Word::spec_u64_word(ANGSTROM_POSITIONS_SLOT as u64)),
    )
}

/// The base slot of a pool's rewards record.
pub open spec fn spec_angstrom_pool_rewards_slot(pool_id: Word) -> Word {
    spec_mapping_slot(pool_id, Word::spec_u64_word(ANGSTROM_POOL_REWARDS_SLOT as u64))
}

/// Computes the slot of a position's reward accumulator.
pub fn angstrom_position_slot(pool_id: Word, pos_key: Word) -> (r: Word)
    ensures
        r == spec_angstrom_position_slot(pool_id, pos_key),
{
    let inner = mapping_slot(pool_id, Word::from_u64(ANGSTROM_POSITIONS_SLOT as u64));
    mapping_slot(pos_key, inner)
}

/// Computes the base slot of a pool's rewards record.
pub fn angstrom_pool_rewards_slot(pool_id: Word) -> (r: Word)
    ensures
        r == spec_angstrom_pool_rewards_slot(pool_id),
{
    mapping_slot(pool_id, Word::from_u64(ANGSTROM_POOL_REWARDS_SLOT as u64))
}

/// The slot of a tick's growth-outside accumulator: the pool's rewards base
/// advanced by the tick's 24-bit two's-complement reading, modulo 2^256.
pub open spec fn spec_angstrom_tick_growth_slot(pool_id: Word, tick: int) -> nat {
    (((spec_angstrom_pool_rewards_slot(pool_id).as_nat() + tick_u24(tick)) as int % (p256() as int)) as nat)
}

/// The slot of a pool's global growth accumulator: one past the
/// growth-outside array.
pub open spec fn spec_angstrom_global_growth_slot(pool_id: Word) -> nat {
    (((spec_angstrom_pool_rewards_slot(pool_id).as_nat()
        + ANGSTROM_POOL_REWARDS_GROWTH_ARRAY_SIZE) as int % (p256() as int)) as nat)
}

/// Fetches a pool's global reward-growth accumulator.
pub fn angstrom_global_growth<F: StorageSlotFetcherSync>(
    slot_fetcher: &F,
    angstrom_address: Address,
    pool_id: Word,
    block_number: Option<u64>,
) -> (r: Result<Word, StorageError>)
{
    let base = angstrom_pool_rewards_slot(pool_id);
    let slot = base.wrapping_add(Word::from_u64(ANGSTROM_POOL_REWARDS_GROWTH_ARRAY_SIZE));
    proof {
        assert(slot.as_nat() == spec_angstrom_global_growth_slot(pool_id));
    }
    slot_fetcher.storage_at(angstrom_address, slot, block_number)
}

/// Fetches the growth-outside accumulator recorded at a boundary tick.
pub fn angstrom_tick_growth_outside<F: StorageSlotFetcherSync>(
    slot_fetcher: &F,
    angstrom_address: Address,
    pool_id: Word,
    tick: i32,
    block_number: Option<u64>,
) -> (r: Result<Word, StorageError>)
    requires
        tick_in_range(tick as int),
{
    let base = angstrom_pool_rewards_slot(pool_id);
    let slot = base.wrapping_add(Word::from_u64(tick_to_u24(tick)));
    proof {
        assert(slot.as_nat() == spec_angstrom_tick_growth_slot(pool_id, tick as int));
    }
    slot_fetcher.storage_at(angstrom_address, slot, block_number)
}

/// Fetches the three accumulators bounding a position's range and combines
/// them into the reward growth strictly inside the range; any single read
/// failure fails the whole query.
pub fn angstrom_growth_inside<F: StorageSlotFetcherSync>(
    slot_fetcher: &F,
    angstrom_address: Address,
    pool_id: Word,
    current_pool_tick: i32,
    tick_lower: i32,
    tick_upper: i32,
    block_number: Option<u64>,
) -> (r: Result<Word, StorageError>)
    requires
        tick_in_range(tick_lower as int),
        tick_in_range(tick_upper as int),
{
    let lower_growth = match angstrom_tick_growth_outside(
        slot_fetcher,
        angstrom_address,
        pool_id,
        tick_lower,
        block_number,
    ) {
        Ok(w) => w,
        Err(e) => {
            return Err(e);
        },
    };
    let upper_growth = match angstrom_tick_growth_outside(
        slot_fetcher,
        angstrom_address,
        pool_id,
        tick_upper,
        block_number,
    ) {
        Ok(w) => w,
        Err(e) => {
            return Err(e);
        },
    };
    let global_growth = match angstrom_global_growth(
        slot_fetcher,
        angstrom_address,
        pool_id,
        block_number,
    ) {
        Ok(w) => w,
        Err(e) => {
            return Err(e);
        },
    };
    Ok(growth_inside(
        current_pool_tick,
        tick_lower,
        tick_upper,
        lower_growth,
        upper_growth,
        global_growth,
    ))
}

/// Fetches the accumulator a position last settled at.
pub fn angstrom_last_growth_inside<F: StorageSlotFetcherSync>(
    slot_fetcher: &F,
    angstrom_address: Address,
    position_manager_address: Address,
    pool_id: Word,
    position_token_id: Word,
    tick_lower: i32,
    tick_upper: i32,
    block_number: Option<u64>,
) -> (r: Result<Word, StorageError>)
    requires
        tick_in_range(tick_lower as int),
        tick_in_range(tick_upper as int),
{
    let pos_key = position_key(
        &position_manager_address,
        position_token_id,
        tick_lower,
        tick_upper,
    );
    let slot = angstrom_position_slot(pool_id, pos_key);
    slot_fetcher.storage_at(angstrom_address, slot, block_number)
}

} // verus!
