//! Storage queries against the Angstrom hook factory.
//!
//! The factory packs a withdraw-only flag and two default fee rates into
//! its first slot, keeps a verified-hook mapping at slot 1, the array of
//! all deployed hooks at slot 2 (one address per element), and a
//! pool-id-to-hook mapping at slot 3.

use vstd::prelude::*;

verus! {

use crate::codec::{factory_slot0_valid, AngstromL2FactorySlot0};
use crate::fetcher::{StorageError, StorageSlotFetcherSync};
use crate::slots::{array_element_slot, mapping_slot};
use crate::types::Address;
use crate::word::Word;

/// Declared slot of the packed flag and default-fee word.
pub const ANGSTROM_L2_FACTORY_SLOT_0: u64 = 0;

/// Declared slot of the verified-hook mapping.
pub const ANGSTROM_L2_FACTORY_IS_VERIFIED_HOOK_SLOT: u64 = 1;

/// Declared slot of the all-hooks array.
pub const ANGSTROM_L2_FACTORY_ALL_HOOKS_SLOT: u64 = 2;

/// Declared slot of the pool-id-to-hook mapping.
pub const ANGSTROM_L2_FACTORY_HOOK_POOL_IDS_SLOT: u64 = 3;

/// Fetches the factory's packed first slot.
pub fn angstrom_l2_factory_get_slot_0<F: StorageSlotFetcherSync>(
    slot_fetcher: &F,
    factory_address: Address,
    block_number: Option<u64>,
) -> (r: Result<Word, StorageError>)
{
    slot_fetcher.storage_at(factory_address, Word::from_u64(ANGSTROM_L2_FACTORY_SLOT_0), block_number)
}

/// Fetches and unpacks the factory's first slot.
pub fn angstrom_l2_factory_slot_0<F: StorageSlotFetcherSync>(
    slot_fetcher: &F,
    factory_address: Address,
    block_number: Option<u64>,
) -> (r: Result<AngstromL2FactorySlot0, StorageError>)
    ensures
        r matches Ok(s) ==> factory_slot0_valid(s),
{
    match angstrom_l2_factory_get_slot_0(slot_fetcher, factory_address, block_number) {
        Ok(w) => Ok(AngstromL2FactorySlot0::decode(w)),
        Err(e) => Err(e),
    }
}

/// Fetches whether the factory is in withdraw-only mode.
pub fn angstrom_l2_factory_withdraw_only<F: StorageSlotFetcherSync>(
    slot_fetcher: &F,
    factory_address: Address,
    block_number: Option<u64>,
) -> (r: Result<bool, StorageError>)
{
    match angstrom_l2_factory_slot_0(slot_fetcher, factory_address, block_number) {
        Ok(s) => Ok(s.withdraw_only),
        Err(e) => Err(e),
    }
}

/// Fetches the default protocol swap fee multiple, in parts per million.
pub fn angstrom_l2_factory_default_protocol_swap_fee_as_multiple_e6<F: StorageSlotFetcherSync>(
    slot_fetcher: &F,
    factory_address: Address,
    block_number: Option<u64>,
) -> (r: Result<u32, StorageError>)
    ensures
        r matches Ok(v) ==> v < 0x100_0000,
{
    match angstrom_l2_factory_slot_0(slot_fetcher, factory_address, block_number) {
        Ok(s) => Ok(s.default_protocol_swap_fee_as_multiple_e6),
        Err(e) => Err(e),
    }
}

/// Fetches the default protocol tax fee, in parts per million.
pub fn angstrom_l2_factory_default_protocol_tax_fee_e6<F: StorageSlotFetcherSync>(
    slot_fetcher: &F,
    factory_address: Address,
    block_number: Option<u64>,
) -> (r: Result<u32, StorageError>)
    ensures
        r matches Ok(v) ==> v < 0x100_0000,
{
    match angstrom_l2_factory_slot_0(slot_fetcher, factory_address, block_number) {
        Ok(s) => Ok(s.default_protocol_tax_fee_e6),
        Err(e) => Err(e),
    }
}

/// Fetches whether a hook was deployed by the factory: any nonzero cell in
/// the verified-hook mapping reads as true.
pub fn angstrom_l2_factory_is_verified_hook<F: StorageSlotFetcherSync>(
    slot_fetcher: &F,
    factory_address: Address,
    hook_address: Address,
    block_number: Option<u64>,
) -> (r: Result<bool, StorageError>)
{
    let slot = mapping_slot(
        hook_address.to_word(),
        Word::from_u64(ANGSTROM_L2_FACTORY_IS_VERIFIED_HOOK_SLOT),
    );
    match slot_fetcher.storage_at(factory_address, slot, block_number) {
        Ok(w) => Ok(!w.is_zero()),
        Err(e) => Err(e),
    }
}

/// Fetches the number of hooks in the all-hooks array; an error where the
/// stored count does not fit 64 bits.
pub fn angstrom_l2_factory_all_hooks_length<F: StorageSlotFetcherSync>(
    slot_fetcher: &F,
    factory_address: Address,
    block_number: Option<u64>,
) -> (r: Result<u64, StorageError>)
{
    let length_word = match slot_fetcher.storage_at(
        factory_address,
        Word::from_u64(ANGSTROM_L2_FACTORY_ALL_HOOKS_SLOT),
        block_number,
    ) {
        Ok(w) => w,
        Err(e) => {
            return Err(e);
        },
    };
    match length_word.to_u64() {
        Some(l) => Ok(l),
        None => Err(StorageError::ValueOutOfRange),
    }
}

/// Fetches the hook address at `index` of the all-hooks array.
pub fn angstrom_l2_factory_all_hooks_at<F: StorageSlotFetcherSync>(
    slot_fetcher: &F,
    factory_address: Address,
    index: u64,
    block_number: Option<u64>,
) -> (r: Result<Address, StorageError>)
{
    let element_slot = array_element_slot(
        Word::from_u64(ANGSTROM_L2_FACTORY_ALL_HOOKS_SLOT),
        index,
        1,
    );
    match slot_fetcher.storage_at(factory_address, element_slot, block_number) {
        Ok(w) => Ok(Address::from_word(w)),
        Err(e) => Err(e),
    }
}

/// Fetches every hook the factory has deployed, in array order; empty when
/// none are registered.
pub fn angstrom_l2_factory_all_hooks<F: StorageSlotFetcherSync>(
    slot_fetcher: &F,
    factory_address: Address,
    block_number: Option<u64>,
) -> (r: Result<Vec<Address>, StorageError>)
{
    let length = match angstrom_l2_factory_all_hooks_length(
        slot_fetcher,
        factory_address,
        block_number,
    ) {
        Ok(l) => l,
        Err(e) => {
            return Err(e);
        },
    };
    let mut hooks: Vec<Address> = Vec::new();
    let mut i: u64 = 0;
    while i < length
        invariant
            i <= length,
            hooks@.len() == i,
        decreases length - i,
    {
        let hook = match angstrom_l2_factory_all_hooks_at(
            slot_fetcher,
            factory_address,
            i,
            block_number,
        ) {
            Ok(h) => h,
            Err(e) => {
                return Err(e);
            },
        };
        hooks.push(hook);
        i = i + 1;
    }
    Ok(hooks)
}

/// Fetches the hook registered for a pool id: `None` where the cell is
/// zero, meaning no hook is registered.
pub fn angstrom_l2_factory_hook_pool_id<F: StorageSlotFetcherSync>(
    slot_fetcher: &F,
    factory_address: Address,
    pool_id: Word,
    block_number: Option<u64>,
) -> (r: Result<Option<Address>, StorageError>)
{
    let slot = mapping_slot(pool_id, Word::from_u64(ANGSTROM_L2_FACTORY_HOOK_POOL_IDS_SLOT));
    let hook_word = match slot_fetcher.storage_at(factory_address, slot, block_number) {
        Ok(w) => w,
        Err(e) => {
            return Err(e);
        },
    };
    if hook_word.is_zero() {
        Ok(None)
    } else {
        Ok(Some(Address::from_word(hook_word)))
    }
}

} // verus!
