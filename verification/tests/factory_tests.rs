use uniswap_storage::angstrom_l2_factory::{
    angstrom_l2_factory_all_hooks, angstrom_l2_factory_all_hooks_at,
    angstrom_l2_factory_all_hooks_length, angstrom_l2_factory_default_protocol_swap_fee_as_multiple_e6,
    angstrom_l2_factory_default_protocol_tax_fee_e6, angstrom_l2_factory_get_slot_0,
    angstrom_l2_factory_hook_pool_id, angstrom_l2_factory_is_verified_hook,
    angstrom_l2_factory_withdraw_only, ANGSTROM_L2_FACTORY_ALL_HOOKS_SLOT,
    ANGSTROM_L2_FACTORY_HOOK_POOL_IDS_SLOT, ANGSTROM_L2_FACTORY_IS_VERIFIED_HOOK_SLOT,
    ANGSTROM_L2_FACTORY_SLOT_0,
};
use uniswap_storage::fetcher::{StorageError, StorageSlotFetcherSync};
use uniswap_storage::slots::{array_element_slot, mapping_slot};
use uniswap_storage::types::Address;
use uniswap_storage::word::Word;

struct MapFetcher {
    cells: Vec<(Address, Word, Word)>,
}

impl StorageSlotFetcherSync for MapFetcher {
    fn storage_at(
        &self,
        address: Address,
        key: Word,
        _block_number: Option<u64>,
    ) -> Result<Word, StorageError> {
        for (a, k, v) in &self.cells {
            if *a == address && *k == key {
                return Ok(*v);
            }
        }
        Ok(Word::zero())
    }
}

fn factory() -> Address {
    Address { lo: 0x32b16c0406980c42, mid: 0x0000a0220e791bae, hi: 0x00000000 }
}

fn known_hook() -> Address {
    Address { lo: 0x1bf00cc0fd4c65cf, mid: 0x7a058ac431b852bc, hi: 0xc7f6ffdb }
}

#[test]
fn packed_slot0_fields_decode_through_queries() {
    let f = factory();
    let l0: u64 = 1 | (150u64 << 8) | (250u64 << 32);
    let cells = vec![(f, Word::from_u64(ANGSTROM_L2_FACTORY_SLOT_0), Word { l0, l1: 0, l2: 0, l3: 0 })];
    let fetcher = MapFetcher { cells };
    assert_eq!(
        angstrom_l2_factory_get_slot_0(&fetcher, f, None).unwrap(),
        Word { l0, l1: 0, l2: 0, l3: 0 }
    );
    assert!(angstrom_l2_factory_withdraw_only(&fetcher, f, None).unwrap());
    assert_eq!(
        angstrom_l2_factory_default_protocol_swap_fee_as_multiple_e6(&fetcher, f, None).unwrap(),
        150
    );
    assert_eq!(
        angstrom_l2_factory_default_protocol_tax_fee_e6(&fetcher, f, None).unwrap(),
        250
    );
}

#[test]
fn unset_slot0_reads_as_defaults() {
    let f = factory();
    let fetcher = MapFetcher { cells: Vec::new() };
    assert!(!angstrom_l2_factory_withdraw_only(&fetcher, f, None).unwrap());
    assert_eq!(
        angstrom_l2_factory_default_protocol_swap_fee_as_multiple_e6(&fetcher, f, None).unwrap(),
        0
    );
}

#[test]
fn verified_hook_reads_mapping_cell() {
    let f = factory();
    let hook = known_hook();
    let slot = mapping_slot(
        hook.to_word(),
        Word::from_u64(ANGSTROM_L2_FACTORY_IS_VERIFIED_HOOK_SLOT),
    );
    let fetcher = MapFetcher { cells: vec![(f, slot, Word::from_u64(1))] };
    assert!(angstrom_l2_factory_is_verified_hook(&fetcher, f, hook, None).unwrap());
    let other = Address { lo: 99, mid: 0, hi: 0 };
    assert!(!angstrom_l2_factory_is_verified_hook(&fetcher, f, other, None).unwrap());
}

#[test]
fn single_hook_array_returned_by_both_paths() {
    // A registered-hooks array of length one holding exactly the known
    // address: the fetch-all path and the indexed path agree on it.
    let f = factory();
    let hook = known_hook();
    let element_slot = array_element_slot(Word::from_u64(ANGSTROM_L2_FACTORY_ALL_HOOKS_SLOT), 0, 1);
    let cells = vec![
        (f, Word::from_u64(ANGSTROM_L2_FACTORY_ALL_HOOKS_SLOT), Word::from_u64(1)),
        (f, element_slot, hook.to_word()),
    ];
    let fetcher = MapFetcher { cells };

    assert_eq!(angstrom_l2_factory_all_hooks_length(&fetcher, f, None).unwrap(), 1);
    let all = angstrom_l2_factory_all_hooks(&fetcher, f, None).unwrap();
    assert_eq!(all, vec![hook]);
    assert_eq!(angstrom_l2_factory_all_hooks_at(&fetcher, f, 0, None).unwrap(), hook);
}

#[test]
fn empty_hooks_array_reads_as_empty() {
    let f = factory();
    let fetcher = MapFetcher { cells: Vec::new() };
    assert_eq!(angstrom_l2_factory_all_hooks_length(&fetcher, f, None).unwrap(), 0);
    assert!(angstrom_l2_factory_all_hooks(&fetcher, f, None).unwrap().is_empty());
}

#[test]
fn oversize_hooks_length_is_out_of_range() {
    let f = factory();
    let cells = vec![(
        f,
        Word::from_u64(ANGSTROM_L2_FACTORY_ALL_HOOKS_SLOT),
        Word { l0: 0, l1: 0, l2: 1, l3: 0 },
    )];
    let fetcher = MapFetcher { cells };
    let r = angstrom_l2_factory_all_hooks_length(&fetcher, f, None);
    assert!(matches!(r, Err(StorageError::ValueOutOfRange)));
}

#[test]
fn hook_pool_id_zero_cell_means_unregistered() {
    let f = factory();
    let pid = Word::from_u64(123456);
    let fetcher = MapFetcher { cells: Vec::new() };
    assert!(angstrom_l2_factory_hook_pool_id(&fetcher, f, pid, None).unwrap().is_none());

    let slot = mapping_slot(pid, Word::from_u64(ANGSTROM_L2_FACTORY_HOOK_POOL_IDS_SLOT));
    let hook = known_hook();
    let fetcher = MapFetcher { cells: vec![(f, slot, hook.to_word())] };
    assert_eq!(
        angstrom_l2_factory_hook_pool_id(&fetcher, f, pid, None).unwrap(),
        Some(hook)
    );
}
