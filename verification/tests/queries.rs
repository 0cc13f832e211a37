use uniswap_storage::angstrom::{
    angstrom_global_growth, angstrom_growth_inside, angstrom_last_growth_inside,
    angstrom_pool_rewards_slot, angstrom_position_slot, angstrom_tick_growth_outside,
    ANGSTROM_POOL_REWARDS_GROWTH_ARRAY_SIZE,
};
use uniswap_storage::angstrom_constants::AngstromL1Constants;
use uniswap_storage::angstrom_l2::{
    angstrom_l2_growth_inside, angstrom_l2_is_pool_initialized, angstrom_l2_last_growth_inside,
    angstrom_l2_pool_fee_config, angstrom_l2_pool_keys, angstrom_l2_pool_keys_filter,
    angstrom_l2_pool_rewards_slot, angstrom_l2_position_slot, angstrom_l2_total_swap_fee_rate_e6,
    ANGSTROM_L2_POOL_KEYS_SLOT,
};
use uniswap_storage::fetcher::{StorageError, StorageSlotFetcherSync};
use uniswap_storage::keys::{pool_id, position_key, PoolKey};
use uniswap_storage::slots::{array_element_slot, mapping_slot};
use uniswap_storage::types::{tick_to_word, Address};
use uniswap_storage::word::Word;

/// A fetcher over a fixed cell table; absent cells read as zero, as unset
/// storage does.
struct MapFetcher {
    cells: Vec<(Address, Word, Word)>,
}

impl StorageSlotFetcherSync for MapFetcher {
    fn storage_at(
        &self,
        address: Address,
        key: Word,
        _block_number: Option<u64>,
    ) -> Result<Word, StorageError> {
        for (a, k, v) in &self.cells {
            if *a == address && *k == key {
                return Ok(*v);
            }
        }
        Ok(Word::zero())
    }
}

/// A fetcher whose every read fails.
struct FailFetcher;

impl StorageSlotFetcherSync for FailFetcher {
    fn storage_at(
        &self,
        _address: Address,
        _key: Word,
        _block_number: Option<u64>,
    ) -> Result<Word, StorageError> {
        Err(StorageError::Read("node unreachable".to_string()))
    }
}

fn usdc() -> Address {
    Address { lo: 0x2e9eb0ce3606eb48, mid: 0xc6218b36c1d19d4a, hi: 0xa0b86991 }
}

fn weth() -> Address {
    Address { lo: 0x27ead9083c756cc2, mid: 0xb223fe8d0a0e5c4f, hi: 0xc02aaa39 }
}

fn angstrom_weth_usdc_pool_id(angstrom: Address) -> Word {
    let key = PoolKey {
        currency0: usdc(),
        currency1: weth(),
        fee: 0x800000,
        tick_spacing: 10,
        hooks: angstrom,
    };
    pool_id(&key)
}

#[test]
fn test_angstrom_growth_inside() {
    let constants = AngstromL1Constants::by_chain(1).unwrap();
    let angstrom = constants.angstrom_address();
    let pid = angstrom_weth_usdc_pool_id(angstrom);
    let rewards = angstrom_pool_rewards_slot(pid);
    let block = Some(23998000);

    let lower_slot = rewards.wrapping_add(Word::from_u64(0x1000000 - 887270));
    let upper_slot = rewards.wrapping_add(Word::from_u64(887270));
    let global_slot = rewards.wrapping_add(Word::from_u64(ANGSTROM_POOL_REWARDS_GROWTH_ARRAY_SIZE));
    let fetcher = MapFetcher {
        cells: vec![
            (angstrom, lower_slot, Word::from_u128(13371799646837933039685117838079u128)),
            (angstrom, upper_slot, Word::zero()),
            (
                angstrom,
                global_slot,
                Word::from_u128(551302139298080657575478260093209u128),
            ),
        ],
    };

    let results =
        angstrom_growth_inside(&fetcher, angstrom, pid, 190088, -887270, 887270, block).unwrap();
    assert_eq!(results, Word::from_u128(537930339651242724535793142255130u128));
}

#[test]
fn test_angstrom_last_growth_inside() {
    let constants = AngstromL1Constants::by_chain(1).unwrap();
    let angstrom = constants.angstrom_address();
    let manager = constants.uniswap_constants().position_manager();
    let pid = angstrom_weth_usdc_pool_id(angstrom);
    let block = Some(23998000);

    // The position has never settled: its cell is unset and reads zero.
    let fetcher = MapFetcher { cells: Vec::new() };
    let results = angstrom_last_growth_inside(
        &fetcher,
        angstrom,
        manager,
        pid,
        Word::from_u64(96348),
        193290,
        196300,
        block,
    )
    .unwrap();
    assert_eq!(results, Word::from_u128(0u128));
}

#[test]
fn test_angstrom_global_growth() {
    let constants = AngstromL1Constants::by_chain(1).unwrap();
    let angstrom = constants.angstrom_address();
    let pid = angstrom_weth_usdc_pool_id(angstrom);
    let rewards = angstrom_pool_rewards_slot(pid);
    let global_slot = rewards.wrapping_add(Word::from_u64(ANGSTROM_POOL_REWARDS_GROWTH_ARRAY_SIZE));
    let fetcher = MapFetcher {
        cells: vec![(
            angstrom,
            global_slot,
            Word::from_u128(551302139298080657575478260093209u128),
        )],
    };

    let results = angstrom_global_growth(&fetcher, angstrom, pid, Some(23998000)).unwrap();
    assert_eq!(results, Word::from_u128(551302139298080657575478260093209u128));
}

#[test]
fn test_angstrom_tick_growth_outside() {
    let constants = AngstromL1Constants::by_chain(1).unwrap();
    let angstrom = constants.angstrom_address();
    let pid = angstrom_weth_usdc_pool_id(angstrom);
    let rewards = angstrom_pool_rewards_slot(pid);
    let tick_slot = rewards.wrapping_add(Word::from_u64(193290));
    let fetcher = MapFetcher {
        cells: vec![(
            angstrom,
            tick_slot,
            Word::from_u128(409840027953647546908503544924399u128),
        )],
    };

    let results =
        angstrom_tick_growth_outside(&fetcher, angstrom, pid, 193290, Some(23998000)).unwrap();
    assert_eq!(results, Word::from_u128(409840027953647546908503544924399u128));
}

#[test]
fn last_growth_uses_position_slot() {
    // The value planted at the exact position slot is the one returned.
    let angstrom = Address { lo: 10, mid: 20, hi: 30 };
    let manager = Address { lo: 40, mid: 50, hi: 60 };
    let pid = Word::from_u64(777);
    let pos_key = position_key(&manager, Word::from_u64(5), -100, 200);
    let slot = angstrom_position_slot(pid, pos_key);
    let fetcher = MapFetcher { cells: vec![(angstrom, slot, Word::from_u64(4242))] };
    let got = angstrom_last_growth_inside(
        &fetcher,
        angstrom,
        manager,
        pid,
        Word::from_u64(5),
        -100,
        200,
        None,
    )
    .unwrap();
    assert_eq!(got, Word::from_u64(4242));
}

#[test]
fn read_failures_propagate() {
    let angstrom = Address { lo: 1, mid: 2, hi: 3 };
    let pid = Word::from_u64(9);
    let r = angstrom_growth_inside(&FailFetcher, angstrom, pid, 0, -10, 10, None);
    assert!(matches!(r, Err(StorageError::Read(_))));
}

#[test]
fn uninitialized_pool_fee_config_reads_all_zero() {
    // An uninitialized pool: every cell unset, so the packed configuration
    // decodes to an uninitialized record with all fees zero.
    let hook = Address { lo: 0x1bf00cc0fd4c65cf, mid: 0x7a058ac431b852bc, hi: 0xc7f6ffdb };
    let pid = Word {
        l3: 0x0343ee3036741f45,
        l2: 0xb5512ebf7ad0d8ab,
        l1: 0x259dbb8e5a38ff0d,
        l0: 0x19022da176ee0457,
    };
    let fetcher = MapFetcher { cells: Vec::new() };
    let config = angstrom_l2_pool_fee_config(&fetcher, hook, pid, Some(36617377)).unwrap();
    assert!(!config.is_initialized);
    assert_eq!(config.creator_tax_fee_e6, 0);
    assert_eq!(config.protocol_tax_fee_e6, 0);
    assert_eq!(config.creator_swap_fee_e6, 0);
    assert_eq!(config.protocol_swap_fee_e6, 0);
    assert!(!angstrom_l2_is_pool_initialized(&fetcher, hook, pid, None).unwrap());
    assert_eq!(angstrom_l2_total_swap_fee_rate_e6(&fetcher, hook, pid, None).unwrap(), 0);
}

fn pool_key_cells(hook: Address, index: u64, key: &PoolKey) -> Vec<(Address, Word, Word)> {
    let slot0 = array_element_slot(Word::from_u64(ANGSTROM_L2_POOL_KEYS_SLOT), index, 5);
    let spacing_word = if key.tick_spacing >= 0 {
        Word::from_u64(key.tick_spacing as u64)
    } else {
        Word {
            l0: (key.tick_spacing as i64 as u64),
            l1: u64::MAX,
            l2: u64::MAX,
            l3: u64::MAX,
        }
    };
    vec![
        (hook, slot0, key.currency0.to_word()),
        (hook, slot0.wrapping_add(Word::from_u64(1)), key.currency1.to_word()),
        (hook, slot0.wrapping_add(Word::from_u64(2)), Word::from_u64(key.fee as u64)),
        (hook, slot0.wrapping_add(Word::from_u64(3)), spacing_word),
        (hook, slot0.wrapping_add(Word::from_u64(4)), key.hooks.to_word()),
    ]
}

#[test]
fn pool_keys_fetch_all_and_filter_agree() {
    // One registered pool key, whose hook is the known address: both the
    // fetch-all path and the filter path must return exactly it.
    let hook = Address { lo: 0x1bf00cc0fd4c65cf, mid: 0x7a058ac431b852bc, hi: 0xc7f6ffdb };
    let key = PoolKey {
        currency0: usdc(),
        currency1: weth(),
        fee: 3000,
        tick_spacing: -60,
        hooks: hook,
    };
    let mut cells = vec![(hook, Word::from_u64(ANGSTROM_L2_POOL_KEYS_SLOT), Word::from_u64(1))];
    cells.extend(pool_key_cells(hook, 0, &key));
    let fetcher = MapFetcher { cells };

    let all = angstrom_l2_pool_keys(&fetcher, hook, None).unwrap().unwrap();
    assert_eq!(all.len(), 1);
    assert_eq!(all[0], key);

    let found =
        angstrom_l2_pool_keys_filter(&fetcher, hook, None, |k: PoolKey| k.hooks == hook, 1)
            .unwrap();
    assert_eq!(found, all);
}

#[test]
fn pool_keys_empty_array_reads_as_none() {
    let hook = Address { lo: 1, mid: 1, hi: 1 };
    let fetcher = MapFetcher { cells: Vec::new() };
    assert!(angstrom_l2_pool_keys(&fetcher, hook, None).unwrap().is_none());
    let found =
        angstrom_l2_pool_keys_filter(&fetcher, hook, None, |_k: PoolKey| true, 3).unwrap();
    assert!(found.is_empty());
}

#[test]
fn pool_keys_filter_stops_at_find_count() {
    let hook = Address { lo: 2, mid: 2, hi: 2 };
    let a = Address { lo: 1, mid: 0, hi: 0 };
    let b = Address { lo: 2, mid: 0, hi: 0 };
    let mk = |fee: u32| PoolKey { currency0: a, currency1: b, fee, tick_spacing: 10, hooks: hook };
    let mut cells = vec![(hook, Word::from_u64(ANGSTROM_L2_POOL_KEYS_SLOT), Word::from_u64(3))];
    cells.extend(pool_key_cells(hook, 0, &mk(100)));
    cells.extend(pool_key_cells(hook, 1, &mk(200)));
    cells.extend(pool_key_cells(hook, 2, &mk(300)));
    let fetcher = MapFetcher { cells };

    let found =
        angstrom_l2_pool_keys_filter(&fetcher, hook, None, |_k: PoolKey| true, 2).unwrap();
    assert_eq!(found.len(), 2);
    assert_eq!(found[0].fee, 100);
    assert_eq!(found[1].fee, 200);

    let none =
        angstrom_l2_pool_keys_filter(&fetcher, hook, None, |k: PoolKey| k.fee == 999, 1).unwrap();
    assert!(none.is_empty());
}

#[test]
fn pool_keys_oversize_length_is_out_of_range() {
    let hook = Address { lo: 3, mid: 3, hi: 3 };
    // A stored length that does not fit 64 bits.
    let cells = vec![(
        hook,
        Word::from_u64(ANGSTROM_L2_POOL_KEYS_SLOT),
        Word { l0: 0, l1: 1, l2: 0, l3: 0 },
    )];
    let fetcher = MapFetcher { cells };
    let r = angstrom_l2_pool_keys(&fetcher, hook, None);
    assert!(matches!(r, Err(StorageError::ValueOutOfRange)));
}

#[test]
fn l2_growth_inside_reads_tick_mapping_cells() {
    let hook = Address { lo: 0x1bf00cc0fd4c65cf, mid: 0x7a058ac431b852bc, hi: 0xc7f6ffdb };
    let pid = Word::from_u64(42);
    let rewards = angstrom_l2_pool_rewards_slot(pid);
    let tick_mapping = rewards.wrapping_add(Word::from_u64(1));
    let lower_slot = mapping_slot(tick_to_word(-60), tick_mapping);
    let upper_slot = mapping_slot(tick_to_word(60), tick_mapping);
    let global_slot = rewards.wrapping_add(Word::from_u64(2));
    let fetcher = MapFetcher {
        cells: vec![
            (hook, lower_slot, Word::from_u64(100)),
            (hook, upper_slot, Word::from_u64(40)),
            (hook, global_slot, Word::from_u64(1000)),
        ],
    };

    // Inside the range: global minus both boundary accumulators.
    let inside = angstrom_l2_growth_inside(&fetcher, hook, pid, 0, -60, 60, None).unwrap();
    assert_eq!(inside, Word::from_u64(860));
    // Below the range: lower minus upper.
    let below = angstrom_l2_growth_inside(&fetcher, hook, pid, -100, -60, 60, None).unwrap();
    assert_eq!(below, Word::from_u64(60));
    // At the upper bound: upper minus lower, wrapping below zero.
    let above = angstrom_l2_growth_inside(&fetcher, hook, pid, 60, -60, 60, None).unwrap();
    assert_eq!(
        above,
        Word::from_u64(40).wrapping_sub(Word::from_u64(100))
    );
}

#[test]
fn l2_last_growth_inside_reads_position_cell() {
    let hook = Address { lo: 5, mid: 6, hi: 7 };
    let manager = Address { lo: 8, mid: 9, hi: 10 };
    let pid = Word::from_u64(11);
    let pos_key = position_key(&manager, Word::from_u64(77), -120, 120);
    let slot = angstrom_l2_position_slot(pid, pos_key);
    let fetcher = MapFetcher { cells: vec![(hook, slot, Word::from_u64(555))] };
    let got = angstrom_l2_last_growth_inside(
        &fetcher,
        hook,
        manager,
        pid,
        Word::from_u64(77),
        -120,
        120,
        None,
    )
    .unwrap();
    assert_eq!(got, Word::from_u64(555));
}
