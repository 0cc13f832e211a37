use uniswap_storage::keccak::keccak_word;
use uniswap_storage::keys::{pool_id, position_key, PoolKey};
use uniswap_storage::slots::{array_base_slot, array_element_slot, mapping_slot};
use uniswap_storage::types::Address;
use uniswap_storage::word::Word;

fn w(l3: u64, l2: u64, l1: u64, l0: u64) -> Word {
    Word { l0, l1, l2, l3 }
}

#[test]
fn keccak_of_empty_input_matches_known_digest() {
    // Keccak-256 of the empty byte string.
    let digest = keccak_word(&Vec::new());
    assert_eq!(
        digest,
        w(
            0xc5d2460186f7233c,
            0x927e7db2dcc703c0,
            0xe500b653ca82273b,
            0x7bfad8045d85a470,
        )
    );
}

#[test]
fn mapping_slot_of_zero_key_zero_base_matches_known_digest() {
    // Keccak-256 of 64 zero bytes: the entry at key 0 of a mapping
    // declared at slot 0.
    let slot = mapping_slot(Word::zero(), Word::zero());
    assert_eq!(
        slot,
        w(
            0xad3228b676f7d3cd,
            0x4284a5443f17f196,
            0x2b36e491b30a40b2,
            0x405849e597ba5fb5,
        )
    );
}

#[test]
fn mapping_slot_is_deterministic_and_separates_keys() {
    let base = Word::from_u64(3);
    let k1 = Word::from_u64(100);
    let k2 = Word::from_u64(100);
    let k3 = Word::from_u64(101);
    assert_eq!(mapping_slot(k1, base), mapping_slot(k2, base));
    assert_ne!(mapping_slot(k1, base), mapping_slot(k3, base));
    assert_ne!(mapping_slot(k1, base), mapping_slot(k1, Word::from_u64(4)));
}

#[test]
fn array_element_slot_starts_at_hashed_declared_slot() {
    let declared = Word::from_u64(2);
    let base = array_base_slot(declared);
    assert_eq!(base, keccak_word(&declared.to_be_bytes()));
    assert_eq!(array_element_slot(declared, 0, 5), base);
}

#[test]
fn array_element_slot_advances_by_stride() {
    let declared = Word::from_u64(5);
    let base = array_base_slot(declared);
    assert_eq!(
        array_element_slot(declared, 3, 5),
        base.wrapping_add(Word::from_u64(15))
    );
    assert_eq!(
        array_element_slot(declared, 7, 1),
        base.wrapping_add(Word::from_u64(7))
    );
}

#[test]
fn pool_id_is_deterministic_and_separates_keys() {
    let usdc = Address { lo: 0x2e9eb0ce3606eb48, mid: 0xc6218b36c1d19d4a, hi: 0xa0b86991 };
    let weth = Address { lo: 0x27ead9083c756cc2, mid: 0xb223fe8d0a0e5c4f, hi: 0xc02aaa39 };
    let hook = Address { lo: 0x797d089aa4edfad4, mid: 0xa232009084bd71a5, hi: 0x0000000a };
    let key = PoolKey {
        currency0: usdc,
        currency1: weth,
        fee: 0x800000,
        tick_spacing: 10,
        hooks: hook,
    };
    let other_spacing = PoolKey { tick_spacing: 60, ..key };
    assert_eq!(pool_id(&key), pool_id(&key));
    assert_ne!(pool_id(&key), pool_id(&other_spacing));
}

#[test]
fn pool_id_encodes_negative_tick_spacing_sign_extended() {
    let a = Address { lo: 1, mid: 0, hi: 0 };
    let b = Address { lo: 2, mid: 0, hi: 0 };
    let hook = Address { lo: 3, mid: 0, hi: 0 };
    let key_neg = PoolKey { currency0: a, currency1: b, fee: 0, tick_spacing: -1, hooks: hook };
    let key_pos = PoolKey { tick_spacing: 0xff_ffff, ..key_neg };
    // -1 sign-extends to the all-ones word; the unsigned 24-bit value
    // 0xffffff widens with zero fill, so the two ids must differ.
    assert_ne!(pool_id(&key_neg), pool_id(&key_pos));
}

#[test]
fn position_key_is_deterministic_and_separates_ticks() {
    let manager = Address { lo: 0x6aaa6420ff64ee9e, mid: 0xd74c8cf14cf4747e, hi: 0xbd216513 };
    let token = Word::from_u64(96348);
    let k1 = position_key(&manager, token, 193290, 196300);
    let k2 = position_key(&manager, token, 193290, 196300);
    let k3 = position_key(&manager, token, 193290, 196310);
    assert_eq!(k1, k2);
    assert_ne!(k1, k3);
    assert_ne!(k1, position_key(&manager, Word::from_u64(96349), 193290, 196300));
}

#[test]
fn negative_ticks_hash_differently_from_positive() {
    let manager = Address { lo: 1, mid: 2, hi: 3 };
    let token = Word::from_u64(1);
    assert_ne!(
        position_key(&manager, token, -100, 100),
        position_key(&manager, token, 100, 100)
    );
}
