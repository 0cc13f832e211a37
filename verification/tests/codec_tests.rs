use uniswap_storage::codec::{AngstromL2FactorySlot0, AngstromL2PoolFeeConfiguration};
use uniswap_storage::word::Word;

#[test]
fn fee_configuration_decodes_packed_fields() {
    // Bit 0 set, creator tax 1000 at bit 8, protocol tax 2000 at bit 32,
    // creator swap 3000 at bit 56, protocol swap 4000 at bit 80.
    let l0: u64 = 1 | (1000u64 << 8) | (2000u64 << 32) | ((3000u64 & 0xff) << 56);
    let l1: u64 = (3000u64 >> 8) | (4000u64 << 16);
    let word = Word { l0, l1, l2: 0, l3: 0 };
    let c = AngstromL2PoolFeeConfiguration::decode(word);
    assert_eq!(
        c,
        AngstromL2PoolFeeConfiguration {
            is_initialized: true,
            creator_tax_fee_e6: 1000,
            protocol_tax_fee_e6: 2000,
            creator_swap_fee_e6: 3000,
            protocol_swap_fee_e6: 4000,
        }
    );
}

#[test]
fn fee_configuration_roundtrips() {
    let c = AngstromL2PoolFeeConfiguration {
        is_initialized: true,
        creator_tax_fee_e6: 0xff_ffff,
        protocol_tax_fee_e6: 0,
        creator_swap_fee_e6: 0x12_3456,
        protocol_swap_fee_e6: 0xab_cdef,
    };
    assert_eq!(AngstromL2PoolFeeConfiguration::decode(c.encode()), c);

    let uninit = AngstromL2PoolFeeConfiguration {
        is_initialized: false,
        creator_tax_fee_e6: 0,
        protocol_tax_fee_e6: 0,
        creator_swap_fee_e6: 0,
        protocol_swap_fee_e6: 0,
    };
    assert_eq!(AngstromL2PoolFeeConfiguration::decode(uninit.encode()), uninit);
    assert!(uninit.encode().is_zero());
}

#[test]
fn fee_configuration_zero_word_is_uninitialized() {
    let c = AngstromL2PoolFeeConfiguration::decode(Word::zero());
    assert!(!c.is_initialized);
    assert_eq!(c.creator_tax_fee_e6, 0);
    assert_eq!(c.protocol_tax_fee_e6, 0);
    assert_eq!(c.creator_swap_fee_e6, 0);
    assert_eq!(c.protocol_swap_fee_e6, 0);
}

#[test]
fn factory_slot0_decodes_packed_fields() {
    let l0: u64 = 1 | (123u64 << 8) | (456u64 << 32) | (1u64 << 56);
    let word = Word { l0, l1: 0, l2: 0, l3: 0 };
    let s = AngstromL2FactorySlot0::decode(word);
    assert_eq!(
        s,
        AngstromL2FactorySlot0 {
            withdraw_only: true,
            default_protocol_swap_fee_as_multiple_e6: 123,
            default_protocol_tax_fee_e6: 456,
            default_jit_tax_enabled: true,
        }
    );
}

#[test]
fn factory_slot0_flag_bytes_read_nonzero_as_true() {
    // Any nonzero flag byte decodes as set, not only the value one.
    let l0: u64 = 0x7f | (0x90u64 << 56);
    let s = AngstromL2FactorySlot0::decode(Word { l0, l1: 0, l2: 0, l3: 0 });
    assert!(s.withdraw_only);
    assert!(s.default_jit_tax_enabled);
}

#[test]
fn factory_slot0_roundtrips() {
    let s = AngstromL2FactorySlot0 {
        withdraw_only: false,
        default_protocol_swap_fee_as_multiple_e6: 0xff_ffff,
        default_protocol_tax_fee_e6: 77,
        default_jit_tax_enabled: true,
    };
    assert_eq!(AngstromL2FactorySlot0::decode(s.encode()), s);
}
