use uniswap_storage::types::{tick_to_u24, tick_to_word};
use uniswap_storage::word::Word;

#[test]
fn nonnegative_ticks_read_as_themselves() {
    assert_eq!(tick_to_u24(0), 0);
    assert_eq!(tick_to_u24(887270), 887270);
    assert_eq!(tick_to_word(10), Word::from_u64(10));
}

#[test]
fn negative_ticks_read_as_twos_complement() {
    assert_eq!(tick_to_u24(-1), 0xff_ffff);
    assert_eq!(tick_to_u24(-887270), 0x100_0000 - 887270);
    assert_eq!(
        tick_to_word(-1),
        Word { l0: u64::MAX, l1: u64::MAX, l2: u64::MAX, l3: u64::MAX }
    );
    assert_eq!(
        tick_to_word(-2),
        Word { l0: u64::MAX - 1, l1: u64::MAX, l2: u64::MAX, l3: u64::MAX }
    );
}

#[test]
fn tick_range_boundaries_encode() {
    assert_eq!(tick_to_u24(-0x80_0000), 0x80_0000);
    assert_eq!(tick_to_u24(0x7f_ffff), 0x7f_ffff);
    let w = tick_to_word(-0x80_0000);
    assert_eq!(w.l0, u64::MAX - 0x80_0000 + 1);
    assert_eq!(w.l3, u64::MAX);
}
