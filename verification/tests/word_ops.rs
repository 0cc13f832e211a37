use uniswap_storage::word::Word;

fn w(l3: u64, l2: u64, l1: u64, l0: u64) -> Word {
    Word { l0, l1, l2, l3 }
}

#[test]
fn zero_and_from_u64() {
    assert_eq!(Word::zero(), w(0, 0, 0, 0));
    assert_eq!(Word::from_u64(7), w(0, 0, 0, 7));
    assert!(Word::zero().is_zero());
    assert!(!Word::from_u64(1).is_zero());
}

#[test]
fn from_u128_splits_limbs() {
    let v = Word::from_u128(0x1234_5678_9abc_def0_1122_3344_5566_7788u128);
    assert_eq!(v, w(0, 0, 0x1234_5678_9abc_def0, 0x1122_3344_5566_7788));
}

#[test]
fn to_u64_roundtrip_and_overflow() {
    assert_eq!(Word::from_u64(12345).to_u64(), Some(12345));
    assert_eq!(w(0, 0, 1, 0).to_u64(), None);
}

#[test]
fn wrapping_add_carries_across_limbs() {
    let a = w(0, 0, 0, u64::MAX);
    let b = Word::from_u64(1);
    assert_eq!(a.wrapping_add(b), w(0, 0, 1, 0));
}

#[test]
fn wrapping_add_wraps_modulo_2_pow_256() {
    let a = w(u64::MAX, u64::MAX, u64::MAX, u64::MAX);
    let b = Word::from_u64(2);
    assert_eq!(a.wrapping_add(b), Word::from_u64(1));
}

#[test]
fn wrapping_sub_borrows_across_limbs() {
    let a = w(0, 0, 1, 0);
    let b = Word::from_u64(1);
    assert_eq!(a.wrapping_sub(b), w(0, 0, 0, u64::MAX));
}

#[test]
fn wrapping_sub_wraps_below_zero() {
    let a = Word::from_u64(3);
    let b = Word::from_u64(5);
    // 3 - 5 wraps to 2^256 - 2.
    assert_eq!(a.wrapping_sub(b), w(u64::MAX, u64::MAX, u64::MAX, u64::MAX - 1));
}

#[test]
fn be_bytes_roundtrip() {
    let a = w(
        0x0102_0304_0506_0708,
        0x1112_1314_1516_1718,
        0x2122_2324_2526_2728,
        0x3132_3334_3536_3738,
    );
    let bytes = a.to_be_bytes();
    assert_eq!(bytes.len(), 32);
    assert_eq!(bytes[0], 0x01);
    assert_eq!(bytes[31], 0x38);
    assert_eq!(Word::from_be_bytes(&bytes), a);
}
