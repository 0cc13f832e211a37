use uniswap_storage::growth::growth_inside;
use uniswap_storage::word::Word;

fn w64(v: u64) -> Word {
    Word::from_u64(v)
}

#[test]
fn below_range_takes_lower_minus_upper() {
    let r = growth_inside(-50, 0, 100, w64(70), w64(30), w64(1000));
    assert_eq!(r, w64(40));
}

#[test]
fn at_or_above_upper_takes_upper_minus_lower() {
    let r = growth_inside(150, 0, 100, w64(30), w64(70), w64(1000));
    assert_eq!(r, w64(40));
    // The upper bound itself belongs to the upper region.
    let r = growth_inside(100, 0, 100, w64(30), w64(70), w64(1000));
    assert_eq!(r, w64(40));
}

#[test]
fn inside_range_subtracts_both_from_global() {
    let r = growth_inside(50, 0, 100, w64(30), w64(70), w64(1000));
    assert_eq!(r, w64(900));
}

#[test]
fn lower_bound_is_inside_the_range() {
    // current_tick == tick_lower selects the inside branch.
    let r = growth_inside(0, 0, 100, w64(30), w64(70), w64(1000));
    assert_eq!(r, w64(900));
}

#[test]
fn wraparound_yields_twos_complement_difference() {
    // Above the range with lower_outside > upper_outside: 3 - 5 wraps to
    // 2^256 - 2 instead of failing.
    let r = growth_inside(200, 0, 100, w64(5), w64(3), w64(0));
    assert_eq!(
        r,
        Word { l0: u64::MAX - 1, l1: u64::MAX, l2: u64::MAX, l3: u64::MAX }
    );
}

#[test]
fn inside_branch_wraps_when_boundaries_exceed_global() {
    let r = growth_inside(50, 0, 100, w64(7), w64(5), w64(10));
    // 10 - 7 - 5 wraps to 2^256 - 2.
    assert_eq!(
        r,
        Word { l0: u64::MAX - 1, l1: u64::MAX, l2: u64::MAX, l3: u64::MAX }
    );
}
