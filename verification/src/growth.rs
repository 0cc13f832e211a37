//! The reward-growth accounting engine.
//!
//! A pool records, per boundary tick, the reward growth accumulated on the
//! far side of that tick from the current price, and one global accumulator.
//! The growth strictly inside a position's range combines the three by the
//! three-region tick-crossing convention. All subtraction wraps modulo
//! 2^256, as the contract's unchecked accounting does: wraparound is what
//! keeps later differences of accumulators consistent, so no underflow is
//! ever an error.

use vstd::prelude::*;

verus! {

use vstd::arithmetic::div_mod::lemma_fundamental_div_mod_converse_mod;
use crate::word::{Word, p256};

/// Difference of two accumulator values, wrapped modulo 2^256.
pub open spec fn spec_sub256(a: nat, b: nat) -> nat {
    ((a - b) % (p256() as int)) as nat
}

/// The reward growth strictly inside `[tick_lower, tick_upper)`:
/// - price below the range: the lower accumulator minus the upper one;
/// - price at or above the range's upper bound: the upper minus the lower;
/// - price inside the range (the lower bound inclusive): the global
///   accumulator minus both boundary accumulators.
pub open spec fn spec_growth_inside(
    current_tick: int,
    tick_lower: int,
    tick_upper: int,
    lower_outside: nat,
    upper_outside: nat,
    global_growth: nat,
) -> nat {
    if current_tick < tick_lower {
        spec_sub256(lower_outside, upper_outside)
    } else if current_tick >= tick_upper {
        spec_sub256(upper_outside, lower_outside)
    } else {
        spec_sub256(spec_sub256(global_growth, lower_outside), upper_outside)
    }
}

/// Combines the three fetched accumulators into the growth inside the
/// position's range. Total on every input: wraparound is never an error.
pub fn growth_inside(
    current_tick: i32,
    tick_lower: i32,
    tick_upper: i32,
    lower_outside: Word,
    upper_outside: Word,
    global_growth: Word,
) -> (r: Word)
    ensures
        r.as_nat() == spec_growth_inside(
            current_tick as int,
            tick_lower as int,
            tick_upper as int,
            lower_outside.as_nat(),
            upper_outside.as_nat(),
            global_growth.as_nat(),
        ),
{
    if current_tick < tick_lower {
        lower_outside.wrapping_sub(upper_outside)
    } else if current_tick >= tick_upper {
        upper_outside.wrapping_sub(lower_outside)
    } else {
        global_growth.wrapping_sub(lower_outside).wrapping_sub(upper_outside)
    }
}

/// Boundary law: the three regions meet exactly at the ticks. At
/// `current_tick == tick_lower` the inside region is selected (the lower
/// bound belongs to the inside region); at `current_tick == tick_upper` the
/// upper region is selected.
pub proof fn lemma_growth_inside_boundaries(
    tick_lower: int,
    tick_upper: int,
    lower_outside: nat,
    upper_outside: nat,
    global_growth: nat,
)
    requires
        tick_lower < tick_upper,
    ensures
        spec_growth_inside(tick_lower, tick_lower, tick_upper, lower_outside, upper_outside, global_growth)
            == spec_sub256(spec_sub256(global_growth, lower_outside), upper_outside),
        spec_growth_inside(tick_upper, tick_lower, tick_upper, lower_outside, upper_outside, global_growth)
            == spec_sub256(upper_outside, lower_outside),
{
}

/// Wraparound law: when the price sits at or above the range and the lower
/// accumulator exceeds the upper one, the subtraction wraps to the
/// two's-complement-style difference instead of failing.
pub proof fn lemma_growth_inside_wraparound(
    current_tick: int,
    tick_lower: int,
    tick_upper: int,
    lower_outside: nat,
    upper_outside: nat,
    global_growth: nat,
)
    requires
        tick_lower < tick_upper,
        current_tick >= tick_upper,
        lower_outside < p256(),
        upper_outside < lower_outside,
    ensures
        spec_growth_inside(current_tick, tick_lower, tick_upper, lower_outside, upper_outside, global_growth)
            == upper_outside + p256() - lower_outside,
{
    lemma_fundamental_div_mod_converse_mod(
        upper_outside - lower_outside,
        p256() as int,
        -1,
        upper_outside + p256() - lower_outside,
    );
}

} // verus!
