//! The packed bitfield codec.
//!
//! A configuration record is packed into a single 256-bit word at fixed bit
//! offsets; each field is the word shifted right by the field's offset and
//! masked to the field's width, booleans reading as "nonzero means true".
//! Two packed layouts exist for the deployed revisions: the per-pool fee
//! configuration and the factory's first slot. Decoding is lossless and
//! encoding is its exact inverse on field-range values.

use vstd::prelude::*;

verus! {

use vstd::arithmetic::div_mod::{
    lemma_div_denominator,
    lemma_fundamental_div_mod,
    lemma_mod_bound,
    lemma_mod_multiples_vanish,
    lemma_small_mod,
};
use crate::word::Word;

/// The numeric reading of a packed boolean.
pub open spec fn bool_bit(b: bool) -> nat {
    if b {
        1
    } else {
        0
    }
}

/// A pool's fee configuration, packed into one word of the hook contract.
///
/// Bit 0 carries `is_initialized`; the four fee rates, parts-per-million
/// values below 2^24, sit at bit offsets 8, 32, 56 and 80.
#[derive(Clone, Copy, Debug, PartialEq, Eq, Structural)]
pub struct AngstromL2PoolFeeConfiguration {
    pub is_initialized: bool,
    pub creator_tax_fee_e6: u32,
    pub protocol_tax_fee_e6: u32,
    pub creator_swap_fee_e6: u32,
    pub protocol_swap_fee_e6: u32,
}

/// The factory's first storage slot: a withdraw-only flag at byte 0, two
/// default fee rates at bit offsets 8 and 32, and a flag byte at offset 56.
#[derive(Clone, Copy, Debug, PartialEq, Eq, Structural)]
pub struct AngstromL2FactorySlot0 {
    pub withdraw_only: bool,
    pub default_protocol_swap_fee_as_multiple_e6: u32,
    pub default_protocol_tax_fee_e6: u32,
    pub default_jit_tax_enabled: bool,
}

/// The fee configuration packed at value `n`.
pub open spec fn spec_decode_pool_fee_configuration(n: nat) -> AngstromL2PoolFeeConfiguration {
    AngstromL2PoolFeeConfiguration {
        is_initialized: n % 2 == 1,
        creator_tax_fee_e6: ((n / 0x100nat) % 0x100_0000nat) as u32,
        protocol_tax_fee_e6: ((n / 0x1_0000_0000nat) % 0x100_0000nat) as u32,
        creator_swap_fee_e6: ((n / 0x100_0000_0000_0000nat) % 0x100_0000nat) as u32,
        protocol_swap_fee_e6: ((n / 0x1_0000_0000_0000_0000_0000nat) % 0x100_0000nat) as u32,
    }
}

/// The packed value of a fee configuration.
pub open spec fn spec_encode_pool_fee_configuration(c: AngstromL2PoolFeeConfiguration) -> nat {
    (bool_bit(c.is_initialized)
        + c.creator_tax_fee_e6 * 0x100
        + c.protocol_tax_fee_e6 * 0x1_0000_0000
        + c.creator_swap_fee_e6 * 0x100_0000_0000_0000
        + c.protocol_swap_fee_e6 * 0x1_0000_0000_0000_0000_0000) as nat
}

/// Every fee rate of a valid record fits its 24-bit field.
pub open spec fn pool_fee_configuration_valid(c: AngstromL2PoolFeeConfiguration) -> bool {
    c.creator_tax_fee_e6 < 0x100_0000
        && c.protocol_tax_fee_e6 < 0x100_0000
        && c.creator_swap_fee_e6 < 0x100_0000
        && c.protocol_swap_fee_e6 < 0x100_0000
}

/// The factory slot-0 record packed at value `n`.
pub open spec fn spec_decode_factory_slot0(n: nat) -> AngstromL2FactorySlot0 {
    AngstromL2FactorySlot0 {
        withdraw_only: n % 0x100nat != 0,
        default_protocol_swap_fee_as_multiple_e6: ((n / 0x100nat) % 0x100_0000nat) as u32,
        default_protocol_tax_fee_e6: ((n / 0x1_0000_0000nat) % 0x100_0000nat) as u32,
        default_jit_tax_enabled: (n / 0x100_0000_0000_0000nat) % 0x100nat != 0,
    }
}

/// The packed value of a factory slot-0 record.
pub open spec fn spec_encode_factory_slot0(s: AngstromL2FactorySlot0) -> nat {
    (bool_bit(s.withdraw_only)
        + s.default_protocol_swap_fee_as_multiple_e6 * 0x100
        + s.default_protocol_tax_fee_e6 * 0x1_0000_0000
        + bool_bit(s.default_jit_tax_enabled) * 0x100_0000_0000_0000) as nat
}

/// Both fee rates of a valid factory record fit their 24-bit fields.
pub open spec fn factory_slot0_valid(s: AngstromL2FactorySlot0) -> bool {
    s.default_protocol_swap_fee_as_multiple_e6 < 0x100_0000
        && s.default_protocol_tax_fee_e6 < 0x100_0000
}

/// Splitting a value at divisor `d` and width `m`: the quotient beyond the
/// field, the field itself, and the remainder below it.
proof fn lemma_div_mod_split(x: int, d: int, m: int)
    requires
        x >= 0,
        d > 0,
        m > 0,
    ensures
        x == (x / (d * m)) * (d * m) + ((x / d) % m) * d + (x % d),
        0 <= (x / d) % m < m,
        0 <= x % d < d,
{
    lemma_fundamental_div_mod(x, d);
    lemma_fundamental_div_mod(x / d, m);
    lemma_div_denominator(x, d, m);
    lemma_mod_bound(x / d, m);
    lemma_mod_bound(x, d);
    assert(x == (x / (d * m)) * (d * m) + ((x / d) % m) * d + (x % d)) by (nonlinear_arith)
        requires
            x == d * (x / d) + x % d,
            x / d == m * ((x / d) / m) + (x / d) % m,
            (x / d) / m == x / (d * m),
    ;
}

/// A field of width `m` at divisor `d` reads back exactly from a value
/// decomposed around it.
proof fn lemma_extract_field(x: int, d: int, m: int, hi: int, v: int, lo: int)
    requires
        d > 0,
        m > 0,
        hi >= 0,
        0 <= v < m,
        0 <= lo < d,
        x == hi * (d * m) + v * d + lo,
    ensures
        (x / d) % m == v,
{
    assert(x == (hi * m + v) * d + lo) by (nonlinear_arith)
        requires
            x == hi * (d * m) + v * d + lo,
    ;
    vstd::arithmetic::div_mod::lemma_fundamental_div_mod_converse_div(x, d, hi * m + v, lo);
    lemma_mod_multiples_vanish(hi, v, m);
    lemma_small_mod(v as nat, m as nat);
}

impl AngstromL2PoolFeeConfiguration {
    /// Unpacks a fee configuration from its storage word.
    pub fn decode(w: Word) -> (r: AngstromL2PoolFeeConfiguration)
        ensures
            r == spec_decode_pool_fee_configuration(w.as_nat()),
            pool_fee_configuration_valid(r),
    {
        let r = AngstromL2PoolFeeConfiguration {
            is_initialized: w.l0 % 2 == 1,
            creator_tax_fee_e6: ((w.l0 / 0x100) % 0x100_0000) as u32,
            protocol_tax_fee_e6: ((w.l0 / 0x1_0000_0000) % 0x100_0000) as u32,
            creator_swap_fee_e6: ((w.l0 / 0x100_0000_0000_0000) + (w.l1 % 0x1_0000) * 0x100)
                as u32,
            protocol_swap_fee_e6: ((w.l1 / 0x1_0000) % 0x100_0000) as u32,
        };
        proof {
            lemma_decode_pool_fee_configuration(w, r);
        }
        r
    }

    /// Packs a valid fee configuration into its storage word.
    pub fn encode(&self) -> (r: Word)
        requires
            pool_fee_configuration_valid(*self),
        ensures
            r.as_nat() == spec_encode_pool_fee_configuration(*self),
    {
        let init: u64 = if self.is_initialized {
            1
        } else {
            0
        };
        let ct = self.creator_tax_fee_e6 as u64;
        let pt = self.protocol_tax_fee_e6 as u64;
        let cs = self.creator_swap_fee_e6 as u64;
        let ps = self.protocol_swap_fee_e6 as u64;
        let l0: u64 = init + ct * 0x100 + pt * 0x1_0000_0000 + (cs % 0x100) * 0x100_0000_0000_0000;
        let l1: u64 = cs / 0x100 + ps * 0x1_0000;
        let r = Word { l0, l1, l2: 0, l3: 0 };
        proof {
            lemma_fundamental_div_mod(cs as int, 0x100);
        }
        r
    }
}

/// The exec unpacking of a fee configuration matches its specification.
proof fn lemma_decode_pool_fee_configuration(w: Word, r: AngstromL2PoolFeeConfiguration)
    requires
        r.is_initialized == (w.l0 % 2 == 1),
        r.creator_tax_fee_e6 == (w.l0 / 0x100) % 0x100_0000,
        r.protocol_tax_fee_e6 == (w.l0 / 0x1_0000_0000) % 0x100_0000,
        r.creator_swap_fee_e6 == (w.l0 / 0x100_0000_0000_0000) + (w.l1 % 0x1_0000) * 0x100,
        r.protocol_swap_fee_e6 == (w.l1 / 0x1_0000) % 0x100_0000,
    ensures
        r == spec_decode_pool_fee_configuration(w.as_nat()),
        pool_fee_configuration_valid(r),
{
    let n = w.as_nat() as int;
    let l0 = w.l0 as int;
    let l1 = w.l1 as int;
    let l2 = w.l2 as int;
    let l3 = w.l3 as int;

    // Bit 0: the initialized flag.
    lemma_fundamental_div_mod(l0, 2);
    lemma_mod_bound(l0, 2);
    lemma_mod_multiples_vanish(
        l0 / 2 + l1 * 0x8000_0000_0000_0000 + l2 * 0x8000_0000_0000_0000_0000_0000_0000_0000
            + l3 * 0x8000_0000_0000_0000_0000_0000_0000_0000_0000_0000_0000_0000,
        l0 % 2,
        2,
    );
    lemma_small_mod((l0 % 2) as nat, 2);
    assert(n % 2 == l0 % 2);

    // Creator tax fee, bits 8..32.
    lemma_div_mod_split(l0, 0x100, 0x100_0000);
    lemma_extract_field(
        n,
        0x100,
        0x100_0000,
        l0 / 0x1_0000_0000 + l1 * 0x1_0000_0000 + l2 * 0x1_0000_0000_0000_0000_0000_0000
            + l3 * 0x1_0000_0000_0000_0000_0000_0000_0000_0000_0000_0000,
        (l0 / 0x100) % 0x100_0000,
        l0 % 0x100,
    );

    // Protocol tax fee, bits 32..56.
    lemma_div_mod_split(l0, 0x1_0000_0000, 0x100_0000);
    lemma_extract_field(
        n,
        0x1_0000_0000,
        0x100_0000,
        l0 / 0x100_0000_0000_0000 + l1 * 0x100 + l2 * 0x100_0000_0000_0000_0000
            + l3 * 0x100_0000_0000_0000_0000_0000_0000_0000_0000,
        (l0 / 0x1_0000_0000) % 0x100_0000,
        l0 % 0x1_0000_0000,
    );

    // Creator swap fee, bits 56..80: the field straddles the two low limbs.
    lemma_fundamental_div_mod(l0, 0x100_0000_0000_0000);
    lemma_mod_bound(l0, 0x100_0000_0000_0000);
    lemma_fundamental_div_mod(l1, 0x1_0000);
    lemma_mod_bound(l1, 0x1_0000);
    assert(l0 / 0x100_0000_0000_0000 < 0x100) by {
        lemma_div_bound_256(w.l0);
    }
    lemma_extract_field(
        n,
        0x100_0000_0000_0000,
        0x100_0000,
        l1 / 0x1_0000 + l2 * 0x1_0000_0000_0000 + l3 * 0x1_0000_0000_0000_0000_0000_0000_0000,
        l0 / 0x100_0000_0000_0000 + (l1 % 0x1_0000) * 0x100,
        l0 % 0x100_0000_0000_0000,
    );

    // Protocol swap fee, bits 80..104.
    lemma_div_mod_split(l1, 0x1_0000, 0x100_0000);
    lemma_fundamental_div_mod(l1, 0x1_0000);
    lemma_mod_bound(l1, 0x1_0000);
    lemma_extract_field(
        n,
        0x1_0000_0000_0000_0000_0000,
        0x100_0000,
        l1 / 0x100_0000_0000 + l2 * 0x100_0000 + l3 * 0x100_0000_0000_0000_0000_0000,
        (l1 / 0x1_0000) % 0x100_0000,
        l0 + (l1 % 0x1_0000) * 0x1_0000_0000_0000_0000,
    );
}

/// The top byte of a 64-bit limb is below 256.
proof fn lemma_div_bound_256(x: u64)
    ensures
        x / 0x100_0000_0000_0000 < 0x100,
{
    lemma_div_denominator(x as int, 0x100_0000_0000_0000, 0x100);
}

impl AngstromL2FactorySlot0 {
    /// Unpacks the factory's first slot from its storage word.
    pub fn decode(w: Word) -> (r: AngstromL2FactorySlot0)
        ensures
            r == spec_decode_factory_slot0(w.as_nat()),
            factory_slot0_valid(r),
    {
        let r = AngstromL2FactorySlot0 {
            withdraw_only: w.l0 % 0x100 != 0,
            default_protocol_swap_fee_as_multiple_e6: ((w.l0 / 0x100) % 0x100_0000) as u32,
            default_protocol_tax_fee_e6: ((w.l0 / 0x1_0000_0000) % 0x100_0000) as u32,
            default_jit_tax_enabled: (w.l0 / 0x100_0000_0000_0000) % 0x100 != 0,
        };
        proof {
            lemma_decode_factory_slot0(w, r);
        }
        r
    }

    /// Packs a valid factory record into its storage word, flags as single
    /// set bits.
    pub fn encode(&self) -> (r: Word)
        requires
            factory_slot0_valid(*self),
        ensures
            r.as_nat() == spec_encode_factory_slot0(*self),
    {
        let wd: u64 = if self.withdraw_only {
            1
        } else {
            0
        };
        let jit: u64 = if self.default_jit_tax_enabled {
            1
        } else {
            0
        };
        let sf = self.default_protocol_swap_fee_as_multiple_e6 as u64;
        let tf = self.default_protocol_tax_fee_e6 as u64;
        let l0: u64 = wd + sf * 0x100 + tf * 0x1_0000_0000 + jit * 0x100_0000_0000_0000;
        Word { l0, l1: 0, l2: 0, l3: 0 }
    }
}

/// The exec unpacking of the factory slot matches its specification.
proof fn lemma_decode_factory_slot0(w: Word, r: AngstromL2FactorySlot0)
    requires
        r.withdraw_only == (w.l0 % 0x100 != 0),
        r.default_protocol_swap_fee_as_multiple_e6 == (w.l0 / 0x100) % 0x100_0000,
        r.default_protocol_tax_fee_e6 == (w.l0 / 0x1_0000_0000) % 0x100_0000,
        r.default_jit_tax_enabled == ((w.l0 / 0x100_0000_0000_0000) % 0x100 != 0),
    ensures
        r == spec_decode_factory_slot0(w.as_nat()),
        factory_slot0_valid(r),
{
    let n = w.as_nat() as int;
    let l0 = w.l0 as int;
    let l1 = w.l1 as int;
    let l2 = w.l2 as int;
    let l3 = w.l3 as int;

    // Withdraw-only flag, byte 0.
    lemma_fundamental_div_mod(l0, 0x100);
    lemma_mod_bound(l0, 0x100);
    lemma_mod_multiples_vanish(
        l0 / 0x100 + l1 * 0x100_0000_0000_0000 + l2 * 0x100_0000_0000_0000_0000_0000_0000_0000
            + l3 * 0x100_0000_0000_0000_0000_0000_0000_0000_0000_0000_0000_0000_0000_0000,
        l0 % 0x100,
        0x100,
    );
    lemma_small_mod((l0 % 0x100) as nat, 0x100);
    assert(n % 0x100 == l0 % 0x100);

    // Default protocol swap fee, bits 8..32.
    lemma_div_mod_split(l0, 0x100, 0x100_0000);
    lemma_extract_field(
        n,
        0x100,
        0x100_0000,
        l0 / 0x1_0000_0000 + l1 * 0x1_0000_0000 + l2 * 0x1_0000_0000_0000_0000_0000_0000
            + l3 * 0x1_0000_0000_0000_0000_0000_0000_0000_0000_0000_0000,
        (l0 / 0x100) % 0x100_0000,
        l0 % 0x100,
    );

    // Default protocol tax fee, bits 32..56.
    lemma_div_mod_split(l0, 0x1_0000_0000, 0x100_0000);
    lemma_extract_field(
        n,
        0x1_0000_0000,
        0x100_0000,
        l0 / 0x100_0000_0000_0000 + l1 * 0x100 + l2 * 0x100_0000_0000_0000_0000
            + l3 * 0x100_0000_0000_0000_0000_0000_0000_0000_0000,
        (l0 / 0x1_0000_0000) % 0x100_0000,
        l0 % 0x1_0000_0000,
    );

    // Jit-tax flag byte, bits 56..64.
    lemma_div_mod_split(l0, 0x100_0000_0000_0000, 0x100);
    lemma_extract_field(
        n,
        0x100_0000_0000_0000,
        0x100,
        l1 + l2 * 0x1_0000_0000_0000_0000 + l3 * 0x1_0000_0000_0000_0000_0000_0000_0000_0000,
        (l0 / 0x100_0000_0000_0000) % 0x100,
        l0 % 0x100_0000_0000_0000,
    );
    assert(l0 / 0x100_0000_0000_0000 < 0x100) by {
        lemma_div_bound_256(w.l0);
    }
    lemma_small_mod((l0 / 0x100_0000_0000_0000) as nat, 0x100);
}

/// Round-trip law: unpacking a packed fee configuration restores every field
/// of any record whose fee rates fit their 24-bit fields.
pub proof fn lemma_pool_fee_configuration_roundtrip(c: AngstromL2PoolFeeConfiguration)
    requires
        pool_fee_configuration_valid(c),
    ensures
        spec_decode_pool_fee_configuration(spec_encode_pool_fee_configuration(c)) == c,
{
    let n = spec_encode_pool_fee_configuration(c) as int;
    let b = bool_bit(c.is_initialized) as int;
    let ct = c.creator_tax_fee_e6 as int;
    let pt = c.protocol_tax_fee_e6 as int;
    let cs = c.creator_swap_fee_e6 as int;
    let ps = c.protocol_swap_fee_e6 as int;

    lemma_mod_multiples_vanish(
        ct * 0x80 + pt * 0x8000_0000 + cs * 0x80_0000_0000_0000 + ps * 0x8000_0000_0000_0000_0000,
        b,
        2,
    );
    lemma_small_mod(b as nat, 2);

    lemma_extract_field(
        n,
        0x100,
        0x100_0000,
        pt + cs * 0x100_0000 + ps * 0x1_0000_0000_0000,
        ct,
        b,
    );
    lemma_extract_field(
        n,
        0x1_0000_0000,
        0x100_0000,
        cs + ps * 0x100_0000,
        pt,
        b + ct * 0x100,
    );
    lemma_extract_field(
        n,
        0x100_0000_0000_0000,
        0x100_0000,
        ps,
        cs,
        b + ct * 0x100 + pt * 0x1_0000_0000,
    );
    lemma_extract_field(
        n,
        0x1_0000_0000_0000_0000_0000,
        0x100_0000,
        0,
        ps,
        b + ct * 0x100 + pt * 0x1_0000_0000 + cs * 0x100_0000_0000_0000,
    );
}

/// Round-trip law: unpacking a packed factory record restores every field of
/// any record whose fee rates fit their 24-bit fields.
pub proof fn lemma_factory_slot0_roundtrip(s: AngstromL2FactorySlot0)
    requires
        factory_slot0_valid(s),
    ensures
        spec_decode_factory_slot0(spec_encode_factory_slot0(s)) == s,
{
    let n = spec_encode_factory_slot0(s) as int;
    let b = bool_bit(s.withdraw_only) as int;
    let sf = s.default_protocol_swap_fee_as_multiple_e6 as int;
    let tf = s.default_protocol_tax_fee_e6 as int;
    let j = bool_bit(s.default_jit_tax_enabled) as int;

    assert(n % 0x100 == b) by {
        lemma_extract_field(n, 1, 0x100, sf + tf * 0x100_0000 + j * 0x1_0000_0000_0000, b, 0);
        lemma_fundamental_div_mod(n, 1);
    }
    lemma_extract_field(n, 0x100, 0x100_0000, tf + j * 0x100_0000, sf, b);
    lemma_extract_field(n, 0x1_0000_0000, 0x100_0000, j, tf, b + sf * 0x100);
    lemma_extract_field(n, 0x100_0000_0000_0000, 0x100, 0, j, b + sf * 0x100 + tf * 0x1_0000_0000);
}

} // verus!
