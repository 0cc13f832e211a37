//! A 256-bit unsigned storage word, the unit of contract storage.
//!
//! Represented as four 64-bit limbs, least significant first. Every contract
//! in this crate is stated against the mathematical value [`Word::as_nat`];
//! the wrapping operations are specified modulo 2^256, matching the unchecked
//! arithmetic of the virtual machine the storage belongs to.

use vstd::prelude::*;

verus! {

use vstd::arithmetic::div_mod::lemma_fundamental_div_mod_converse_mod;

/// 2^64, the weight of one limb.
pub open spec fn p64() -> nat {
    0x1_0000_0000_0000_0000nat
}

/// 2^256, the modulus of all storage-word arithmetic.
pub open spec fn p256() -> nat {
    0x1_0000_0000_0000_0000_0000_0000_0000_0000_0000_0000_0000_0000_0000_0000_0000_0000nat
}

/// A 256-bit unsigned integer: the value of one storage cell.
///
/// `l0` is the least significant limb, `l3` the most significant.
#[derive(Clone, Copy, Debug, PartialEq, Eq, Structural, Hash)]
pub struct Word {
    pub l0: u64,
    pub l1: u64,
    pub l2: u64,
    pub l3: u64,
}

impl Word {
    /// The mathematical value of the word.
    pub open spec fn as_nat(self) -> nat {
        (self.l0
            + self.l1 * 0x1_0000_0000_0000_0000int
            + self.l2 * 0x1_0000_0000_0000_0000_0000_0000_0000_0000int
            + self.l3 * 0x1_0000_0000_0000_0000_0000_0000_0000_0000_0000_0000_0000_0000int) as nat
    }

    /// The all-zero word, the content of any unset storage cell.
    pub fn zero() -> (r: Word)
        ensures
            r.as_nat() == 0,
    {
        Word { l0: 0, l1: 0, l2: 0, l3: 0 }
    }

    /// The word embedding a 64-bit value.
    pub open spec fn spec_u64_word(v: u64) -> Word {
        Word { l0: v, l1: 0, l2: 0, l3: 0 }
    }

    /// Embeds a 64-bit value.
    pub fn from_u64(v: u64) -> (r: Word)
        ensures
            r == Word::spec_u64_word(v),
            r.as_nat() == v,
    {
        Word { l0: v, l1: 0, l2: 0, l3: 0 }
    }

    /// Embeds a 128-bit value.
    pub fn from_u128(v: u128) -> (r: Word)
        ensures
            r.as_nat() == v,
    {
        let lo: u64 = v as u64;
        let hi: u64 = (v >> 64) as u64;
        proof {
            assert(v == lo + hi * 0x1_0000_0000_0000_0000u128) by (bit_vector)
                requires
                    lo == v as u64,
                    hi == (v >> 64) as u64,
            ;
        }
        Word { l0: lo, l1: hi, l2: 0, l3: 0 }
    }

    /// True exactly of the all-zero word.
    pub fn is_zero(&self) -> (r: bool)
        ensures
            r <==> self.as_nat() == 0,
    {
        self.l0 == 0 && self.l1 == 0 && self.l2 == 0 && self.l3 == 0
    }

    /// The value as a `u64`, or `None` where it does not fit.
    pub fn to_u64(&self) -> (r: Option<u64>)
        ensures
            match r {
                Some(v) => self.as_nat() == v,
                None => self.as_nat() >= p64(),
            },
    {
        if self.l1 == 0 && self.l2 == 0 && self.l3 == 0 {
            Some(self.l0)
        } else {
            None
        }
    }

    /// Addition modulo 2^256.
    pub fn wrapping_add(self, other: Word) -> (r: Word)
        ensures
            r.as_nat() == (self.as_nat() + other.as_nat()) % p256(),
    {
        let s0: u128 = self.l0 as u128 + other.l0 as u128;
        let r0: u64 = s0 as u64;
        let c0: u64 = (s0 >> 64) as u64;
        proof {
            assert(s0 == r0 + c0 * 0x1_0000_0000_0000_0000u128 && c0 <= 1) by (bit_vector)
                requires
                    r0 == s0 as u64,
                    c0 == (s0 >> 64) as u64,
                    s0 <= 0x1_ffff_ffff_ffff_ffffu128,
            ;
        }
        let s1: u128 = self.l1 as u128 + other.l1 as u128 + c0 as u128;
        let r1: u64 = s1 as u64;
        let c1: u64 = (s1 >> 64) as u64;
        proof {
            assert(s1 == r1 + c1 * 0x1_0000_0000_0000_0000u128 && c1 <= 1) by (bit_vector)
                requires
                    r1 == s1 as u64,
                    c1 == (s1 >> 64) as u64,
                    s1 <= 0x1_ffff_ffff_ffff_ffffu128,
            ;
        }
        let s2: u128 = self.l2 as u128 + other.l2 as u128 + c1 as u128;
        let r2: u64 = s2 as u64;
        let c2: u64 = (s2 >> 64) as u64;
        proof {
            assert(s2 == r2 + c2 * 0x1_0000_0000_0000_0000u128 && c2 <= 1) by (bit_vector)
                requires
                    r2 == s2 as u64,
                    c2 == (s2 >> 64) as u64,
                    s2 <= 0x1_ffff_ffff_ffff_ffffu128,
            ;
        }
        let s3: u128 = self.l3 as u128 + other.l3 as u128 + c2 as u128;
        let r3: u64 = s3 as u64;
        let c3: u64 = (s3 >> 64) as u64;
        proof {
            assert(s3 == r3 + c3 * 0x1_0000_0000_0000_0000u128 && c3 <= 1) by (bit_vector)
                requires
                    r3 == s3 as u64,
                    c3 == (s3 >> 64) as u64,
                    s3 <= 0x1_ffff_ffff_ffff_ffffu128,
            ;
        }
        let r = Word { l0: r0, l1: r1, l2: r2, l3: r3 };
        proof {
            lemma_as_nat_bound(r);
            assert(self.as_nat() + other.as_nat()
                == r.as_nat()
                    + c3 * 0x1_0000_0000_0000_0000_0000_0000_0000_0000_0000_0000_0000_0000_0000_0000_0000_0000int);
            lemma_fundamental_div_mod_converse_mod(
                (self.as_nat() + other.as_nat()) as int,
                p256() as int,
                c3 as int,
                r.as_nat() as int,
            );
        }
        r
    }

    /// Subtraction modulo 2^256 (two's-complement-style wraparound).
    pub fn wrapping_sub(self, other: Word) -> (r: Word)
        ensures
            r.as_nat() == (self.as_nat() - other.as_nat()) % (p256() as int),
    {
        let d0: u128 = 0x1_0000_0000_0000_0000u128 + self.l0 as u128 - other.l0 as u128;
        let r0: u64 = d0 as u64;
        let b0: u64 = if (d0 >> 64) as u64 == 0 { 1 } else { 0 };
        proof {
            assert(d0 == r0 + (d0 >> 64) * 0x1_0000_0000_0000_0000u128 && (d0 >> 64) <= 1)
                by (bit_vector)
                requires
                    r0 == d0 as u64,
                    d0 <= 0x1_ffff_ffff_ffff_ffffu128,
            ;
        }
        let d1: u128 = 0x1_0000_0000_0000_0000u128 + self.l1 as u128 - other.l1 as u128
            - b0 as u128;
        let r1: u64 = d1 as u64;
        let b1: u64 = if (d1 >> 64) as u64 == 0 { 1 } else { 0 };
        proof {
            assert(d1 == r1 + (d1 >> 64) * 0x1_0000_0000_0000_0000u128 && (d1 >> 64) <= 1)
                by (bit_vector)
                requires
                    r1 == d1 as u64,
                    d1 <= 0x1_ffff_ffff_ffff_ffffu128,
            ;
        }
        let d2: u128 = 0x1_0000_0000_0000_0000u128 + self.l2 as u128 - other.l2 as u128
            - b1 as u128;
        let r2: u64 = d2 as u64;
        let b2: u64 = if (d2 >> 64) as u64 == 0 { 1 } else { 0 };
        proof {
            assert(d2 == r2 + (d2 >> 64) * 0x1_0000_0000_0000_0000u128 && (d2 >> 64) <= 1)
                by (bit_vector)
                requires
                    r2 == d2 as u64,
                    d2 <= 0x1_ffff_ffff_ffff_ffffu128,
            ;
        }
        let d3: u128 = 0x1_0000_0000_0000_0000u128 + self.l3 as u128 - other.l3 as u128
            - b2 as u128;
        let r3: u64 = d3 as u64;
        let b3: u64 = if (d3 >> 64) as u64 == 0 { 1 } else { 0 };
        proof {
            assert(d3 == r3 + (d3 >> 64) * 0x1_0000_0000_0000_0000u128 && (d3 >> 64) <= 1)
                by (bit_vector)
                requires
                    r3 == d3 as u64,
                    d3 <= 0x1_ffff_ffff_ffff_ffffu128,
            ;
        }
        let r = Word { l0: r0, l1: r1, l2: r2, l3: r3 };
        proof {
            lemma_as_nat_bound(r);
            assert(self.as_nat() - other.as_nat()
                == r.as_nat()
                    - b3 * 0x1_0000_0000_0000_0000_0000_0000_0000_0000_0000_0000_0000_0000_0000_0000_0000_0000int);
            lemma_fundamental_div_mod_converse_mod(
                self.as_nat() - other.as_nat(),
                p256() as int,
                -(b3 as int),
                r.as_nat() as int,
            );
        }
        r
    }
}

/// Every word's value is below 2^256.
pub broadcast proof fn lemma_as_nat_bound(w: Word)
    ensures
        #[trigger] w.as_nat() < p256(),
{
}

} // verus!
