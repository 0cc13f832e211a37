//! Value types shared by the storage queries: contract addresses and ticks.

use vstd::prelude::*;

verus! {

use vstd::arithmetic::div_mod::{
    lemma_fundamental_div_mod,
    lemma_fundamental_div_mod_converse_mod,
    lemma_mod_bound,
    lemma_mod_multiples_vanish,
    lemma_small_mod,
};
use crate::bytes::{u32_be, u64_be};
use crate::word::{Word, p256};

/// 2^160, the bound of an address value.
pub open spec fn p160() -> nat {
    0x1_0000_0000_0000_0000_0000_0000_0000_0000_0000_0000nat
}

/// A 20-byte contract address, held as three little-endian limbs:
/// `lo` carries the low 64 bits, `mid` the next 64, `hi` the top 32.
#[derive(Clone, Copy, Debug, PartialEq, Eq, Structural, Hash)]
pub struct Address {
    pub lo: u64,
    pub mid: u64,
    pub hi: u32,
}

impl Address {
    /// The mathematical value of the address.
    pub open spec fn as_nat(self) -> nat {
        (self.lo + self.mid * 0x1_0000_0000_0000_0000int
            + self.hi * 0x1_0000_0000_0000_0000_0000_0000_0000_0000int) as nat
    }

    /// The all-zero address, how an unset address-typed cell reads.
    pub fn zero() -> (r: Address)
        ensures
            r.as_nat() == 0,
    {
        Address { lo: 0, mid: 0, hi: 0 }
    }

    /// True exactly of the all-zero address.
    pub fn is_zero(&self) -> (r: bool)
        ensures
            r <==> self.as_nat() == 0,
    {
        self.lo == 0 && self.mid == 0 && self.hi == 0
    }

    /// The address left-padded to a 32-byte storage word, as the contract
    /// ABI encodes address-typed values.
    pub fn to_word(&self) -> (r: Word)
        ensures
            r == self.spec_word(),
    {
        Word { l0: self.lo, l1: self.mid, l2: self.hi as u64, l3: 0 }
    }

    /// The word an address encodes to.
    pub open spec fn spec_word(self) -> Word {
        Word { l0: self.lo, l1: self.mid, l2: self.hi as u64, l3: 0 }
    }

    /// The address a word's low 160 bits store.
    pub open spec fn spec_from_word(w: Word) -> Address {
        Address { lo: w.l0, mid: w.l1, hi: (w.l2 % 0x1_0000_0000) as u32 }
    }

    /// The address stored in the low 160 bits of a word, as an
    /// address-typed storage cell is read; higher bits are ignored.
    pub fn from_word(w: Word) -> (r: Address)
        ensures
            r == Address::spec_from_word(w),
            r.as_nat() == w.as_nat() % p160(),
    {
        let r = Address { lo: w.l0, mid: w.l1, hi: (w.l2 % 0x1_0000_0000) as u32 };
        proof {
            let l2 = w.l2 as int;
            lemma_fundamental_div_mod(l2, 0x1_0000_0000);
            lemma_mod_bound(l2, 0x1_0000_0000);
            lemma_mod_multiples_vanish(
                l2 / 0x1_0000_0000 + w.l3 * 0x1_0000_0000,
                r.as_nat() as int,
                p160() as int,
            );
            lemma_small_mod(r.as_nat(), p160());
        }
        r
    }

    /// The 20 big-endian bytes of the address.
    pub open spec fn spec_bytes(self) -> Seq<u8> {
        u32_be(self.hi) + u64_be(self.mid) + u64_be(self.lo)
    }
}

/// Appends the 20 big-endian bytes of an address, the width it occupies in
/// a packed encoding.
pub fn push_address_be(out: &mut Vec<u8>, a: &Address)
    ensures
        final(out)@ == old(out)@ + a.spec_bytes(),
{
    crate::bytes::push_u32_be(out, a.hi);
    crate::bytes::push_u64_be(out, a.mid);
    crate::bytes::push_u64_be(out, a.lo);
    proof {
        assert(final(out)@ =~= old(out)@ + a.spec_bytes());
    }
}

/// The lowest 24-bit tick value.
pub open spec fn tick_min() -> int {
    -0x80_0000
}

/// One past the highest 24-bit tick value.
pub open spec fn tick_max() -> int {
    0x80_0000
}

/// A tick lies in the 24-bit signed range.
pub open spec fn tick_in_range(t: int) -> bool {
    tick_min() <= t < tick_max()
}

/// The 24-bit two's-complement reading of a tick.
pub open spec fn tick_u24(t: int) -> nat {
    (t % 0x100_0000int) as nat
}

/// The 256-bit two's-complement reading of a tick, how the contract ABI
/// encodes a signed 24-bit value into a full word.
pub open spec fn tick_word_nat(t: int) -> nat {
    (t % (p256() as int)) as nat
}

/// Computes the 24-bit two's-complement reading of a tick.
pub fn tick_to_u24(t: i32) -> (r: u64)
    requires
        tick_in_range(t as int),
    ensures
        r == tick_u24(t as int),
        r < 0x100_0000,
{
    if t >= 0 {
        proof {
            lemma_small_mod(t as nat, 0x100_0000);
        }
        t as u64
    } else {
        proof {
            lemma_fundamental_div_mod_converse_mod(t as int, 0x100_0000, -1, t + 0x100_0000);
        }
        (t + 0x100_0000) as u64
    }
}

/// The word a tick encodes to, sign-extended to 256 bits.
pub open spec fn spec_tick_word(t: int) -> Word {
    if t >= 0 {
        Word { l0: t as u64, l1: 0, l2: 0, l3: 0 }
    } else {
        Word { l0: (t + 0x1_0000_0000_0000_0000int) as u64, l1: u64::MAX, l2: u64::MAX, l3: u64::MAX }
    }
}

/// Encodes a tick as a full storage word, sign-extended to 256 bits.
pub fn tick_to_word(t: i32) -> (r: Word)
    requires
        tick_in_range(t as int),
    ensures
        r == spec_tick_word(t as int),
        r.as_nat() == tick_word_nat(t as int),
{
    if t >= 0 {
        proof {
            lemma_small_mod(t as nat, p256());
        }
        Word::from_u64(t as u64)
    } else {
        let neg: u64 = (-(t as i64)) as u64;
        let l0: u64 = (u64::MAX - neg) + 1;
        proof {
            lemma_fundamental_div_mod_converse_mod(t as int, p256() as int, -1, t + p256());
        }
        Word { l0, l1: u64::MAX, l2: u64::MAX, l3: u64::MAX }
    }
}

} // verus!
