use vstd::prelude::*;

use crate::chromosome::fixed::{fixed_flip_i64, fixed_flip_u64, signed_clamp, signed_fits};
use crate::traverse::Mutator;
use crate::wrapper::MutationWrapper;
use vstd::arithmetic::power2::{lemma2_to64, lemma_pow2_strictly_increases};

verus! {

proof fn lemma_high_bits_bound_32(x: u64, y: u64, b: u64)
    requires
        b <= 32,
        x >> b == y >> b,
        y < 0x1_0000_0000,
    ensures
        x < 0x1_0000_0000,
{
    assert(x < 0x1_0000_0000u64) by (bit_vector)
        requires
            b <= 32u64,
            x >> b == y >> b,
            y < 0x1_0000_0000u64,
    ;
}

proof fn lemma_shr_narrows_to_u32(x: u64, y: u64, b: u64)
    requires
        b < 32,
        x < 0x1_0000_0000,
        y < 0x1_0000_0000,
        x >> b == y >> b,
    ensures
        ((x as u32) >> (b as u32)) == ((y as u32) >> (b as u32)),
{
    assert(((x as u32) >> (b as u32)) == ((y as u32) >> (b as u32))) by (bit_vector)
        requires
            b < 32u64,
            x < 0x1_0000_0000u64,
            y < 0x1_0000_0000u64,
            x >> b == y >> b,
    ;
}

/// Restricts mutation of a borrowed scalar to its low `bits` positions,
/// without wrapping the scalar in a new stored type.
///
/// For signed integers the value is treated as a `bits`-wide two's-complement
/// integer embedded in the native type.
#[derive(Clone, Copy, Debug, PartialEq, Eq, Structural)]
pub struct FixedBits {
    pub bits: u8,
}

impl FixedBits {
    pub fn new(bits: u8) -> (r: Self)
        ensures
            r.bits == bits,
    {
        Self { bits }
    }
}

impl MutationWrapper<i64> for FixedBits {
    open spec fn ok(&self) -> bool {
        1 <= self.bits <= 64
    }

    open spec fn mutated(&self, pre: i64, post: i64, rate: u32) -> bool {
        &&& signed_fits(post as int, self.bits as nat)
    &&& rate == 0 ==> post as int == signed_clamp(pre as int, self.bits as nat)
    }

    /// Two's-complement mutation inside the `bits`-wide window.
    fn mutate_with(&self, value: &mut i64, m: &mut Mutator) {
        let rate = m.get_rate();
        *value = fixed_flip_i64(*value, self.bits, rate, m.get_rng());
    }
}

impl MutationWrapper<u64> for FixedBits {
    open spec fn ok(&self) -> bool {
        1 <= self.bits <= 64
    }

    open spec fn mutated(&self, pre: u64, post: u64, rate: u32) -> bool {
        &&& self.bits < 64 ==> post >> (self.bits as u64) == pre >> (self.bits as u64)
    &&& rate == 0 ==> post == pre
    }

    /// Bit flips restricted to the low `bits` positions; the high positions
    /// never change.
    fn mutate_with(&self, value: &mut u64, m: &mut Mutator) {
        let rate = m.get_rate();
        *value = fixed_flip_u64(*value, self.bits, rate, m.get_rng());
    }
}

impl MutationWrapper<i32> for FixedBits {
    open spec fn ok(&self) -> bool {
        1 <= self.bits <= 32
    }

    open spec fn mutated(&self, pre: i32, post: i32, rate: u32) -> bool {
        &&& signed_fits(post as int, self.bits as nat)
    &&& rate == 0 ==> post as int == signed_clamp(pre as int, self.bits as nat)
    }

    /// Two's-complement mutation inside the `bits`-wide window.
    fn mutate_with(&self, value: &mut i32, m: &mut Mutator) {
        let rate = m.get_rate();
        let drawn: i64 = fixed_flip_i64(*value as i64, self.bits, rate, m.get_rng());
        proof {
            lemma2_to64();
            if self.bits < 32 {
                lemma_pow2_strictly_increases((self.bits - 1) as nat, 31);
            }
        }
        *value = drawn as i32;
    }
}

impl MutationWrapper<u32> for FixedBits {
    open spec fn ok(&self) -> bool {
        1 <= self.bits <= 32
    }

    open spec fn mutated(&self, pre: u32, post: u32, rate: u32) -> bool {
        &&& self.bits < 32 ==> post >> (self.bits as u32) == pre >> (self.bits as u32)
    &&& rate == 0 ==> post == pre
    }

    /// Bit flips restricted to the low `bits` positions; the high positions
    /// never change.
    fn mutate_with(&self, value: &mut u32, m: &mut Mutator) {
        let rate = m.get_rate();
        let drawn: u64 = fixed_flip_u64(*value as u64, self.bits, rate, m.get_rng());
        proof {
            lemma_high_bits_bound_32(drawn, *value as u64, self.bits as u64);
            if self.bits < 32 {
                lemma_shr_narrows_to_u32(drawn, *value as u64, self.bits as u64);
            }
        }
        *value = drawn as u32;
    }
}

} // verus!
