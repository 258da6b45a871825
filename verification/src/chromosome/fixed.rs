use vstd::prelude::*;

use crate::chromosome::{flip_low_bits, Chromosome};
use crate::rate::{Rate, RATE_DENOM};
use crate::rng::rng_below;
use vstd::arithmetic::power2::{
    lemma2_to64, lemma2_to64_rest, lemma_pow2_strictly_increases, lemma_pow2_unfold, pow2,
};
use vstd::bits::{lemma_u64_pow2_no_overflow, lemma_u64_shl_is_mul};

verus! {

/// `v` lies in the domain of a `bits`-wide two's-complement integer.
pub open spec fn signed_fits(v: int, bits: nat) -> bool
    recommends
        1 <= bits <= 64,
{
    -(pow2((bits - 1) as nat) as int) <= v < pow2((bits - 1) as nat) as int
}

/// `v` clamped into the domain of a `bits`-wide two's-complement integer.
pub open spec fn signed_clamp(v: int, bits: nat) -> int
    recommends
        1 <= bits <= 64,
{
    crate::walk::clamp_int(
        v,
        -(pow2((bits - 1) as nat) as int),
        pow2((bits - 1) as nat) - 1,
    )
}

/// Wraps a scalar value so that only the low `bits` positions mutate.
///
/// For signed integers the value is read as a `bits`-wide two's-complement
/// integer embedded in the native type: `bits == 7` over a 64-bit value
/// behaves like a theoretical 7-bit signed integer.
pub struct FixedBits<T> {
    pub value: T,
    pub bits: u8,
}

impl<T> FixedBits<T> {
    pub fn new(value: T, bits: u8) -> (r: Self)
        ensures
            r.value == value,
            r.bits == bits,
    {
        Self { value, bits }
    }
}

proof fn lemma_flip_keeps_window(u: u64, i: u64, b: u64)
    requires
        i < b,
        b < 64,
        u < (1u64 << b),
    ensures
        (u ^ (1u64 << i)) < (1u64 << b),
{
    assert((u ^ (1u64 << i)) < (1u64 << b)) by (bit_vector)
        requires
            i < b,
            b < 64u64,
            u < (1u64 << b),
    ;
}

/// Mutates `value` as a `bits`-wide two's-complement integer: the value is
/// first clamped into the window, then each magnitude bit and the sign bit
/// flip independently with probability `rate / 2`.
pub fn fixed_flip_i64(value: i64, bits: u8, rate: Rate, rng: &mut rand::rngs::StdRng) -> (r: i64)
    requires
        1 <= bits <= 64,
        rate.wf(),
    ensures
        signed_fits(r as int, bits as nat),
        rate.is_zero() ==> r == signed_clamp(value as int, bits as nat),
{
    let b: u64 = bits as u64;
    let half: u64 = 1u64 << (b - 1);
    proof {
        lemma_u64_pow2_no_overflow((b - 1) as nat);
        lemma_u64_shl_is_mul(1u64, (b - 1) as u64);
        assert(half == pow2((b - 1) as nat));
        if b < 64 {
            lemma_u64_pow2_no_overflow(b as nat);
            lemma_u64_shl_is_mul(1u64, b);
            assert((1u64 << b) == pow2(b as nat));
        } else {
            lemma2_to64_rest();
        }
        lemma_pow2_unfold(b as nat);
        lemma2_to64();
        if b < 64 {
            if b - 1 < 62 {
                lemma_pow2_strictly_increases((b - 1) as nat, 62);
            }
        }
    }

    // Clamp into the representable window when it is narrower than i64.
    let mut v: i64 = value;
    if b < 64 {
        let depth: i64 = half as i64;
        if v < -depth {
            v = -depth;
        } else if v > depth - 1 {
            v = depth - 1;
        }
    }
    assert(v as int == signed_clamp(value as int, bits as nat));

    // The `bits`-wide two's-complement pattern of the clamped value.
    let mut u: u64 = if b == 64 {
        v as u64
    } else if v >= 0 {
        v as u64
    } else {
        (((v as i128) + 2 * (half as i128))) as u64
    };
    let ghost u0: u64 = u;
    proof {
        if b < 64 {
            assert(u < (1u64 << b));
        }
    }

    // Flip magnitude bits 0 .. bits-1 and then the sign bit, each with
    // probability rate / 2; flips keep the pattern inside the window.
    let mut i: u64 = 0;
    while i < b
        invariant
            i <= b,
            1 <= b <= 64,
            rate.wf(),
            b < 64 ==> u < (1u64 << b),
            rate.num == 0 ==> u == u0,
        decreases b - i,
    {
        if rng_below(rng, 2 * (RATE_DENOM as u64)) < rate.num as u64 {
            proof {
                if b < 64 {
                    lemma_flip_keeps_window(u, i, b);
                }
            }
            u = u ^ (1u64 << i);
        }
        i += 1;
    }

    // Decode the pattern back into the native type.
    proof {
        if b == 64 {
            crate::chromosome::lemma_i64_u64_roundtrip(v);
        }
    }
    let r: i64 = if b == 64 {
        u as i64
    } else if u >= half {
        ((u as i128) - 2 * (half as i128)) as i64
    } else {
        u as i64
    };
    r
}

/// Mutates `value` with bit flips restricted to the low `bits` positions;
/// the high positions never change.
pub fn fixed_flip_u64(value: u64, bits: u8, rate: Rate, rng: &mut rand::rngs::StdRng) -> (r: u64)
    requires
        1 <= bits <= 64,
        rate.wf(),
    ensures
        bits < 64 ==> r >> (bits as u64) == value >> (bits as u64),
        rate.is_zero() ==> r == value,
{
    flip_low_bits(value, bits as u64, rate, rng)
}

impl Chromosome for FixedBits<i64> {
    open spec fn valid(&self) -> bool {
        1 <= self.bits <= 64
    }

    open spec fn in_domain(&self) -> bool {
        signed_fits(self.value as int, self.bits as nat)
    }

    open spec fn same_config(&self, other: &Self) -> bool {
        self.bits == other.bits
    }

    open spec fn mutated(&self, post: &Self, rate: u32) -> bool {
        &&& signed_fits(post.value as int, self.bits as nat)
    &&& rate == 0 ==> post.value as int == signed_clamp(self.value as int, self.bits as nat)
    }

    /// Two's-complement mutation inside the `bits`-wide window.
    fn mutate(&mut self, rate: Rate, rng: &mut rand::rngs::StdRng) {
        self.value = fixed_flip_i64(self.value, self.bits, rate, rng);
        proof {
            if rate.is_zero() && old(self).in_domain() {
                assert(*self == *old(self));
            }
        }
    }
}

impl Chromosome for FixedBits<u64> {
    open spec fn valid(&self) -> bool {
        1 <= self.bits <= 64
    }

    open spec fn in_domain(&self) -> bool {
        true
    }

    open spec fn same_config(&self, other: &Self) -> bool {
        self.bits == other.bits
    }

    open spec fn mutated(&self, post: &Self, rate: u32) -> bool {
        &&& self.bits < 64 ==> post.value >> (self.bits as u64) == self.value >> (
        self.bits as u64)
    &&& rate == 0 ==> post.value == self.value
    }

    /// Bit-flip mutation restricted to the low `bits` positions; the high
    /// positions of the stored value never change.
    fn mutate(&mut self, rate: Rate, rng: &mut rand::rngs::StdRng) {
        self.value = fixed_flip_u64(self.value, self.bits, rate, rng);
    }
}

} // verus!
