use vstd::prelude::*;

pub mod fixed;
pub mod uniform;

use crate::rate::{Rate, RATE_DENOM};
use crate::rng::rng_below;

verus! {

/// A single scalar unit of genetic encoding with a defined mutation operator.
///
/// A rate of one asks for a fully scrambled value, a rate of zero leaves a
/// value that already lies in the encoding's domain unchanged.
pub trait Chromosome: Sized {
    /// The configuration of the encoding is admissible (bit widths in range,
    /// bounds ordered). Mutation requires and preserves it.
    spec fn valid(&self) -> bool;

    /// The current value lies in the encoding's conceptual domain.
    /// Mutation always re-establishes it, clamping stray values.
    spec fn in_domain(&self) -> bool;

    /// Both sides carry the same configuration (bit width, bounds);
    /// mutation never changes a configuration.
    spec fn same_config(&self, other: &Self) -> bool;

    /// The encoding's own relation between the value before and after one
    /// mutation under the given rate numerator: which parts of the value
    /// mutation may touch, and what a zero rate pins.
    spec fn mutated(&self, post: &Self, rate: u32) -> bool;

    /// Perturbs the value in place with intensity `rate`.
    fn mutate(&mut self, rate: Rate, rng: &mut rand::rngs::StdRng)
        requires
            old(self).valid(),
            rate.wf(),
        ensures
            final(self).valid(),
            final(self).in_domain(),
            old(self).same_config(final(self)),
            old(self).mutated(final(self), rate.num),
            rate.is_zero() && old(self).in_domain() ==> *final(self) == *old(self),
    ;
}

/// Flips each of the low `bits` bits of `value` independently with
/// probability `rate / 2`, so that a rate of one scrambles them uniformly.
pub(crate) fn flip_low_bits(value: u64, bits: u64, rate: Rate, rng: &mut rand::rngs::StdRng) -> (r: u64)
    requires
        1 <= bits <= 64,
        rate.wf(),
    ensures
        bits < 64 ==> r >> bits == value >> bits,
        rate.is_zero() ==> r == value,
{
    let mut v: u64 = value;
    let mut i: u64 = 0;
    while i < bits
        invariant
            i <= bits,
            bits <= 64,
            rate.wf(),
            bits < 64 ==> v >> bits == value >> bits,
            rate.num == 0 ==> v == value,
        decreases bits - i,
    {
        if rng_below(rng, 2 * (RATE_DENOM as u64)) < rate.num as u64 {
            let ghost pre: u64 = v;
            v = v ^ (1u64 << i);
            proof {
                if bits < 64 {
                    assert((pre ^ (1u64 << i)) >> bits == pre >> bits) by (bit_vector)
                        requires
                            i < bits,
                            bits < 64u64,
                    ;
                }
            }
        }
        i += 1;
    }
    v
}

pub(crate) proof fn lemma_i64_u64_roundtrip(x: i64)
    ensures
        ((x as u64) as i64) == x,
{
    assert(((x as u64) as i64) == x) by (bit_vector);
}

proof fn lemma_i32_u32_roundtrip(x: i32)
    ensures
        ((x as u32) as i32) == x,
{
    assert(((x as u32) as i32) == x) by (bit_vector);
}

proof fn lemma_i16_u16_roundtrip(x: i16)
    ensures
        ((x as u16) as i16) == x,
{
    assert(((x as u16) as i16) == x) by (bit_vector);
}

proof fn lemma_i8_u8_roundtrip(x: i8)
    ensures
        ((x as u8) as i8) == x,
{
    assert(((x as u8) as i8) == x) by (bit_vector);
}

proof fn lemma_u128_halves(x: u128)
    ensures
        (((x as u64) as u128) | ((((x >> 64) as u64) as u128) << 64)) == x,
{
    assert((((x as u64) as u128) | ((((x >> 64) as u64) as u128) << 64)) == x) by (bit_vector);
}

proof fn lemma_i128_u128_roundtrip(x: i128)
    ensures
        ((x as u128) as i128) == x,
{
    assert(((x as u128) as i128) == x) by (bit_vector);
}

proof fn lemma_shr_zero_bound(x: u64, b: u64)
    requires
        b < 64,
        x >> b == 0,
    ensures
        x < (1u64 << b),
{
    assert(x >> b == 0 ==> x < (1u64 << b)) by (bit_vector)
        requires
            b < 64u64,
    ;
}

impl Chromosome for u64 {
    open spec fn valid(&self) -> bool {
        true
    }

    open spec fn in_domain(&self) -> bool {
        true
    }

    open spec fn same_config(&self, other: &Self) -> bool {
        true
    }

    open spec fn mutated(&self, post: &Self, rate: u32) -> bool {
        true
    }

    /// Bit-flip mutation over the full native width.
    fn mutate(&mut self, rate: Rate, rng: &mut rand::rngs::StdRng) {
        *self = flip_low_bits(*self, 64, rate, rng);
    }
}

impl Chromosome for i64 {
    open spec fn valid(&self) -> bool {
        true
    }

    open spec fn in_domain(&self) -> bool {
        true
    }

    open spec fn same_config(&self, other: &Self) -> bool {
        true
    }

    open spec fn mutated(&self, post: &Self, rate: u32) -> bool {
        true
    }

    /// Bit-flip mutation over the two's-complement bit pattern.
    fn mutate(&mut self, rate: Rate, rng: &mut rand::rngs::StdRng) {
        let u: u64 = *self as u64;
        let f: u64 = flip_low_bits(u, 64, rate, rng);
        proof {
            lemma_i64_u64_roundtrip(*self);
        }
        *self = f as i64;
    }
}

impl Chromosome for u32 {
    open spec fn valid(&self) -> bool {
        true
    }

    open spec fn in_domain(&self) -> bool {
        true
    }

    open spec fn same_config(&self, other: &Self) -> bool {
        true
    }

    open spec fn mutated(&self, post: &Self, rate: u32) -> bool {
        true
    }

    /// Bit-flip mutation over the full native width.
    fn mutate(&mut self, rate: Rate, rng: &mut rand::rngs::StdRng) {
        let u: u64 = *self as u64;
        let f: u64 = flip_low_bits(u, 32, rate, rng);
        proof {
            assert(u >> 32u64 == 0) by (bit_vector)
                requires
                    u < 0x1_0000_0000u64,
            ;
            lemma_shr_zero_bound(f, 32);
            assert((1u64 << 32u64) == 0x1_0000_0000u64) by (bit_vector);
        }
        *self = f as u32;
    }
}

impl Chromosome for i32 {
    open spec fn valid(&self) -> bool {
        true
    }

    open spec fn in_domain(&self) -> bool {
        true
    }

    open spec fn same_config(&self, other: &Self) -> bool {
        true
    }

    open spec fn mutated(&self, post: &Self, rate: u32) -> bool {
        true
    }

    /// Bit-flip mutation over the two's-complement bit pattern.
    fn mutate(&mut self, rate: Rate, rng: &mut rand::rngs::StdRng) {
        let u: u64 = (*self as u32) as u64;
        let f: u64 = flip_low_bits(u, 32, rate, rng);
        proof {
            assert(u >> 32u64 == 0) by (bit_vector)
                requires
                    u < 0x1_0000_0000u64,
            ;
            lemma_shr_zero_bound(f, 32);
            assert((1u64 << 32u64) == 0x1_0000_0000u64) by (bit_vector);
            lemma_i32_u32_roundtrip(*self);
        }
        *self = (f as u32) as i32;
    }
}

impl Chromosome for u16 {
    open spec fn valid(&self) -> bool {
        true
    }

    open spec fn in_domain(&self) -> bool {
        true
    }

    open spec fn same_config(&self, other: &Self) -> bool {
        true
    }

    open spec fn mutated(&self, post: &Self, rate: u32) -> bool {
        true
    }

    /// Bit-flip mutation over the full native width.
    fn mutate(&mut self, rate: Rate, rng: &mut rand::rngs::StdRng) {
        let u: u64 = *self as u64;
        let f: u64 = flip_low_bits(u, 16, rate, rng);
        proof {
            assert(u >> 16u64 == 0) by (bit_vector)
                requires
                    u < 0x1_0000u64,
            ;
            lemma_shr_zero_bound(f, 16);
            assert((1u64 << 16u64) == 0x1_0000u64) by (bit_vector);
        }
        *self = f as u16;
    }
}

impl Chromosome for i16 {
    open spec fn valid(&self) -> bool {
        true
    }

    open spec fn in_domain(&self) -> bool {
        true
    }

    open spec fn same_config(&self, other: &Self) -> bool {
        true
    }

    open spec fn mutated(&self, post: &Self, rate: u32) -> bool {
        true
    }

    /// Bit-flip mutation over the two's-complement bit pattern.
    fn mutate(&mut self, rate: Rate, rng: &mut rand::rngs::StdRng) {
        let u: u64 = (*self as u16) as u64;
        let f: u64 = flip_low_bits(u, 16, rate, rng);
        proof {
            assert(u >> 16u64 == 0) by (bit_vector)
                requires
                    u < 0x1_0000u64,
            ;
            lemma_shr_zero_bound(f, 16);
            assert((1u64 << 16u64) == 0x1_0000u64) by (bit_vector);
            lemma_i16_u16_roundtrip(*self);
        }
        *self = (f as u16) as i16;
    }
}

impl Chromosome for u8 {
    open spec fn valid(&self) -> bool {
        true
    }

    open spec fn in_domain(&self) -> bool {
        true
    }

    open spec fn same_config(&self, other: &Self) -> bool {
        true
    }

    open spec fn mutated(&self, post: &Self, rate: u32) -> bool {
        true
    }

    /// Bit-flip mutation over the full native width.
    fn mutate(&mut self, rate: Rate, rng: &mut rand::rngs::StdRng) {
        let u: u64 = *self as u64;
        let f: u64 = flip_low_bits(u, 8, rate, rng);
        proof {
            assert(u >> 8u64 == 0) by (bit_vector)
                requires
                    u < 0x100u64,
            ;
            lemma_shr_zero_bound(f, 8);
            assert((1u64 << 8u64) == 0x100u64) by (bit_vector);
        }
        *self = f as u8;
    }
}

impl Chromosome for i8 {
    open spec fn valid(&self) -> bool {
        true
    }

    open spec fn in_domain(&self) -> bool {
        true
    }

    open spec fn same_config(&self, other: &Self) -> bool {
        true
    }

    open spec fn mutated(&self, post: &Self, rate: u32) -> bool {
        true
    }

    /// Bit-flip mutation over the two's-complement bit pattern.
    fn mutate(&mut self, rate: Rate, rng: &mut rand::rngs::StdRng) {
        let u: u64 = (*self as u8) as u64;
        let f: u64 = flip_low_bits(u, 8, rate, rng);
        proof {
            assert(u >> 8u64 == 0) by (bit_vector)
                requires
                    u < 0x100u64,
            ;
            lemma_shr_zero_bound(f, 8);
            assert((1u64 << 8u64) == 0x100u64) by (bit_vector);
            lemma_i8_u8_roundtrip(*self);
        }
        *self = (f as u8) as i8;
    }
}

impl Chromosome for u128 {
    open spec fn valid(&self) -> bool {
        true
    }

    open spec fn in_domain(&self) -> bool {
        true
    }

    open spec fn same_config(&self, other: &Self) -> bool {
        true
    }

    open spec fn mutated(&self, post: &Self, rate: u32) -> bool {
        true
    }

    /// Bit-flip mutation over the full native width, one 64-bit half at a
    /// time.
    fn mutate(&mut self, rate: Rate, rng: &mut rand::rngs::StdRng) {
        let low: u64 = *self as u64;
        let high: u64 = (*self >> 64u32) as u64;
        let flipped_low: u64 = flip_low_bits(low, 64, rate, rng);
        let flipped_high: u64 = flip_low_bits(high, 64, rate, rng);
        proof {
            lemma_u128_halves(*self);
        }
        *self = (flipped_low as u128) | ((flipped_high as u128) << 64u32);
    }
}

impl Chromosome for i128 {
    open spec fn valid(&self) -> bool {
        true
    }

    open spec fn in_domain(&self) -> bool {
        true
    }

    open spec fn same_config(&self, other: &Self) -> bool {
        true
    }

    open spec fn mutated(&self, post: &Self, rate: u32) -> bool {
        true
    }

    /// Bit-flip mutation over the two's-complement bit pattern, one 64-bit
    /// half at a time.
    fn mutate(&mut self, rate: Rate, rng: &mut rand::rngs::StdRng) {
        let pattern: u128 = *self as u128;
        let low: u64 = pattern as u64;
        let high: u64 = (pattern >> 64u32) as u64;
        let flipped_low: u64 = flip_low_bits(low, 64, rate, rng);
        let flipped_high: u64 = flip_low_bits(high, 64, rate, rng);
        proof {
            lemma_u128_halves(pattern);
            lemma_i128_u128_roundtrip(*self);
        }
        *self = ((flipped_low as u128) | ((flipped_high as u128) << 64u32)) as i128;
    }
}

/// Marks a sub-genome as a single group: the whole wrapped tree counts as
/// one chromosome unit, and crossover decides once whether to swap all of
/// its leaves together.
pub struct GroupCh<T> {
    pub wrapped: T,
}

impl<T> GroupCh<T> {
    pub fn new(wrapped: T) -> (r: Self)
        ensures
            r.wrapped == wrapped,
    {
        Self { wrapped }
    }
}

impl Chromosome for bool {
    open spec fn valid(&self) -> bool {
        true
    }

    open spec fn in_domain(&self) -> bool {
        true
    }

    open spec fn same_config(&self, other: &Self) -> bool {
        true
    }

    open spec fn mutated(&self, post: &Self, rate: u32) -> bool {
        true
    }

    /// Toggles the value with probability `rate / 2`.
    fn mutate(&mut self, rate: Rate, rng: &mut rand::rngs::StdRng) {
        if rng_below(rng, 2 * (RATE_DENOM as u64)) < rate.num as u64 {
            *self = !*self;
        }
    }
}

impl<C: Chromosome> Chromosome for Box<C> {
    open spec fn valid(&self) -> bool {
        (**self).valid()
    }

    open spec fn in_domain(&self) -> bool {
        (**self).in_domain()
    }

    open spec fn same_config(&self, other: &Self) -> bool {
        (**self).same_config(&**other)
    }

    open spec fn mutated(&self, post: &Self, rate: u32) -> bool {
        (**self).mutated(&**post, rate)
    }

    /// Delegates to the boxed chromosome.
    fn mutate(&mut self, rate: Rate, rng: &mut rand::rngs::StdRng) {
        (&mut **self).mutate(rate, rng);
    }
}

impl Chromosome for () {
    open spec fn valid(&self) -> bool {
        true
    }

    open spec fn in_domain(&self) -> bool {
        true
    }

    open spec fn same_config(&self, other: &Self) -> bool {
        true
    }

    open spec fn mutated(&self, post: &Self, rate: u32) -> bool {
        true
    }

    /// Does nothing.
    fn mutate(&mut self, rate: Rate, rng: &mut rand::rngs::StdRng) {
    }
}

} // verus!
