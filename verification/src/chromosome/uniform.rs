use vstd::prelude::*;

use crate::chromosome::Chromosome;
use crate::rate::Rate;
use crate::walk::{clamp_int, uniform_walk_i64, uniform_walk_u64, walk_hi, walk_lo, walk_width};

verus! {

/// A scalar chromosome whose mutation operator is a clamped uniform random
/// walk inside `[min, max]` instead of bit flips.
///
/// A rate of one lets the mutated value become any number between `min` and
/// `max`; smaller rates draw from a proportionally narrower window around the
/// current value.
#[derive(Clone, Debug, PartialEq, Eq)]
pub struct UniformCh<T> {
    pub value: T,
    pub min: T,
    pub max: T,
}

impl<T> UniformCh<T> {
    /// Creates a chromosome whose value walks uniformly between `min` and
    /// `max`; the mutation rate dictates how wide a window around the current
    /// value the replacement is drawn from.
    pub fn new(value: T, min: T, max: T) -> (r: Self)
        ensures
            r.value == value,
            r.min == min,
            r.max == max,
    {
        Self { value, min, max }
    }
}

impl From<(i64, (i64, i64))> for UniformCh<i64> {
    /// Builds the chromosome from a value and its `(min, max)` bounds.
    fn from(parts: (i64, (i64, i64))) -> (r: Self) {
        UniformCh { value: parts.0, min: parts.1.0, max: parts.1.1 }
    }
}

impl vstd::std_specs::convert::FromSpecImpl<(i64, (i64, i64))> for UniformCh<i64> {
    open spec fn obeys_from_spec() -> bool {
        true
    }

    open spec fn from_spec(parts: (i64, (i64, i64))) -> Self {
        UniformCh { value: parts.0, min: parts.1.0, max: parts.1.1 }
    }
}

impl From<(u64, (u64, u64))> for UniformCh<u64> {
    /// Builds the chromosome from a value and its `(min, max)` bounds.
    fn from(parts: (u64, (u64, u64))) -> (r: Self) {
        UniformCh { value: parts.0, min: parts.1.0, max: parts.1.1 }
    }
}

impl vstd::std_specs::convert::FromSpecImpl<(u64, (u64, u64))> for UniformCh<u64> {
    open spec fn obeys_from_spec() -> bool {
        true
    }

    open spec fn from_spec(parts: (u64, (u64, u64))) -> Self {
        UniformCh { value: parts.0, min: parts.1.0, max: parts.1.1 }
    }
}

impl Chromosome for UniformCh<i64> {
    open spec fn valid(&self) -> bool {
        self.min <= self.max
    }

    open spec fn in_domain(&self) -> bool {
        self.min <= self.value <= self.max
    }

    open spec fn same_config(&self, other: &Self) -> bool {
        self.min == other.min && self.max == other.max
    }

    open spec fn mutated(&self, post: &Self, rate: u32) -> bool {
        &&& walk_lo(
            self.value as int,
            self.min as int,
            self.max as int,
            walk_width(self.max - self.min, rate as int),
        ) <= post.value as int <= walk_hi(
            self.value as int,
            self.min as int,
            self.max as int,
            walk_width(self.max - self.min, rate as int),
        )
    &&& rate == 0 ==> post.value as int == clamp_int(
            self.value as int,
            self.min as int,
            self.max as int,
        )
    }

    /// Uniform random walk: the new value is drawn from a window of width
    /// proportional to the rate, centred on the clamped current value and
    /// intersected with `[min, max]`.
    fn mutate(&mut self, rate: Rate, rng: &mut rand::rngs::StdRng) {
        self.value = uniform_walk_i64(self.value, self.min, self.max, rate, rng);
    }
}

impl Chromosome for UniformCh<u64> {
    open spec fn valid(&self) -> bool {
        self.min <= self.max
    }

    open spec fn in_domain(&self) -> bool {
        self.min <= self.value <= self.max
    }

    open spec fn same_config(&self, other: &Self) -> bool {
        self.min == other.min && self.max == other.max
    }

    open spec fn mutated(&self, post: &Self, rate: u32) -> bool {
        &&& walk_lo(
            self.value as int,
            self.min as int,
            self.max as int,
            walk_width(self.max - self.min, rate as int),
        ) <= post.value as int <= walk_hi(
            self.value as int,
            self.min as int,
            self.max as int,
            walk_width(self.max - self.min, rate as int),
        )
    &&& rate == 0 ==> post.value as int == clamp_int(
            self.value as int,
            self.min as int,
            self.max as int,
        )
    }

    /// Uniform random walk: the new value is drawn from a window of width
    /// proportional to the rate, centred on the clamped current value and
    /// intersected with `[min, max]`.
    fn mutate(&mut self, rate: Rate, rng: &mut rand::rngs::StdRng) {
        self.value = uniform_walk_u64(self.value, self.min, self.max, rate, rng);
    }
}

impl Chromosome for UniformCh<i32> {
    open spec fn valid(&self) -> bool {
        self.min <= self.max
    }

    open spec fn in_domain(&self) -> bool {
        self.min <= self.value <= self.max
    }

    open spec fn same_config(&self, other: &Self) -> bool {
        self.min == other.min && self.max == other.max
    }

    open spec fn mutated(&self, post: &Self, rate: u32) -> bool {
        &&& walk_lo(
            self.value as int,
            self.min as int,
            self.max as int,
            walk_width(self.max - self.min, rate as int),
        ) <= post.value as int <= walk_hi(
            self.value as int,
            self.min as int,
            self.max as int,
            walk_width(self.max - self.min, rate as int),
        )
    &&& rate == 0 ==> post.value as int == clamp_int(
            self.value as int,
            self.min as int,
            self.max as int,
        )
    }

    /// Uniform random walk: the new value is drawn from a window of width
    /// proportional to the rate, centred on the clamped current value and
    /// intersected with `[min, max]`.
    fn mutate(&mut self, rate: Rate, rng: &mut rand::rngs::StdRng) {
        let drawn: i64 = uniform_walk_i64(self.value as i64, self.min as i64, self.max as i64, rate, rng);
        self.value = drawn as i32;
    }
}

impl Chromosome for UniformCh<u32> {
    open spec fn valid(&self) -> bool {
        self.min <= self.max
    }

    open spec fn in_domain(&self) -> bool {
        self.min <= self.value <= self.max
    }

    open spec fn same_config(&self, other: &Self) -> bool {
        self.min == other.min && self.max == other.max
    }

    open spec fn mutated(&self, post: &Self, rate: u32) -> bool {
        &&& walk_lo(
            self.value as int,
            self.min as int,
            self.max as int,
            walk_width(self.max - self.min, rate as int),
        ) <= post.value as int <= walk_hi(
            self.value as int,
            self.min as int,
            self.max as int,
            walk_width(self.max - self.min, rate as int),
        )
    &&& rate == 0 ==> post.value as int == clamp_int(
            self.value as int,
            self.min as int,
            self.max as int,
        )
    }

    /// Uniform random walk: the new value is drawn from a window of width
    /// proportional to the rate, centred on the clamped current value and
    /// intersected with `[min, max]`.
    fn mutate(&mut self, rate: Rate, rng: &mut rand::rngs::StdRng) {
        let drawn: u64 = uniform_walk_u64(self.value as u64, self.min as u64, self.max as u64, rate, rng);
        self.value = drawn as u32;
    }
}

impl Chromosome for UniformCh<i16> {
    open spec fn valid(&self) -> bool {
        self.min <= self.max
    }

    open spec fn in_domain(&self) -> bool {
        self.min <= self.value <= self.max
    }

    open spec fn same_config(&self, other: &Self) -> bool {
        self.min == other.min && self.max == other.max
    }

    open spec fn mutated(&self, post: &Self, rate: u32) -> bool {
        &&& walk_lo(
            self.value as int,
            self.min as int,
            self.max as int,
            walk_width(self.max - self.min, rate as int),
        ) <= post.value as int <= walk_hi(
            self.value as int,
            self.min as int,
            self.max as int,
            walk_width(self.max - self.min, rate as int),
        )
    &&& rate == 0 ==> post.value as int == clamp_int(
            self.value as int,
            self.min as int,
            self.max as int,
        )
    }

    /// Uniform random walk: the new value is drawn from a window of width
    /// proportional to the rate, centred on the clamped current value and
    /// intersected with `[min, max]`.
    fn mutate(&mut self, rate: Rate, rng: &mut rand::rngs::StdRng) {
        let drawn: i64 = uniform_walk_i64(self.value as i64, self.min as i64, self.max as i64, rate, rng);
        self.value = drawn as i16;
    }
}

impl Chromosome for UniformCh<u16> {
    open spec fn valid(&self) -> bool {
        self.min <= self.max
    }

    open spec fn in_domain(&self) -> bool {
        self.min <= self.value <= self.max
    }

    open spec fn same_config(&self, other: &Self) -> bool {
        self.min == other.min && self.max == other.max
    }

    open spec fn mutated(&self, post: &Self, rate: u32) -> bool {
        &&& walk_lo(
            self.value as int,
            self.min as int,
            self.max as int,
            walk_width(self.max - self.min, rate as int),
        ) <= post.value as int <= walk_hi(
            self.value as int,
            self.min as int,
            self.max as int,
            walk_width(self.max - self.min, rate as int),
        )
    &&& rate == 0 ==> post.value as int == clamp_int(
            self.value as int,
            self.min as int,
            self.max as int,
        )
    }

    /// Uniform random walk: the new value is drawn from a window of width
    /// proportional to the rate, centred on the clamped current value and
    /// intersected with `[min, max]`.
    fn mutate(&mut self, rate: Rate, rng: &mut rand::rngs::StdRng) {
        let drawn: u64 = uniform_walk_u64(self.value as u64, self.min as u64, self.max as u64, rate, rng);
        self.value = drawn as u16;
    }
}

impl Chromosome for UniformCh<i8> {
    open spec fn valid(&self) -> bool {
        self.min <= self.max
    }

    open spec fn in_domain(&self) -> bool {
        self.min <= self.value <= self.max
    }

    open spec fn same_config(&self, other: &Self) -> bool {
        self.min == other.min && self.max == other.max
    }

    open spec fn mutated(&self, post: &Self, rate: u32) -> bool {
        &&& walk_lo(
            self.value as int,
            self.min as int,
            self.max as int,
            walk_width(self.max - self.min, rate as int),
        ) <= post.value as int <= walk_hi(
            self.value as int,
            self.min as int,
            self.max as int,
            walk_width(self.max - self.min, rate as int),
        )
    &&& rate == 0 ==> post.value as int == clamp_int(
            self.value as int,
            self.min as int,
            self.max as int,
        )
    }

    /// Uniform random walk: the new value is drawn from a window of width
    /// proportional to the rate, centred on the clamped current value and
    /// intersected with `[min, max]`.
    fn mutate(&mut self, rate: Rate, rng: &mut rand::rngs::StdRng) {
        let drawn: i64 = uniform_walk_i64(self.value as i64, self.min as i64, self.max as i64, rate, rng);
        self.value = drawn as i8;
    }
}

impl Chromosome for UniformCh<u8> {
    open spec fn valid(&self) -> bool {
        self.min <= self.max
    }

    open spec fn in_domain(&self) -> bool {
        self.min <= self.value <= self.max
    }

    open spec fn same_config(&self, other: &Self) -> bool {
        self.min == other.min && self.max == other.max
    }

    open spec fn mutated(&self, post: &Self, rate: u32) -> bool {
        &&& walk_lo(
            self.value as int,
            self.min as int,
            self.max as int,
            walk_width(self.max - self.min, rate as int),
        ) <= post.value as int <= walk_hi(
            self.value as int,
            self.min as int,
            self.max as int,
            walk_width(self.max - self.min, rate as int),
        )
    &&& rate == 0 ==> post.value as int == clamp_int(
            self.value as int,
            self.min as int,
            self.max as int,
        )
    }

    /// Uniform random walk: the new value is drawn from a window of width
    /// proportional to the rate, centred on the clamped current value and
    /// intersected with `[min, max]`.
    fn mutate(&mut self, rate: Rate, rng: &mut rand::rngs::StdRng) {
        let drawn: u64 = uniform_walk_u64(self.value as u64, self.min as u64, self.max as u64, rate, rng);
        self.value = drawn as u8;
    }
}

} // verus!
