use vstd::prelude::*;

use crate::traverse::Mutator;
use crate::walk::{clamp_int, uniform_walk_i64, uniform_walk_u64, walk_hi, walk_lo, walk_width};
use crate::wrapper::MutationWrapper;

verus! {

/// Gives a borrowed scalar a clamped uniform-random-walk mutation operator
/// with bounds supplied at the call site, so one field can use different
/// bounds at different use sites without a new stored type.
///
/// With a rate of one the mutated value can become any number between `min`
/// and `max`.
#[derive(Clone, Debug, PartialEq, Eq)]
pub struct UniformCh<T> {
    pub min: T,
    pub max: T,
}

impl<T> UniformCh<T> {
    /// Creates a wrapper whose value walks uniformly between `min` and `max`.
    pub fn new(min: T, max: T) -> (r: Self)
        ensures
            r.min == min,
            r.max == max,
    {
        Self { min, max }
    }
}

impl MutationWrapper<i64> for UniformCh<i64> {
    open spec fn ok(&self) -> bool {
        self.min <= self.max
    }

    open spec fn mutated(&self, pre: i64, post: i64, rate: u32) -> bool {
        &&& self.min <= post <= self.max
    &&& walk_lo(pre as int, self.min as int, self.max as int, walk_width(self.max - self.min, rate as int))
            <= post as int <= walk_hi(pre as int, self.min as int, self.max as int, walk_width(self.max - self.min, rate as int))
    &&& rate == 0 ==> post as int == clamp_int(pre as int, self.min as int, self.max as int)
    }

    /// Uniform random walk inside `[min, max]`.
    fn mutate_with(&self, value: &mut i64, m: &mut Mutator) {
        let rate = m.get_rate();
        *value = uniform_walk_i64(*value, self.min, self.max, rate, m.get_rng());
    }
}

impl MutationWrapper<u64> for UniformCh<u64> {
    open spec fn ok(&self) -> bool {
        self.min <= self.max
    }

    open spec fn mutated(&self, pre: u64, post: u64, rate: u32) -> bool {
        &&& self.min <= post <= self.max
    &&& walk_lo(pre as int, self.min as int, self.max as int, walk_width(self.max - self.min, rate as int))
            <= post as int <= walk_hi(pre as int, self.min as int, self.max as int, walk_width(self.max - self.min, rate as int))
    &&& rate == 0 ==> post as int == clamp_int(pre as int, self.min as int, self.max as int)
    }

    /// Uniform random walk inside `[min, max]`.
    fn mutate_with(&self, value: &mut u64, m: &mut Mutator) {
        let rate = m.get_rate();
        *value = uniform_walk_u64(*value, self.min, self.max, rate, m.get_rng());
    }
}

impl MutationWrapper<i32> for UniformCh<i32> {
    open spec fn ok(&self) -> bool {
        self.min <= self.max
    }

    open spec fn mutated(&self, pre: i32, post: i32, rate: u32) -> bool {
        &&& self.min <= post <= self.max
    &&& walk_lo(pre as int, self.min as int, self.max as int, walk_width(self.max - self.min, rate as int))
            <= post as int <= walk_hi(pre as int, self.min as int, self.max as int, walk_width(self.max - self.min, rate as int))
    &&& rate == 0 ==> post as int == clamp_int(pre as int, self.min as int, self.max as int)
    }

    /// Uniform random walk inside `[min, max]`.
    fn mutate_with(&self, value: &mut i32, m: &mut Mutator) {
        let rate = m.get_rate();
        let drawn: i64 = uniform_walk_i64(*value as i64, self.min as i64, self.max as i64, rate, m.get_rng());
        *value = drawn as i32;
    }
}

impl MutationWrapper<u32> for UniformCh<u32> {
    open spec fn ok(&self) -> bool {
        self.min <= self.max
    }

    open spec fn mutated(&self, pre: u32, post: u32, rate: u32) -> bool {
        &&& self.min <= post <= self.max
    &&& walk_lo(pre as int, self.min as int, self.max as int, walk_width(self.max - self.min, rate as int))
            <= post as int <= walk_hi(pre as int, self.min as int, self.max as int, walk_width(self.max - self.min, rate as int))
    &&& rate == 0 ==> post as int == clamp_int(pre as int, self.min as int, self.max as int)
    }

    /// Uniform random walk inside `[min, max]`.
    fn mutate_with(&self, value: &mut u32, m: &mut Mutator) {
        let rate = m.get_rate();
        let drawn: u64 = uniform_walk_u64(*value as u64, self.min as u64, self.max as u64, rate, m.get_rng());
        *value = drawn as u32;
    }
}

} // verus!
