use vstd::prelude::*;

pub mod fixed;
pub mod reorder;
pub mod uniform;

use crate::traverse::{Crossover, Mutator};

verus! {

/// Overrides how a borrowed value mutates, without changing the value's own
/// declared type: the caller hands the wrapper and the value to
/// `Mutator::with`.
///
/// `mutated` is the wrapper's contract: it relates the value before and
/// after one mutation under a given rate numerator.
pub trait MutationWrapper<V>: Sized {
    /// The wrapper's own parameters are admissible.
    spec fn ok(&self) -> bool;

    /// What one mutation under rate `rate / RATE_DENOM` may do to the value.
    spec fn mutated(&self, pre: V, post: V, rate: u32) -> bool;

    /// Mutates the borrowed value with the wrapper's semantics under the
    /// session's active rate.
    fn mutate_with(&self, value: &mut V, m: &mut Mutator)
        requires
            self.ok(),
            old(m).wf(),
        ensures
            final(m).wf(),
            final(m).rates() == old(m).rates(),
            self.mutated(*old(value), *final(value), old(m).rate_num()),
    ;
}

/// The crossover counterpart of `MutationWrapper`: overrides how a pair of
/// borrowed values is crossed over, via `Crossover::with`.
pub trait CrossoverWrapper<V>: Sized {
    /// The wrapper's own parameters are admissible.
    spec fn ok(&self) -> bool;

    /// What one crossover may do to the pair of values.
    spec fn crossed(&self, pre_left: V, pre_right: V, post_left: V, post_right: V) -> bool;

    /// Crosses the borrowed values over with the wrapper's semantics.
    fn crossover_with(&self, left: &mut V, right: &mut V, c: &mut Crossover)
        requires
            self.ok(),
            old(c).wf(),
        ensures
            final(c).wf(),
            final(c).same_policy(old(c)),
            self.crossed(*old(left), *old(right), *final(left), *final(right)),
    ;
}

} // verus!
