//! A composable mutation and crossover engine for evolutionary-algorithm
//! individuals, verified with Verus.
//!
//! An individual's genetic encoding is an arbitrarily nested tree of scalar
//! chromosomes. The caller declares once, through the [`chromosome::Chromosome`]
//! and [`genome::Genome`] traits, how each leaf scalar is perturbed and how two
//! individuals exchange leaves; [`mutate`], [`crossover`] and [`reproduce`]
//! then drive one recursive traversal per operation, threading a single
//! session object — the rate and random stream for mutation, the swap-decision
//! state for crossover — through the whole tree.
//!
//! The contracts are stated over each genome's ordered sequence of leaf
//! values: mutation keeps every leaf inside its encoding's domain and a zero
//! rate changes nothing; crossover only ever keeps or exchanges whole leaf
//! pairs, so the combined collection of leaf values of the two individuals is
//! preserved; and a group's single swap decision applies to all of its leaves
//! together.

use vstd::prelude::*;

pub mod chromosome;
pub mod genome;
pub mod rate;
mod rng;
pub mod traverse;
pub mod walk;
pub mod wrapper;

pub use rate::{Rate, RATE_DENOM};

use genome::{leaf_exchange, Genome};
use rng::split_rng;
use traverse::{Crossover, CrossoverMethod, CrossoverState, Mutator};

verus! {

/// Mutates all of the chromosomes in `individual` with intensity `rate`.
///
/// A rate of one means the chromosomes are fully scrambled; a rate of zero
/// leaves every in-domain chromosome unchanged.
pub fn mutate<G: Genome>(individual: &mut G, rate: Rate, rng: &mut rand::rngs::StdRng)
    requires
        old(individual).wf(),
        rate.wf(),
    ensures
        final(individual).wf(),
        final(individual).in_domain(),
        final(individual).units() == old(individual).units(),
        final(individual).leaves().len() == old(individual).leaves().len(),
        rate.is_zero() && old(individual).in_domain() ==> final(individual).leaves()
            == old(individual).leaves(),
{
    let session_rng = split_rng(rng);
    let mut mutator = Mutator::new(rate, session_rng);
    individual.mutate(&mut mutator);
}

/// Performs the crossover operation on the two individuals: depending on
/// `method`, chromosomes of the two are swapped pairwise in place, mixing
/// their genetic code.
///
/// Whatever the method, each leaf pair is kept or exchanged whole, so the
/// combined collection of leaf values of the two individuals is preserved,
/// and a uniform method with rate zero changes nothing. On individuals of
/// the same shape the operation is a pure per-position exchange of aligned
/// leaves. The two individuals should report the same `size_hint`; with
/// differing shapes the exchange still only permutes leaf values, but which
/// pairs are formed is unspecified.
pub fn crossover<G: Genome>(
    left: &mut G,
    right: &mut G,
    method: CrossoverMethod,
    rng: &mut rand::rngs::StdRng,
)
    requires
        old(left).wf(),
        old(right).wf(),
        method.wf(),
    ensures
        final(left).wf(),
        final(right).wf(),
        final(left).units() == old(left).units(),
        final(right).units() == old(right).units(),
        final(left).leaves().len() == old(left).leaves().len(),
        final(right).leaves().len() == old(right).leaves().len(),
        final(left).leaves().to_multiset().add(final(right).leaves().to_multiset())
            == old(left).leaves().to_multiset().add(old(right).leaves().to_multiset()),
        old(left).compatible(old(right)) ==> leaf_exchange(
            old(left).leaves(),
            old(right).leaves(),
            final(left).leaves(),
            final(right).leaves(),
        ),
        old(left).in_domain() && old(right).in_domain() ==> final(left).in_domain()
            && final(right).in_domain(),
        (method matches CrossoverMethod::Uniform(urate) ==> (urate.is_zero()
            ==> final(left).leaves() == old(left).leaves() && final(right).leaves()
            == old(right).leaves())),
{
    let state = match method {
        CrossoverMethod::Uniform(urate) => CrossoverState::Uniform(urate),
        CrossoverMethod::KPoint(desired) => CrossoverState::KPoint {
            count: 0,
            length: left.size_hint() as u64,
            swapped: 0,
            desired,
        },
    };
    let session_rng = split_rng(rng);
    let mut session = Crossover::new(session_rng, state);
    left.crossover(right, &mut session);
}

/// Reproduces two parent individuals: the children start as copies of the
/// parents, exchange chromosomes by `method`, and then each mutates under
/// its own freshly seeded random stream, so that one child's mutation does
/// not depend on the other's.
///
/// Before mutation the two children together hold exactly the parents'
/// combined leaf values; with a zero mutation rate that collection is what
/// the call returns.
pub fn reproduce<G: Genome>(
    parent_left: &G,
    parent_right: &G,
    crossover_method: CrossoverMethod,
    mutation_rate: Rate,
    rng: &mut rand::rngs::StdRng,
) -> (children: (G, G))
    requires
        parent_left.wf(),
        parent_right.wf(),
        crossover_method.wf(),
        mutation_rate.wf(),
    ensures
        children.0.wf(),
        children.1.wf(),
        children.0.units() == parent_left.units(),
        children.1.units() == parent_right.units(),
        children.0.leaves().len() == parent_left.leaves().len(),
        children.1.leaves().len() == parent_right.leaves().len(),
        parent_left.in_domain() && parent_right.in_domain() ==> children.0.in_domain()
            && children.1.in_domain(),
        mutation_rate.is_zero() && parent_left.in_domain() && parent_right.in_domain()
            ==> children.0.leaves().to_multiset().add(children.1.leaves().to_multiset())
            == parent_left.leaves().to_multiset().add(parent_right.leaves().to_multiset()),
        (crossover_method matches CrossoverMethod::Uniform(urate) ==> (urate.is_zero()
            && mutation_rate.is_zero() && parent_left.in_domain() && parent_right.in_domain()
            ==> children.0.leaves() == parent_left.leaves() && children.1.leaves()
            == parent_right.leaves())),
{
    let mut child_left = parent_left.duplicate();
    let mut child_right = parent_right.duplicate();
    crossover(&mut child_left, &mut child_right, crossover_method, rng);
    let mut left_rng = split_rng(rng);
    let mut right_rng = split_rng(rng);
    mutate(&mut child_left, mutation_rate, &mut left_rng);
    mutate(&mut child_right, mutation_rate, &mut right_rng);
    (child_left, child_right)
}

} // verus!
