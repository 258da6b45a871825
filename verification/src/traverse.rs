use vstd::prelude::*;

use crate::chromosome::Chromosome;
use crate::genome::{leaf_exchange, Genome};
use crate::rate::{Rate, RATE_DENOM};
use crate::rng::rng_below;
use crate::wrapper::{CrossoverWrapper, MutationWrapper};

verus! {

/// Chooses how chromosomes of two individuals are mixed by `crossover`.
#[derive(Clone, Copy, Debug, PartialEq, Eq, Structural)]
pub enum CrossoverMethod {
    /// Rolls an independent coin for each chromosome: a rate of one swaps
    /// each chromosome with probability one half, a rate of zero swaps none.
    Uniform(Rate),
    /// Splits the genome into segments aiming for about `k` transition
    /// points, swapping every other segment.
    KPoint(u64),
}

impl CrossoverMethod {
    pub open spec fn wf(self) -> bool {
        match self {
            CrossoverMethod::Uniform(rate) => rate.wf(),
            CrossoverMethod::KPoint(_) => true,
        }
    }
}

/// The internal swap-decision state a crossover session advances through.
#[derive(Clone, Copy, Debug, PartialEq, Eq, Structural)]
pub enum CrossoverState {
    /// Independent coin per chromosome, with probability `rate / 2`.
    Uniform(Rate),
    /// Online segment splitting: `count` chromosomes of `length` seen so
    /// far, `swapped` of the `desired` transitions placed.
    KPoint { count: u64, length: u64, swapped: u64, desired: u64 },
    /// A group's single pre-drawn decision, applied to every leaf inside.
    Fixed(bool),
}

impl CrossoverState {
    pub open spec fn wf(self) -> bool {
        match self {
            CrossoverState::Uniform(rate) => rate.wf(),
            CrossoverState::KPoint { count, length, swapped, desired } => swapped <= desired
                && count <= length,
            CrossoverState::Fixed(_) => true,
        }
    }

    /// A state that can never ask for a swap.
    pub open spec fn inert(self) -> bool {
        match self {
            CrossoverState::Uniform(rate) => rate.is_zero(),
            CrossoverState::KPoint { .. } => false,
            CrossoverState::Fixed(b) => !b,
        }
    }

    /// Same policy: the same variant with the same fixed parameters;
    /// only k-point bookkeeping counters may differ.
    pub open spec fn same_policy(self, other: Self) -> bool {
        match (self, other) {
            (CrossoverState::Uniform(r1), CrossoverState::Uniform(r2)) => r1 == r2,
            (
                CrossoverState::KPoint { length: l1, desired: d1, .. },
                CrossoverState::KPoint { length: l2, desired: d2, .. },
            ) => l1 == l2 && d1 == d2,
            (CrossoverState::Fixed(b1), CrossoverState::Fixed(b2)) => b1 == b2,
            _ => false,
        }
    }
}

/// A traversal session that carries the mutation rate and the random stream
/// through a whole recursive mutate call.
///
/// The rate is kept as a stack so that a sub-tree can run under a rescaled
/// rate and the previous rate is restored afterwards.
pub struct Mutator {
    rates: Vec<u32>,
    rng: rand::rngs::StdRng,
}

impl Mutator {
    /// The stack of rate numerators; the last entry is the active rate.
    pub closed spec fn rates(&self) -> Seq<u32> {
        self.rates@
    }

    pub open spec fn wf(&self) -> bool {
        &&& self.rates().len() >= 1
    &&& forall|i: int| 0 <= i < self.rates().len() ==> #[trigger] self.rates()[i] <= RATE_DENOM
    }

    /// The active rate numerator.
    pub open spec fn rate_num(&self) -> u32 {
        self.rates().last()
    }

    pub open spec fn rate_is_zero(&self) -> bool {
        self.rate_num() == 0
    }

    /// Opens a mutation session with the given rate, taking ownership of the
    /// random stream for the session's lifetime.
    pub fn new(rate: Rate, rng: rand::rngs::StdRng) -> (m: Mutator)
        requires
            rate.wf(),
        ensures
            m.wf(),
            m.rates() =~= seq![rate.num],
    {
        let mut rates: Vec<u32> = Vec::new();
        rates.push(rate.num);
        Mutator { rates, rng }
    }

    /// The active mutation rate.
    pub fn get_rate(&self) -> (r: Rate)
        requires
            self.wf(),
        ensures
            r.num == self.rate_num(),
            r.wf(),
    {
        Rate { num: self.rates[self.rates.len() - 1] }
    }

    /// Mutates a single chromosome under the active rate.
    pub fn chromosome<C: Chromosome>(&mut self, ch: &mut C)
        requires
            old(self).wf(),
            old(ch).valid(),
        ensures
            final(self).wf(),
            final(self).rates() == old(self).rates(),
            final(ch).valid(),
            final(ch).in_domain(),
            old(ch).same_config(final(ch)),
            old(ch).mutated(final(ch), old(self).rate_num()),
            old(self).rate_is_zero() && old(ch).in_domain() ==> *final(ch) == *old(ch),
    {
        let rate = self.get_rate();
        ch.mutate(rate, &mut self.rng);
    }

    /// Mutates a whole sub-genome under this session.
    pub fn genome<G: Genome>(&mut self, genome: &mut G)
        requires
            old(self).wf(),
            old(genome).wf(),
        ensures
            final(self).wf(),
            final(self).rates() == old(self).rates(),
            final(genome).wf(),
            final(genome).in_domain(),
            final(genome).units() == old(genome).units(),
            final(genome).leaves().len() == old(genome).leaves().len(),
            old(self).rate_is_zero() && old(genome).in_domain() ==> final(genome).leaves() == old(
                genome,
            ).leaves(),
    {
        genome.mutate(self);
    }

    /// Mutates a borrowed value with the semantics that `wrapper` supplies
    /// instead of the value's own mutation operator.
    pub fn with<V, W: MutationWrapper<V>>(&mut self, wrapper: &W, value: &mut V)
        requires
            old(self).wf(),
            wrapper.ok(),
        ensures
            final(self).wf(),
            final(self).rates() == old(self).rates(),
            wrapper.mutated(*old(value), *final(value), old(self).rate_num()),
    {
        wrapper.mutate_with(value, self);
    }

    /// Lends out the session's random stream, for mutation operators that
    /// draw directly from it; most genomes only need `rand_below`.
    pub fn get_rng(&mut self) -> (r: &mut rand::rngs::StdRng)
        requires
            old(self).wf(),
        ensures
            final(self).wf(),
            final(self).rates() == old(self).rates(),
    {
        &mut self.rng
    }

    /// A uniform draw below `n` from the session's random stream.
    pub fn rand_below(&mut self, n: u64) -> (r: u64)
        requires
            old(self).wf(),
            n >= 1,
        ensures
            final(self).wf(),
            final(self).rates() == old(self).rates(),
            r < n,
    {
        rng_below(&mut self.rng, n)
    }

    /// The rate that `multiply_rate` makes active: the current rate
    /// multiplied by `factor_num / factor_den` and clamped to one.
    pub open spec fn scaled_rate(rate: u32, factor_num: u64, factor_den: u64) -> u32 {
        let scaled: int = rate as int * factor_num as int / factor_den as int;
        if scaled >= RATE_DENOM {
            RATE_DENOM
        } else {
            scaled as u32
        }
    }

    /// Rescales the active rate by `factor_num / factor_den` (clamped into
    /// `[0, 1]`) for the operations that follow, until `restore_rate` brings
    /// the previous rate back; used to make a sub-structure mutate at a
    /// different relative intensity than its siblings.
    pub fn multiply_rate(&mut self, factor_num: u64, factor_den: u64)
        requires
            old(self).wf(),
            factor_den >= 1,
        ensures
            final(self).wf(),
            final(self).rates() == old(self).rates().push(
                Mutator::scaled_rate(old(self).rate_num(), factor_num, factor_den),
            ),
            final(self).rate_num() == Mutator::scaled_rate(
                old(self).rate_num(),
                factor_num,
                factor_den,
            ),
            old(self).rate_is_zero() ==> final(self).rate_is_zero(),
    {
        let cur: u32 = self.rates[self.rates.len() - 1];
        proof {
            assert((cur as int) * (factor_num as int) <= (u32::MAX as int) * (u64::MAX as int))
                by (nonlinear_arith)
                requires
                    cur <= u32::MAX,
                    factor_num <= u64::MAX,
            ;
            if cur == 0 {
                vstd::arithmetic::div_mod::lemma_div_basics(factor_den as int);
                assert(0int * (factor_num as int) == 0) by (nonlinear_arith);
            }
        }
        let scaled: u128 = (cur as u128) * (factor_num as u128) / (factor_den as u128);
        let num: u32 = if scaled >= RATE_DENOM as u128 {
            RATE_DENOM
        } else {
            scaled as u32
        };
        self.rates.push(num);
    }

    /// Restores the rate that was active before the matching
    /// `multiply_rate`.
    pub fn restore_rate(&mut self)
        requires
            old(self).wf(),
            old(self).rates().len() >= 2,
        ensures
            final(self).wf(),
            final(self).rates() == old(self).rates().drop_last(),
    {
        let _ = self.rates.pop();
    }
}

/// A traversal session that carries the random stream and the swap-decision
/// state through a whole recursive crossover call.
///
/// The state is kept as a stack: entering a group pushes the group's single
/// pre-drawn decision, leaving it restores the enclosing policy.
pub struct Crossover {
    states: Vec<CrossoverState>,
    rng: rand::rngs::StdRng,
}

impl Crossover {
    /// The stack of decision states; the last entry is the active one.
    pub closed spec fn states(&self) -> Seq<CrossoverState> {
        self.states@
    }

    pub open spec fn wf(&self) -> bool {
        &&& self.states().len() >= 1
    &&& forall|i: int| 0 <= i < self.states().len() ==> (#[trigger] self.states()[i]).wf()
    }

    /// The active decision state.
    pub open spec fn top(&self) -> CrossoverState {
        self.states().last()
    }

    pub open spec fn depth(&self) -> nat {
        self.states().len()
    }

    /// A session that can never swap anything: every state on the stack is
    /// a zero-rate coin or a negative group decision.
    pub open spec fn inert(&self) -> bool {
        forall|i: int| 0 <= i < self.states().len() ==> (#[trigger] self.states()[i]).inert()
    }

    /// Both sessions run the same stack of policies; only k-point
    /// bookkeeping counters may differ.
    pub open spec fn same_policy(&self, other: &Crossover) -> bool {
        &&& self.states().len() == other.states().len()
    &&& forall|i: int| 0 <= i < self.states().len() ==> (#[trigger] self.states()[i]).same_policy(
            other.states()[i],
        )
    }

    /// Opens a crossover session, taking ownership of the random stream for
    /// the session's lifetime.
    pub(crate) fn new(rng: rand::rngs::StdRng, state: CrossoverState) -> (c: Crossover)
        requires
            state.wf(),
        ensures
            c.wf(),
            c.states() =~= seq![state],
    {
        let mut states: Vec<CrossoverState> = Vec::new();
        states.push(state);
        Crossover { states, rng }
    }

    /// Draws the next swap decision and advances the active state.
    fn should_flip(&mut self) -> (r: bool)
        requires
            old(self).wf(),
        ensures
            final(self).wf(),
            final(self).same_policy(old(self)),
            final(self).states().drop_last() == old(self).states().drop_last(),
            old(self).inert() ==> !r && final(self).inert(),
            (old(self).top() matches CrossoverState::Fixed(b) ==> r == b && final(self).states()
                == old(self).states()),
            (old(self).top() matches CrossoverState::Uniform(rate) ==> final(self).states() == old(
                self,
            ).states() && (rate.is_zero() ==> !r)),
            (old(self).top() matches CrossoverState::KPoint { count: c0, length: l0, swapped: s0, desired: d0 }
                ==> (final(self).top() matches CrossoverState::KPoint { count: c1, length: l1, swapped: s1, desired: d1 }
                    && l1 == l0 && d1 == d0 && (c0 < l0 ==> c1 == c0 + 1 && (s1 == s0 || s1 == s0
                    + 1)) && (c0 >= l0 ==> c1 == c0 && s1 == s0) && r == (s1 % 2 == 1))),
    {
        let last: usize = self.states.len() - 1;
        let st = self.states[last];
        match st {
            CrossoverState::Uniform(rate) => {
                rng_below(&mut self.rng, 2 * (RATE_DENOM as u64)) < rate.num as u64
            }
            CrossoverState::Fixed(b) => b,
            CrossoverState::KPoint { count, length, swapped, desired } => {
                let mut new_swapped: u64 = swapped;
                if count < length {
                    let rem: u64 = length - count;
                    let need: u64 = desired - swapped;
                    let draw: u64 = rng_below(&mut self.rng, rem);
                    if draw < need {
                        new_swapped = swapped + 1;
                    }
                    self.states.set(
                        last,
                        CrossoverState::KPoint {
                            count: count + 1,
                            length,
                            swapped: new_swapped,
                            desired,
                        },
                    );
                    proof {
                        assert(self.states@.drop_last() =~= old(self).states().drop_last());
                    }
                }
                new_swapped % 2 == 1
            }
        }
    }

    /// Performs the session's swap decision on one chromosome pair:
    /// either both values stay or they are exchanged whole.
    pub fn chromosome<Ch>(&mut self, left: &mut Ch, right: &mut Ch)
        requires
            old(self).wf(),
        ensures
            final(self).wf(),
            final(self).same_policy(old(self)),
            final(self).states().drop_last() == old(self).states().drop_last(),
            (*final(left) == *old(left) && *final(right) == *old(right)) || (*final(left) == *old(
                right,
            ) && *final(right) == *old(left)),
            old(self).inert() ==> *final(left) == *old(left) && *final(right) == *old(right)
                && final(self).inert(),
            (old(self).top() matches CrossoverState::Fixed(b) ==> final(self).states() == old(
                self,
            ).states() && (if b {
                *final(left) == *old(right) && *final(right) == *old(left)
            } else {
                *final(left) == *old(left) && *final(right) == *old(right)
            })),
    {
        if self.should_flip() {
            core::mem::swap(left, right);
        }
    }

    /// Crosses a whole pair of sub-genomes over under this session.
    pub fn genome<G: Genome>(&mut self, left: &mut G, right: &mut G)
        requires
            old(self).wf(),
            old(left).wf(),
            old(right).wf(),
        ensures
            final(self).wf(),
            final(self).same_policy(old(self)),
            final(left).wf(),
            final(right).wf(),
            final(left).units() == old(left).units(),
            final(right).units() == old(right).units(),
            final(left).leaves().len() == old(left).leaves().len(),
            final(right).leaves().len() == old(right).leaves().len(),
            final(left).leaves().to_multiset().add(final(right).leaves().to_multiset())
                == old(left).leaves().to_multiset().add(old(right).leaves().to_multiset()),
            old(left).compatible(old(right)) ==> leaf_exchange(
                old(left).leaves(),
                old(right).leaves(),
                final(left).leaves(),
                final(right).leaves(),
            ),
            old(left).in_domain() && old(right).in_domain() ==> final(left).in_domain()
                && final(right).in_domain(),
            old(self).inert() ==> final(left).leaves() == old(left).leaves()
                && final(right).leaves() == old(right).leaves() && final(self).inert(),
            (old(self).top() matches CrossoverState::Fixed(b) ==> {
                &&& final(self).states() == old(self).states()
                &&& b && old(left).compatible(old(right)) ==> final(left).leaves()
                    == old(right).leaves() && final(right).leaves() == old(left).leaves()
                &&& !b ==> final(left).leaves() == old(left).leaves() && final(right).leaves()
                    == old(right).leaves()
            }),
    {
        left.crossover(right, self);
    }

    /// Crosses a borrowed pair of values over with the semantics that
    /// `wrapper` supplies.
    pub fn with<V, W: CrossoverWrapper<V>>(&mut self, wrapper: &W, left: &mut V, right: &mut V)
        requires
            old(self).wf(),
            wrapper.ok(),
        ensures
            final(self).wf(),
            final(self).same_policy(old(self)),
            wrapper.crossed(*old(left), *old(right), *final(left), *final(right)),
    {
        wrapper.crossover_with(left, right, self);
    }

    /// Opens a group: draws the group's single swap decision from the active
    /// policy (advancing its bookkeeping by exactly one step) and makes that
    /// decision the active state until `end_group`.
    pub fn begin_group(&mut self)
        requires
            old(self).wf(),
        ensures
            final(self).wf(),
            final(self).depth() == old(self).depth() + 1,
            final(self).states().drop_last().len() == old(self).states().len(),
            forall|i: int| 0 <= i < old(self).depth() ==> (#[trigger] final(self).states()[i]).same_policy(
                old(self).states()[i],
            ),
            final(self).states().drop_last().drop_last() == old(self).states().drop_last(),
            (final(self).top() matches CrossoverState::Fixed(_)),
            old(self).inert() ==> final(self).inert() && final(self).top()
                == CrossoverState::Fixed(false),
            (old(self).top() matches CrossoverState::Fixed(b) ==> final(self).top()
                == CrossoverState::Fixed(b) && final(self).states().drop_last() == old(
                self,
            ).states()),
            (old(self).top() matches CrossoverState::KPoint { count: c0, length: l0, swapped: s0, desired: d0 }
                ==> (final(self).states()[old(self).depth() as int - 1] matches CrossoverState::KPoint { count: c1, length: l1, swapped: s1, desired: d1 }
                    && l1 == l0 && d1 == d0 && (c0 < l0 ==> c1 == c0 + 1 && (s1 == s0 || s1 == s0
                    + 1)) && (c0 >= l0 ==> c1 == c0 && s1 == s0) && final(self).top()
                    == CrossoverState::Fixed(s1 % 2 == 1))),
    {
        let decision = self.should_flip();
        self.states.push(CrossoverState::Fixed(decision));
    }

    /// A k-point session never places more parity transitions than it was
    /// asked for: every well-formed session state keeps the number of
    /// transitions placed so far, `swapped`, at or below `desired`, and the
    /// number of chromosomes seen, `count`, at or below `length`. Whether
    /// exactly `desired` transitions occur over a traversal is not
    /// guaranteed; the placement is a forward, probabilistic approximation.
    pub proof fn kpoint_transitions_bounded(&self, i: int)
        requires
            self.wf(),
            0 <= i < self.states().len(),
        ensures
            self.states()[i] matches CrossoverState::KPoint { count, length, swapped, desired }
                ==> swapped <= desired && count <= length,
    {
    }

    /// Closes the innermost group, restoring the enclosing policy.
    pub fn end_group(&mut self)
        requires
            old(self).wf(),
            old(self).depth() >= 2,
        ensures
            final(self).wf(),
            final(self).states() == old(self).states().drop_last(),
    {
        let _ = self.states.pop();
        proof {
            assert(self.states@ =~= old(self).states().drop_last());
        }
    }
}

} // verus!
