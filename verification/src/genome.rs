use vstd::prelude::*;

use crate::chromosome::fixed::FixedBits;
use crate::chromosome::uniform::UniformCh;
use crate::chromosome::GroupCh;
use crate::traverse::{Crossover, CrossoverState, Mutator};
use vstd::multiset::Multiset;

verus! {

/// A possibly nested composite of chromosomes that one mutation or crossover
/// traversal walks as a whole.
///
/// `leaves` views the composite as the ordered sequence of its leaf scalar
/// values, each as a 64-bit pattern; every contract below is stated over
/// that view. Neither operation may add or remove leaves.
pub trait Genome: Sized {
    /// The ordered leaf scalar values, each one as its 64-bit pattern.
    spec fn leaves(&self) -> Seq<u64>;

    /// The number of independent chromosome units; a group counts as one,
    /// however many leaves it spans.
    spec fn units(&self) -> nat;

    /// Structural well-formedness: admissible configurations, and a unit
    /// count that a `usize` can report.
    spec fn wf(&self) -> bool;

    /// Every leaf value lies in its encoding's domain.
    spec fn in_domain(&self) -> bool;

    /// Both individuals have the same traversal shape, so crossover pairs
    /// their leaves one to one.
    spec fn compatible(&self, other: &Self) -> bool;

    /// Compatible individuals expose the same number of leaves.
    proof fn compatible_leaf_len(&self, other: &Self)
        requires
            self.compatible(other),
        ensures
            self.leaves().len() == other.leaves().len(),
    ;

    /// Mutates every chromosome in the composite under the session's rate.
    /// A zero rate leaves in-domain values unchanged.
    fn mutate(&mut self, m: &mut Mutator)
        requires
            old(self).wf(),
            old(m).wf(),
        ensures
            final(self).wf(),
            final(m).wf(),
            final(m).rates() == old(m).rates(),
            final(self).in_domain(),
            final(self).units() == old(self).units(),
            final(self).leaves().len() == old(self).leaves().len(),
            old(m).rate_is_zero() && old(self).in_domain() ==> final(self).leaves() == old(self).leaves(),
    ;

    /// Exchanges chromosomes with `other` position by position: each leaf
    /// pair is either kept or swapped whole, so the combined collection of
    /// leaf values of the two individuals is preserved, and on individuals
    /// of the same shape the operation is a pure per-position exchange.
    fn crossover(&mut self, other: &mut Self, c: &mut Crossover)
        requires
            old(self).wf(),
            old(other).wf(),
            old(c).wf(),
        ensures
            final(self).wf(),
            final(other).wf(),
            final(c).wf(),
            final(c).same_policy(old(c)),
            final(self).units() == old(self).units(),
            final(other).units() == old(other).units(),
            final(self).leaves().len() == old(self).leaves().len(),
            final(other).leaves().len() == old(other).leaves().len(),
            final(self).leaves().to_multiset().add(final(other).leaves().to_multiset())
                == old(self).leaves().to_multiset().add(old(other).leaves().to_multiset()),
            old(self).in_domain() && old(other).in_domain() ==> final(self).in_domain()
                && final(other).in_domain(),
            old(self).compatible(old(other)) ==> leaf_exchange(
                old(self).leaves(),
                old(other).leaves(),
                final(self).leaves(),
                final(other).leaves(),
            ),
            old(c).inert() ==> final(self).leaves() == old(self).leaves() && final(other).leaves()
                == old(other).leaves() && final(c).inert(),
            (old(c).top() matches CrossoverState::Fixed(b) ==> {
                &&& final(c).states() == old(c).states()
                &&& b && old(self).compatible(old(other)) ==> final(self).leaves()
                    == old(other).leaves() && final(other).leaves() == old(self).leaves()
                &&& !b ==> final(self).leaves() == old(self).leaves() && final(other).leaves()
                    == old(other).leaves()
            }),
    ;

    /// Reports the number of chromosome units, which crossover bookkeeping
    /// needs up front.
    fn size_hint(&self) -> (r: usize)
        requires
            self.wf(),
        ensures
            r == self.units(),
    ;

    /// A structurally identical copy: same shape, same leaf values.
    fn duplicate(&self) -> (r: Self)
        requires
            self.wf(),
        ensures
            r.wf(),
            r.leaves() == self.leaves(),
            r.units() == self.units(),
            self.in_domain() ==> r.in_domain(),
            r.compatible(self) && self.compatible(&r),
    ;
}

/// One leaf pair was kept on its sides or exchanged whole.
pub open spec fn pair_kept_or_swapped(a0: u64, b0: u64, a1: u64, b1: u64) -> bool {
    (a1 == a0 && b1 == b0) || (a1 == b0 && b1 == a0)
}

/// A crossover step from leaf sequences `a0`, `b0` to `a1`, `b1` is a pure
/// per-position exchange: the sides align one to one, and each aligned leaf
/// pair is kept or exchanged whole.
pub open spec fn leaf_exchange(a0: Seq<u64>, b0: Seq<u64>, a1: Seq<u64>, b1: Seq<u64>) -> bool {
    &&& a0.len() == b0.len()
    &&& a1.len() == a0.len()
    &&& b1.len() == b0.len()
    &&& forall|i: int|
        0 <= i < a0.len() ==> #[trigger] pair_kept_or_swapped(a0[i], b0[i], a1[i], b1[i])
}

/// Concatenating two per-position exchanges is a per-position exchange.
proof fn lemma_leaf_exchange_concat(
    a0: Seq<u64>,
    b0: Seq<u64>,
    a1: Seq<u64>,
    b1: Seq<u64>,
    x0: Seq<u64>,
    y0: Seq<u64>,
    x1: Seq<u64>,
    y1: Seq<u64>,
)
    requires
        leaf_exchange(a0, b0, a1, b1),
        leaf_exchange(x0, y0, x1, y1),
    ensures
        leaf_exchange(a0 + x0, b0 + y0, a1 + x1, b1 + y1),
{
    assert forall|i: int| 0 <= i < (a0 + x0).len() implies #[trigger] pair_kept_or_swapped(
        (a0 + x0)[i],
        (b0 + y0)[i],
        (a1 + x1)[i],
        (b1 + y1)[i],
    ) by {
        if i < a0.len() {
            assert(pair_kept_or_swapped(a0[i], b0[i], a1[i], b1[i]));
        } else {
            let k = i - a0.len();
            assert(pair_kept_or_swapped(x0[k], y0[k], x1[k], y1[k]));
            assert((a0 + x0)[i] == x0[k]);
            assert((b0 + y0)[i] == y0[k]);
            assert((a1 + x1)[i] == x1[k]);
            assert((b1 + y1)[i] == y1[k]);
        }
    }
}

/// Compatible genome sequences expose the same number of leaves.
proof fn lemma_compat_leaf_len<G: Genome>(a: Seq<G>, b: Seq<G>)
    requires
        a.len() == b.len(),
        forall|i: int| 0 <= i < a.len() ==> (#[trigger] a[i]).compatible(&b[i]),
    ensures
        seq_leaves(a).len() == seq_leaves(b).len(),
    decreases a.len(),
{
    if a.len() > 0 {
        lemma_compat_leaf_len(a.drop_last(), b.drop_last());
        assert(a[a.len() - 1].compatible(&b[a.len() - 1]));
        a.last().compatible_leaf_len(&b.last());
    }
}

/// The leaves of a sequence of genomes, in order.
pub open spec fn seq_leaves<G: Genome>(s: Seq<G>) -> Seq<u64>
    decreases s.len(),
{
    if s.len() == 0 {
        Seq::empty()
    } else {
        seq_leaves(s.drop_last()) + s.last().leaves()
    }
}

/// The total unit count of a sequence of genomes.
pub open spec fn seq_units<G: Genome>(s: Seq<G>) -> nat
    decreases s.len(),
{
    if s.len() == 0 {
        0
    } else {
        seq_units(s.drop_last()) + s.last().units()
    }
}

proof fn lemma_seq_leaves_step<G: Genome>(s: Seq<G>, i: int)
    requires
        0 <= i < s.len(),
    ensures
        seq_leaves(s.take(i + 1)) == seq_leaves(s.take(i)) + s[i].leaves(),
{
    assert(s.take(i + 1).drop_last() =~= s.take(i));
    assert(s.take(i + 1).last() == s[i]);
}

proof fn lemma_seq_units_step<G: Genome>(s: Seq<G>, i: int)
    requires
        0 <= i < s.len(),
    ensures
        seq_units(s.take(i + 1)) == seq_units(s.take(i)) + s[i].units(),
{
    assert(s.take(i + 1).drop_last() =~= s.take(i));
    assert(s.take(i + 1).last() == s[i]);
}

proof fn lemma_seq_leaves_pointwise<G: Genome>(a: Seq<G>, b: Seq<G>)
    requires
        a.len() == b.len(),
        forall|i: int| 0 <= i < a.len() ==> (#[trigger] a[i]).leaves() == b[i].leaves(),
    ensures
        seq_leaves(a) == seq_leaves(b),
    decreases a.len(),
{
    if a.len() > 0 {
        lemma_seq_leaves_pointwise(a.drop_last(), b.drop_last());
        assert(a.last().leaves() == b.last().leaves()) by {
            assert(a[a.len() - 1].leaves() == b[a.len() - 1].leaves());
        }
    }
}

proof fn lemma_seq_units_pointwise<G: Genome>(a: Seq<G>, b: Seq<G>)
    requires
        a.len() == b.len(),
        forall|i: int| 0 <= i < a.len() ==> (#[trigger] a[i]).units() == b[i].units(),
    ensures
        seq_units(a) == seq_units(b),
    decreases a.len(),
{
    if a.len() > 0 {
        lemma_seq_units_pointwise(a.drop_last(), b.drop_last());
        assert(a.last().units() == b.last().units()) by {
            assert(a[a.len() - 1].units() == b[a.len() - 1].units());
        }
    }
}

proof fn lemma_seq_leaves_len_pointwise<G: Genome>(a: Seq<G>, b: Seq<G>)
    requires
        a.len() == b.len(),
        forall|i: int| 0 <= i < a.len() ==> (#[trigger] a[i]).leaves().len() == b[i].leaves().len(),
    ensures
        seq_leaves(a).len() == seq_leaves(b).len(),
    decreases a.len(),
{
    if a.len() > 0 {
        lemma_seq_leaves_len_pointwise(a.drop_last(), b.drop_last());
        assert(a.last().leaves().len() == b.last().leaves().len()) by {
            assert(a[a.len() - 1].leaves().len() == b[a.len() - 1].leaves().len());
        }
    }
}

proof fn lemma_seq_units_prefix<G: Genome>(s: Seq<G>, i: int)
    requires
        0 <= i <= s.len(),
    ensures
        seq_units(s.take(i)) <= seq_units(s),
    decreases s.len() - i,
{
    if i == s.len() {
        assert(s.take(i) =~= s);
    } else {
        lemma_seq_units_step(s, i);
        lemma_seq_units_prefix(s, i + 1);
    }
}

proof fn lemma_seq_leaves_first<G: Genome>(s: Seq<G>)
    requires
        s.len() > 0,
    ensures
        seq_leaves(s) == s[0].leaves() + seq_leaves(s.drop_first()),
    decreases s.len(),
{
    if s.len() == 1 {
        assert(s.drop_last() =~= Seq::<G>::empty());
        assert(s.drop_first() =~= Seq::<G>::empty());
        assert(Seq::<u64>::empty() + s.last().leaves() =~= s.last().leaves());
        assert(s[0].leaves() + Seq::<u64>::empty() =~= s[0].leaves());
    } else {
        lemma_seq_leaves_first(s.drop_last());
        assert(s.drop_last().drop_first() =~= s.drop_first().drop_last());
        assert(s.drop_last()[0] == s[0]);
        assert(s.drop_first().last() == s.last());
        assert((s[0].leaves() + seq_leaves(s.drop_first().drop_last())) + s.last().leaves() =~= s[0].leaves() + (
        seq_leaves(s.drop_first().drop_last()) + s.last().leaves()));
    }
}

proof fn lemma_seq_leaves_split<G: Genome>(s: Seq<G>, i: int)
    requires
        0 <= i <= s.len(),
    ensures
        seq_leaves(s) == seq_leaves(s.take(i)) + seq_leaves(s.skip(i)),
    decreases s.len() - i,
{
    if i == s.len() {
        assert(s.take(i) =~= s);
        assert(s.skip(i) =~= Seq::<G>::empty());
        assert(seq_leaves(s) + seq_leaves(s.skip(i)) =~= seq_leaves(s));
    } else {
        lemma_seq_leaves_split(s, i + 1);
        lemma_seq_leaves_step(s, i);
        lemma_seq_leaves_first(s.skip(i));
        assert(s.skip(i)[0] == s[i]);
        assert(s.skip(i).drop_first() =~= s.skip(i + 1));
        assert((seq_leaves(s.take(i)) + s[i].leaves()) + seq_leaves(s.skip(i + 1)) =~= seq_leaves(
            s.take(i),
        ) + (s[i].leaves() + seq_leaves(s.skip(i + 1))));
    }
}

/// Returns a mutable reference to one element of a vector.
fn vec_index_mut<T>(v: &mut Vec<T>, i: usize) -> (el: &mut T)
    requires
        i < old(v).len(),
    ensures
        *el == old(v)@[i as int],
        final(v)@ == old(v)@.update(i as int, *final(el)),
{
    &mut v[i]
}

/// Extending two combined-multiset-equal pairs by two more such pairs keeps
/// the combined multisets equal.
proof fn lemma_exchange_extend(
    al: Seq<u64>,
    bl: Seq<u64>,
    a0: Seq<u64>,
    b0: Seq<u64>,
    xa: Seq<u64>,
    xb: Seq<u64>,
    ya: Seq<u64>,
    yb: Seq<u64>,
)
    requires
        al.to_multiset().add(bl.to_multiset()) == a0.to_multiset().add(b0.to_multiset()),
        xa.to_multiset().add(xb.to_multiset()) == ya.to_multiset().add(yb.to_multiset()),
    ensures
        (al + xa).to_multiset().add((bl + xb).to_multiset()) == (a0 + ya).to_multiset().add(
            (b0 + yb).to_multiset(),
        ),
{
    broadcast use vstd::multiset::group_multiset_axioms;

    vstd::seq_lib::lemma_multiset_commutative(al, xa);
    vstd::seq_lib::lemma_multiset_commutative(bl, xb);
    vstd::seq_lib::lemma_multiset_commutative(a0, ya);
    vstd::seq_lib::lemma_multiset_commutative(b0, yb);
    assert((al + xa).to_multiset() == al.to_multiset().add(xa.to_multiset()));
    assert((bl + xb).to_multiset() == bl.to_multiset().add(xb.to_multiset()));
    assert((a0 + ya).to_multiset() == a0.to_multiset().add(ya.to_multiset()));
    assert((b0 + yb).to_multiset() == b0.to_multiset().add(yb.to_multiset()));
    assert forall|x: u64|
        #[trigger] (al + xa).to_multiset().add((bl + xb).to_multiset()).count(x) == (a0
            + ya).to_multiset().add((b0 + yb).to_multiset()).count(x) by {
        assert(al.to_multiset().add(bl.to_multiset()).count(x) == al.to_multiset().count(x)
            + bl.to_multiset().count(x));
        assert(a0.to_multiset().add(b0.to_multiset()).count(x) == a0.to_multiset().count(x)
            + b0.to_multiset().count(x));
        assert(xa.to_multiset().add(xb.to_multiset()).count(x) == xa.to_multiset().count(x)
            + xb.to_multiset().count(x));
        assert(ya.to_multiset().add(yb.to_multiset()).count(x) == ya.to_multiset().count(x)
            + yb.to_multiset().count(x));
        assert((al + xa).to_multiset().add((bl + xb).to_multiset()).count(x) == (al
            + xa).to_multiset().count(x) + (bl + xb).to_multiset().count(x));
        assert((a0 + ya).to_multiset().add((b0 + yb).to_multiset()).count(x) == (a0
            + ya).to_multiset().count(x) + (b0 + yb).to_multiset().count(x));
        assert(al.to_multiset().add(xa.to_multiset()).count(x) == al.to_multiset().count(x)
            + xa.to_multiset().count(x));
        assert(bl.to_multiset().add(xb.to_multiset()).count(x) == bl.to_multiset().count(x)
            + xb.to_multiset().count(x));
        assert(a0.to_multiset().add(ya.to_multiset()).count(x) == a0.to_multiset().count(x)
            + ya.to_multiset().count(x));
        assert(b0.to_multiset().add(yb.to_multiset()).count(x) == b0.to_multiset().count(x)
            + yb.to_multiset().count(x));
    }
    assert((al + xa).to_multiset().add((bl + xb).to_multiset()) =~= (a0 + ya).to_multiset().add(
        (b0 + yb).to_multiset(),
    ));
}

/// Combined leaf multiset and per-position exchange of one kept-or-swapped
/// leaf pair.
proof fn lemma_singleton_exchange(a0: u64, b0: u64, a1: u64, b1: u64)
    requires
        (a1 == a0 && b1 == b0) || (a1 == b0 && b1 == a0),
    ensures
        seq![a1].to_multiset().add(seq![b1].to_multiset()) == seq![a0].to_multiset().add(
            seq![b0].to_multiset(),
        ),
        leaf_exchange(seq![a0], seq![b0], seq![a1], seq![b1]),
{
    assert forall|i: int| 0 <= i < 1 implies #[trigger] pair_kept_or_swapped(
        seq![a0][i],
        seq![b0][i],
        seq![a1][i],
        seq![b1][i],
    ) by {
        assert(seq![a0][0] == a0 && seq![b0][0] == b0 && seq![a1][0] == a1 && seq![b1][0] == b1);
    }
    broadcast use vstd::seq_lib::group_to_multiset_ensures;
    broadcast use vstd::multiset::group_multiset_axioms;

    assert(seq![a1] =~= Seq::<u64>::empty().push(a1));
    assert(seq![b1] =~= Seq::<u64>::empty().push(b1));
    assert(seq![a0] =~= Seq::<u64>::empty().push(a0));
    assert(seq![b0] =~= Seq::<u64>::empty().push(b0));
    assert(Seq::<u64>::empty().to_multiset() =~= Multiset::<u64>::empty());
    assert(seq![a1].to_multiset().add(seq![b1].to_multiset()) =~= seq![a0].to_multiset().add(
        seq![b0].to_multiset(),
    ));
}

/// Combined leaf multiset and per-position exchange of one kept-or-swapped
/// value that spans two leaves.
proof fn lemma_two_leaf_exchange(
    a0l: u64,
    a0h: u64,
    b0l: u64,
    b0h: u64,
    a1l: u64,
    a1h: u64,
    b1l: u64,
    b1h: u64,
)
    requires
        (a1l == a0l && a1h == a0h && b1l == b0l && b1h == b0h) || (a1l == b0l && a1h == b0h && b1l
            == a0l && b1h == a0h),
    ensures
        seq![a1l, a1h].to_multiset().add(seq![b1l, b1h].to_multiset()) == seq![a0l, a0h].to_multiset().add(
            seq![b0l, b0h].to_multiset(),
        ),
        leaf_exchange(seq![a0l, a0h], seq![b0l, b0h], seq![a1l, a1h], seq![b1l, b1h]),
{
    lemma_singleton_exchange(a0l, b0l, a1l, b1l);
    lemma_singleton_exchange(a0h, b0h, a1h, b1h);
    lemma_exchange_extend(
        seq![a1l],
        seq![b1l],
        seq![a0l],
        seq![b0l],
        seq![a1h],
        seq![b1h],
        seq![a0h],
        seq![b0h],
    );
    lemma_leaf_exchange_concat(
        seq![a0l],
        seq![b0l],
        seq![a1l],
        seq![b1l],
        seq![a0h],
        seq![b0h],
        seq![a1h],
        seq![b1h],
    );
    assert(seq![a1l] + seq![a1h] =~= seq![a1l, a1h]);
    assert(seq![b1l] + seq![b1h] =~= seq![b1l, b1h]);
    assert(seq![a0l] + seq![a0h] =~= seq![a0l, a0h]);
    assert(seq![b0l] + seq![b0h] =~= seq![b0l, b0h]);
}

impl Genome for u128 {
    open spec fn leaves(&self) -> Seq<u64> {
        seq![*self as u64, (*self >> 64) as u64]
    }

    open spec fn units(&self) -> nat {
        1
    }

    open spec fn wf(&self) -> bool {
        true
    }

    open spec fn in_domain(&self) -> bool {
        true
    }

    open spec fn compatible(&self, other: &Self) -> bool {
        true
    }

    proof fn compatible_leaf_len(&self, other: &Self) {
    }

    fn mutate(&mut self, m: &mut Mutator) {
        m.chromosome(self);
    }

    fn crossover(&mut self, other: &mut Self, c: &mut Crossover) {
        c.chromosome(self, other);
        proof {
            lemma_two_leaf_exchange(
                *old(self) as u64,
                (*old(self) >> 64) as u64,
                *old(other) as u64,
                (*old(other) >> 64) as u64,
                *self as u64,
                (*self >> 64) as u64,
                *other as u64,
                (*other >> 64) as u64,
            );
        }
    }

    fn size_hint(&self) -> (r: usize) {
        1
    }

    fn duplicate(&self) -> (r: Self) {
        *self
    }
}

impl Genome for i128 {
    open spec fn leaves(&self) -> Seq<u64> {
        seq![*self as u64, ((*self as u128) >> 64) as u64]
    }

    open spec fn units(&self) -> nat {
        1
    }

    open spec fn wf(&self) -> bool {
        true
    }

    open spec fn in_domain(&self) -> bool {
        true
    }

    open spec fn compatible(&self, other: &Self) -> bool {
        true
    }

    proof fn compatible_leaf_len(&self, other: &Self) {
    }

    fn mutate(&mut self, m: &mut Mutator) {
        m.chromosome(self);
    }

    fn crossover(&mut self, other: &mut Self, c: &mut Crossover) {
        c.chromosome(self, other);
        proof {
            lemma_two_leaf_exchange(
                *old(self) as u64,
                ((*old(self) as u128) >> 64) as u64,
                *old(other) as u64,
                ((*old(other) as u128) >> 64) as u64,
                *self as u64,
                ((*self as u128) >> 64) as u64,
                *other as u64,
                ((*other as u128) >> 64) as u64,
            );
        }
    }

    fn size_hint(&self) -> (r: usize) {
        1
    }

    fn duplicate(&self) -> (r: Self) {
        *self
    }
}

impl Genome for u64 {
    open spec fn leaves(&self) -> Seq<u64> {
        seq![*self]
    }

    open spec fn units(&self) -> nat {
        1
    }

    open spec fn wf(&self) -> bool {
        true
    }

    open spec fn in_domain(&self) -> bool {
        true
    }

    open spec fn compatible(&self, other: &Self) -> bool {
        true
    }

    proof fn compatible_leaf_len(&self, other: &Self) {
    }

    fn mutate(&mut self, m: &mut Mutator) {
        m.chromosome(self);
    }

    fn crossover(&mut self, other: &mut Self, c: &mut Crossover) {
        c.chromosome(self, other);
        proof {
            lemma_singleton_exchange(*old(self), *old(other), *self, *other);
        }
    }

    fn size_hint(&self) -> (r: usize) {
        1
    }

    fn duplicate(&self) -> (r: Self) {
        *self
    }
}

impl Genome for i64 {
    open spec fn leaves(&self) -> Seq<u64> {
        seq![*self as u64]
    }

    open spec fn units(&self) -> nat {
        1
    }

    open spec fn wf(&self) -> bool {
        true
    }

    open spec fn in_domain(&self) -> bool {
        true
    }

    open spec fn compatible(&self, other: &Self) -> bool {
        true
    }

    proof fn compatible_leaf_len(&self, other: &Self) {
    }

    fn mutate(&mut self, m: &mut Mutator) {
        m.chromosome(self);
    }

    fn crossover(&mut self, other: &mut Self, c: &mut Crossover) {
        c.chromosome(self, other);
        proof {
            lemma_singleton_exchange(
                *old(self) as u64,
                *old(other) as u64,
                *self as u64,
                *other as u64,
            );
        }
    }

    fn size_hint(&self) -> (r: usize) {
        1
    }

    fn duplicate(&self) -> (r: Self) {
        *self
    }
}

impl Genome for u32 {
    open spec fn leaves(&self) -> Seq<u64> {
        seq![*self as u64]
    }

    open spec fn units(&self) -> nat {
        1
    }

    open spec fn wf(&self) -> bool {
        true
    }

    open spec fn in_domain(&self) -> bool {
        true
    }

    open spec fn compatible(&self, other: &Self) -> bool {
        true
    }

    proof fn compatible_leaf_len(&self, other: &Self) {
    }

    fn mutate(&mut self, m: &mut Mutator) {
        m.chromosome(self);
    }

    fn crossover(&mut self, other: &mut Self, c: &mut Crossover) {
        c.chromosome(self, other);
        proof {
            lemma_singleton_exchange(
                *old(self) as u64,
                *old(other) as u64,
                *self as u64,
                *other as u64,
            );
        }
    }

    fn size_hint(&self) -> (r: usize) {
        1
    }

    fn duplicate(&self) -> (r: Self) {
        *self
    }
}

impl Genome for i32 {
    open spec fn leaves(&self) -> Seq<u64> {
        seq![*self as u64]
    }

    open spec fn units(&self) -> nat {
        1
    }

    open spec fn wf(&self) -> bool {
        true
    }

    open spec fn in_domain(&self) -> bool {
        true
    }

    open spec fn compatible(&self, other: &Self) -> bool {
        true
    }

    proof fn compatible_leaf_len(&self, other: &Self) {
    }

    fn mutate(&mut self, m: &mut Mutator) {
        m.chromosome(self);
    }

    fn crossover(&mut self, other: &mut Self, c: &mut Crossover) {
        c.chromosome(self, other);
        proof {
            lemma_singleton_exchange(
                *old(self) as u64,
                *old(other) as u64,
                *self as u64,
                *other as u64,
            );
        }
    }

    fn size_hint(&self) -> (r: usize) {
        1
    }

    fn duplicate(&self) -> (r: Self) {
        *self
    }
}

impl Genome for u16 {
    open spec fn leaves(&self) -> Seq<u64> {
        seq![*self as u64]
    }

    open spec fn units(&self) -> nat {
        1
    }

    open spec fn wf(&self) -> bool {
        true
    }

    open spec fn in_domain(&self) -> bool {
        true
    }

    open spec fn compatible(&self, other: &Self) -> bool {
        true
    }

    proof fn compatible_leaf_len(&self, other: &Self) {
    }

    fn mutate(&mut self, m: &mut Mutator) {
        m.chromosome(self);
    }

    fn crossover(&mut self, other: &mut Self, c: &mut Crossover) {
        c.chromosome(self, other);
        proof {
            lemma_singleton_exchange(
                *old(self) as u64,
                *old(other) as u64,
                *self as u64,
                *other as u64,
            );
        }
    }

    fn size_hint(&self) -> (r: usize) {
        1
    }

    fn duplicate(&self) -> (r: Self) {
        *self
    }
}

impl Genome for i16 {
    open spec fn leaves(&self) -> Seq<u64> {
        seq![*self as u64]
    }

    open spec fn units(&self) -> nat {
        1
    }

    open spec fn wf(&self) -> bool {
        true
    }

    open spec fn in_domain(&self) -> bool {
        true
    }

    open spec fn compatible(&self, other: &Self) -> bool {
        true
    }

    proof fn compatible_leaf_len(&self, other: &Self) {
    }

    fn mutate(&mut self, m: &mut Mutator) {
        m.chromosome(self);
    }

    fn crossover(&mut self, other: &mut Self, c: &mut Crossover) {
        c.chromosome(self, other);
        proof {
            lemma_singleton_exchange(
                *old(self) as u64,
                *old(other) as u64,
                *self as u64,
                *other as u64,
            );
        }
    }

    fn size_hint(&self) -> (r: usize) {
        1
    }

    fn duplicate(&self) -> (r: Self) {
        *self
    }
}

impl Genome for u8 {
    open spec fn leaves(&self) -> Seq<u64> {
        seq![*self as u64]
    }

    open spec fn units(&self) -> nat {
        1
    }

    open spec fn wf(&self) -> bool {
        true
    }

    open spec fn in_domain(&self) -> bool {
        true
    }

    open spec fn compatible(&self, other: &Self) -> bool {
        true
    }

    proof fn compatible_leaf_len(&self, other: &Self) {
    }

    fn mutate(&mut self, m: &mut Mutator) {
        m.chromosome(self);
    }

    fn crossover(&mut self, other: &mut Self, c: &mut Crossover) {
        c.chromosome(self, other);
        proof {
            lemma_singleton_exchange(
                *old(self) as u64,
                *old(other) as u64,
                *self as u64,
                *other as u64,
            );
        }
    }

    fn size_hint(&self) -> (r: usize) {
        1
    }

    fn duplicate(&self) -> (r: Self) {
        *self
    }
}

impl Genome for i8 {
    open spec fn leaves(&self) -> Seq<u64> {
        seq![*self as u64]
    }

    open spec fn units(&self) -> nat {
        1
    }

    open spec fn wf(&self) -> bool {
        true
    }

    open spec fn in_domain(&self) -> bool {
        true
    }

    open spec fn compatible(&self, other: &Self) -> bool {
        true
    }

    proof fn compatible_leaf_len(&self, other: &Self) {
    }

    fn mutate(&mut self, m: &mut Mutator) {
        m.chromosome(self);
    }

    fn crossover(&mut self, other: &mut Self, c: &mut Crossover) {
        c.chromosome(self, other);
        proof {
            lemma_singleton_exchange(
                *old(self) as u64,
                *old(other) as u64,
                *self as u64,
                *other as u64,
            );
        }
    }

    fn size_hint(&self) -> (r: usize) {
        1
    }

    fn duplicate(&self) -> (r: Self) {
        *self
    }
}

impl Genome for UniformCh<i32> {
    open spec fn leaves(&self) -> Seq<u64> {
        seq![self.value as u64]
    }

    open spec fn units(&self) -> nat {
        1
    }

    open spec fn wf(&self) -> bool {
        self.min <= self.max
    }

    open spec fn in_domain(&self) -> bool {
        self.min <= self.value <= self.max
    }

    open spec fn compatible(&self, other: &Self) -> bool {
        true
    }

    proof fn compatible_leaf_len(&self, other: &Self) {
    }

    fn mutate(&mut self, m: &mut Mutator) {
        m.chromosome(self);
    }

    fn crossover(&mut self, other: &mut Self, c: &mut Crossover) {
        c.chromosome(self, other);
        proof {
            lemma_singleton_exchange(
                old(self).value as u64,
                old(other).value as u64,
                self.value as u64,
                other.value as u64,
            );
        }
    }

    fn size_hint(&self) -> (r: usize) {
        1
    }

    fn duplicate(&self) -> (r: Self) {
        UniformCh { value: self.value, min: self.min, max: self.max }
    }
}

impl Genome for UniformCh<u32> {
    open spec fn leaves(&self) -> Seq<u64> {
        seq![self.value as u64]
    }

    open spec fn units(&self) -> nat {
        1
    }

    open spec fn wf(&self) -> bool {
        self.min <= self.max
    }

    open spec fn in_domain(&self) -> bool {
        self.min <= self.value <= self.max
    }

    open spec fn compatible(&self, other: &Self) -> bool {
        true
    }

    proof fn compatible_leaf_len(&self, other: &Self) {
    }

    fn mutate(&mut self, m: &mut Mutator) {
        m.chromosome(self);
    }

    fn crossover(&mut self, other: &mut Self, c: &mut Crossover) {
        c.chromosome(self, other);
        proof {
            lemma_singleton_exchange(
                old(self).value as u64,
                old(other).value as u64,
                self.value as u64,
                other.value as u64,
            );
        }
    }

    fn size_hint(&self) -> (r: usize) {
        1
    }

    fn duplicate(&self) -> (r: Self) {
        UniformCh { value: self.value, min: self.min, max: self.max }
    }
}

impl Genome for UniformCh<i16> {
    open spec fn leaves(&self) -> Seq<u64> {
        seq![self.value as u64]
    }

    open spec fn units(&self) -> nat {
        1
    }

    open spec fn wf(&self) -> bool {
        self.min <= self.max
    }

    open spec fn in_domain(&self) -> bool {
        self.min <= self.value <= self.max
    }

    open spec fn compatible(&self, other: &Self) -> bool {
        true
    }

    proof fn compatible_leaf_len(&self, other: &Self) {
    }

    fn mutate(&mut self, m: &mut Mutator) {
        m.chromosome(self);
    }

    fn crossover(&mut self, other: &mut Self, c: &mut Crossover) {
        c.chromosome(self, other);
        proof {
            lemma_singleton_exchange(
                old(self).value as u64,
                old(other).value as u64,
                self.value as u64,
                other.value as u64,
            );
        }
    }

    fn size_hint(&self) -> (r: usize) {
        1
    }

    fn duplicate(&self) -> (r: Self) {
        UniformCh { value: self.value, min: self.min, max: self.max }
    }
}

impl Genome for UniformCh<u16> {
    open spec fn leaves(&self) -> Seq<u64> {
        seq![self.value as u64]
    }

    open spec fn units(&self) -> nat {
        1
    }

    open spec fn wf(&self) -> bool {
        self.min <= self.max
    }

    open spec fn in_domain(&self) -> bool {
        self.min <= self.value <= self.max
    }

    open spec fn compatible(&self, other: &Self) -> bool {
        true
    }

    proof fn compatible_leaf_len(&self, other: &Self) {
    }

    fn mutate(&mut self, m: &mut Mutator) {
        m.chromosome(self);
    }

    fn crossover(&mut self, other: &mut Self, c: &mut Crossover) {
        c.chromosome(self, other);
        proof {
            lemma_singleton_exchange(
                old(self).value as u64,
                old(other).value as u64,
                self.value as u64,
                other.value as u64,
            );
        }
    }

    fn size_hint(&self) -> (r: usize) {
        1
    }

    fn duplicate(&self) -> (r: Self) {
        UniformCh { value: self.value, min: self.min, max: self.max }
    }
}

impl Genome for UniformCh<i8> {
    open spec fn leaves(&self) -> Seq<u64> {
        seq![self.value as u64]
    }

    open spec fn units(&self) -> nat {
        1
    }

    open spec fn wf(&self) -> bool {
        self.min <= self.max
    }

    open spec fn in_domain(&self) -> bool {
        self.min <= self.value <= self.max
    }

    open spec fn compatible(&self, other: &Self) -> bool {
        true
    }

    proof fn compatible_leaf_len(&self, other: &Self) {
    }

    fn mutate(&mut self, m: &mut Mutator) {
        m.chromosome(self);
    }

    fn crossover(&mut self, other: &mut Self, c: &mut Crossover) {
        c.chromosome(self, other);
        proof {
            lemma_singleton_exchange(
                old(self).value as u64,
                old(other).value as u64,
                self.value as u64,
                other.value as u64,
            );
        }
    }

    fn size_hint(&self) -> (r: usize) {
        1
    }

    fn duplicate(&self) -> (r: Self) {
        UniformCh { value: self.value, min: self.min, max: self.max }
    }
}

impl Genome for UniformCh<u8> {
    open spec fn leaves(&self) -> Seq<u64> {
        seq![self.value as u64]
    }

    open spec fn units(&self) -> nat {
        1
    }

    open spec fn wf(&self) -> bool {
        self.min <= self.max
    }

    open spec fn in_domain(&self) -> bool {
        self.min <= self.value <= self.max
    }

    open spec fn compatible(&self, other: &Self) -> bool {
        true
    }

    proof fn compatible_leaf_len(&self, other: &Self) {
    }

    fn mutate(&mut self, m: &mut Mutator) {
        m.chromosome(self);
    }

    fn crossover(&mut self, other: &mut Self, c: &mut Crossover) {
        c.chromosome(self, other);
        proof {
            lemma_singleton_exchange(
                old(self).value as u64,
                old(other).value as u64,
                self.value as u64,
                other.value as u64,
            );
        }
    }

    fn size_hint(&self) -> (r: usize) {
        1
    }

    fn duplicate(&self) -> (r: Self) {
        UniformCh { value: self.value, min: self.min, max: self.max }
    }
}

impl Genome for bool {
    open spec fn leaves(&self) -> Seq<u64> {
        seq![if *self { 1u64 } else { 0u64 }]
    }

    open spec fn units(&self) -> nat {
        1
    }

    open spec fn wf(&self) -> bool {
        true
    }

    open spec fn in_domain(&self) -> bool {
        true
    }

    open spec fn compatible(&self, other: &Self) -> bool {
        true
    }

    proof fn compatible_leaf_len(&self, other: &Self) {
    }

    fn mutate(&mut self, m: &mut Mutator) {
        m.chromosome(self);
    }

    fn crossover(&mut self, other: &mut Self, c: &mut Crossover) {
        c.chromosome(self, other);
        proof {
            lemma_singleton_exchange(
                if *old(self) { 1u64 } else { 0u64 },
                if *old(other) { 1u64 } else { 0u64 },
                if *self { 1u64 } else { 0u64 },
                if *other { 1u64 } else { 0u64 },
            );
        }
    }

    fn size_hint(&self) -> (r: usize) {
        1
    }

    fn duplicate(&self) -> (r: Self) {
        *self
    }
}

impl Genome for () {
    open spec fn leaves(&self) -> Seq<u64> {
        seq![0u64]
    }

    open spec fn units(&self) -> nat {
        1
    }

    open spec fn wf(&self) -> bool {
        true
    }

    open spec fn in_domain(&self) -> bool {
        true
    }

    open spec fn compatible(&self, other: &Self) -> bool {
        true
    }

    proof fn compatible_leaf_len(&self, other: &Self) {
    }

    fn mutate(&mut self, m: &mut Mutator) {
        m.chromosome(self);
    }

    fn crossover(&mut self, other: &mut Self, c: &mut Crossover) {
        c.chromosome(self, other);
        proof {
            lemma_singleton_exchange(0, 0, 0, 0);
        }
    }

    fn size_hint(&self) -> (r: usize) {
        1
    }

    fn duplicate(&self) -> (r: Self) {
    }
}

impl Genome for UniformCh<i64> {
    open spec fn leaves(&self) -> Seq<u64> {
        seq![self.value as u64]
    }

    open spec fn units(&self) -> nat {
        1
    }

    open spec fn wf(&self) -> bool {
        self.min <= self.max
    }

    open spec fn in_domain(&self) -> bool {
        self.min <= self.value <= self.max
    }

    open spec fn compatible(&self, other: &Self) -> bool {
        true
    }

    proof fn compatible_leaf_len(&self, other: &Self) {
    }

    fn mutate(&mut self, m: &mut Mutator) {
        m.chromosome(self);
    }

    fn crossover(&mut self, other: &mut Self, c: &mut Crossover) {
        c.chromosome(self, other);
        proof {
            lemma_singleton_exchange(
                old(self).value as u64,
                old(other).value as u64,
                self.value as u64,
                other.value as u64,
            );
        }
    }

    fn size_hint(&self) -> (r: usize) {
        1
    }

    fn duplicate(&self) -> (r: Self) {
        UniformCh { value: self.value, min: self.min, max: self.max }
    }
}

impl Genome for UniformCh<u64> {
    open spec fn leaves(&self) -> Seq<u64> {
        seq![self.value]
    }

    open spec fn units(&self) -> nat {
        1
    }

    open spec fn wf(&self) -> bool {
        self.min <= self.max
    }

    open spec fn in_domain(&self) -> bool {
        self.min <= self.value <= self.max
    }

    open spec fn compatible(&self, other: &Self) -> bool {
        true
    }

    proof fn compatible_leaf_len(&self, other: &Self) {
    }

    fn mutate(&mut self, m: &mut Mutator) {
        m.chromosome(self);
    }

    fn crossover(&mut self, other: &mut Self, c: &mut Crossover) {
        c.chromosome(self, other);
        proof {
            lemma_singleton_exchange(
                old(self).value,
                old(other).value,
                self.value,
                other.value,
            );
        }
    }

    fn size_hint(&self) -> (r: usize) {
        1
    }

    fn duplicate(&self) -> (r: Self) {
        UniformCh { value: self.value, min: self.min, max: self.max }
    }
}

impl Genome for FixedBits<i64> {
    open spec fn leaves(&self) -> Seq<u64> {
        seq![self.value as u64]
    }

    open spec fn units(&self) -> nat {
        1
    }

    open spec fn wf(&self) -> bool {
        1 <= self.bits <= 64
    }

    open spec fn in_domain(&self) -> bool {
        crate::chromosome::fixed::signed_fits(self.value as int, self.bits as nat)
    }

    open spec fn compatible(&self, other: &Self) -> bool {
        true
    }

    proof fn compatible_leaf_len(&self, other: &Self) {
    }

    fn mutate(&mut self, m: &mut Mutator) {
        m.chromosome(self);
    }

    fn crossover(&mut self, other: &mut Self, c: &mut Crossover) {
        c.chromosome(self, other);
        proof {
            lemma_singleton_exchange(
                old(self).value as u64,
                old(other).value as u64,
                self.value as u64,
                other.value as u64,
            );
        }
    }

    fn size_hint(&self) -> (r: usize) {
        1
    }

    fn duplicate(&self) -> (r: Self) {
        FixedBits { value: self.value, bits: self.bits }
    }
}

impl Genome for FixedBits<u64> {
    open spec fn leaves(&self) -> Seq<u64> {
        seq![self.value]
    }

    open spec fn units(&self) -> nat {
        1
    }

    open spec fn wf(&self) -> bool {
        1 <= self.bits <= 64
    }

    open spec fn in_domain(&self) -> bool {
        true
    }

    open spec fn compatible(&self, other: &Self) -> bool {
        true
    }

    proof fn compatible_leaf_len(&self, other: &Self) {
    }

    fn mutate(&mut self, m: &mut Mutator) {
        m.chromosome(self);
    }

    fn crossover(&mut self, other: &mut Self, c: &mut Crossover) {
        c.chromosome(self, other);
        proof {
            lemma_singleton_exchange(
                old(self).value,
                old(other).value,
                self.value,
                other.value,
            );
        }
    }

    fn size_hint(&self) -> (r: usize) {
        1
    }

    fn duplicate(&self) -> (r: Self) {
        FixedBits { value: self.value, bits: self.bits }
    }
}

impl<G: Genome> Genome for Vec<G> {
    open spec fn leaves(&self) -> Seq<u64> {
        seq_leaves(self@)
    }

    open spec fn units(&self) -> nat {
        seq_units(self@)
    }

    open spec fn wf(&self) -> bool {
        &&& forall|i: int| 0 <= i < self@.len() ==> (#[trigger] self@[i]).wf()
    &&& seq_units(self@) <= usize::MAX
    }

    open spec fn in_domain(&self) -> bool {
        forall|i: int| 0 <= i < self@.len() ==> (#[trigger] self@[i]).in_domain()
    }

    open spec fn compatible(&self, other: &Self) -> bool {
        &&& self@.len() == other@.len()
    &&& forall|i: int| 0 <= i < self@.len() ==> (#[trigger] self@[i]).compatible(&other@[i])
    }

    proof fn compatible_leaf_len(&self, other: &Self) {
        lemma_compat_leaf_len(self@, other@);
    }

    /// Mutates every element in order under the same session.
    fn mutate(&mut self, m: &mut Mutator) {
        let ghost s0 = self@;
        let ghost rates0: Seq<u32> = old(m).rates();
        let n: usize = self.len();
        let mut i: usize = 0;
        while i < n
            invariant
                i <= n,
                n == self@.len(),
                self@.len() == s0.len(),
                m.wf(),
                m.rates() == rates0,
                forall|j: int| i <= j < n ==> self@[j] == s0[j],
                forall|j: int| 0 <= j < n ==> (#[trigger] s0[j]).wf(),
                forall|j: int|
                    0 <= j < i ==> (#[trigger] self@[j]).wf() && self@[j].in_domain() && self@[j].units() == s0[j].units() && self@[j].leaves().len() == s0[j].leaves().len(),
                (rates0.last() == 0 && (forall|j: int|
                    0 <= j < n ==> (#[trigger] s0[j]).in_domain())) ==> forall|j: int|
                    0 <= j < i ==> (#[trigger] self@[j]).leaves() == s0[j].leaves(),
            decreases n - i,
        {
            let el = vec_index_mut(self, i);
            proof {
                assert(*el == s0[i as int]);
                assert(s0[i as int].wf());
            }
            el.mutate(m);
            i += 1;
        }
        proof {
            lemma_seq_units_pointwise(self@, s0);
            lemma_seq_leaves_len_pointwise(self@, s0);
            if old(m).rate_is_zero() && old(self).in_domain() {
                lemma_seq_leaves_pointwise(self@, s0);
            }
        }
    }

    /// Zips the two vectors by position and crosses each pair over; when the
    /// lengths differ, the extra elements of the longer vector stay as they
    /// are.
    fn crossover(&mut self, other: &mut Self, c: &mut Crossover)
        ensures
            forall|j: int|
                old(other)@.len() <= j < old(self)@.len() ==> final(self)@[j] == old(self)@[j],
            forall|j: int|
                old(self)@.len() <= j < old(other)@.len() ==> final(other)@[j] == old(other)@[j],
    {
        let ghost l0 = self@;
        let ghost r0 = other@;
        let ghost dom0 = old(self).in_domain() && old(other).in_domain();
        let ghost inert0 = old(c).inert();
        let ghost top0 = old(c).top();
        let ghost states0 = old(c).states();
        let ghost compat0 = old(self).compatible(old(other));
        let ln: usize = self.len();
        let rn: usize = other.len();
        let n: usize = if ln <= rn {
            ln
        } else {
            rn
        };
        let mut i: usize = 0;
        while i < n
            invariant
                i <= n,
                n <= l0.len(),
                n <= r0.len(),
                n == if l0.len() <= r0.len() {
                    l0.len()
                } else {
                    r0.len()
                },
                self@.len() == l0.len(),
                other@.len() == r0.len(),
                l0 == old(self)@,
                r0 == old(other)@,
                c.wf(),
                c.same_policy(old(c)),
                forall|j: int| 0 <= j < l0.len() ==> (#[trigger] l0[j]).wf(),
                forall|j: int| 0 <= j < r0.len() ==> (#[trigger] r0[j]).wf(),
                forall|j: int| i <= j < l0.len() ==> self@[j] == l0[j],
                forall|j: int| i <= j < r0.len() ==> other@[j] == r0[j],
                forall|j: int|
                    0 <= j < i ==> (#[trigger] self@[j]).wf() && self@[j].units() == l0[j].units()
                        && self@[j].leaves().len() == l0[j].leaves().len(),
                forall|j: int|
                    0 <= j < i ==> (#[trigger] other@[j]).wf() && other@[j].units() == r0[j].units() && other@[j].leaves().len() == r0[j].leaves().len(),
                seq_leaves(self@.take(i as int)).to_multiset().add(
                    seq_leaves(other@.take(i as int)).to_multiset(),
                ) == seq_leaves(l0.take(i as int)).to_multiset().add(
                    seq_leaves(r0.take(i as int)).to_multiset(),
                ),
                compat0 ==> leaf_exchange(
                    seq_leaves(l0.take(i as int)),
                    seq_leaves(r0.take(i as int)),
                    seq_leaves(self@.take(i as int)),
                    seq_leaves(other@.take(i as int)),
                ),
                dom0 == (old(self).in_domain() && old(other).in_domain()),
                inert0 == old(c).inert(),
                top0 == old(c).top(),
                states0 == old(c).states(),
                compat0 == old(self).compatible(old(other)),
                dom0 ==> forall|j: int| 0 <= j < i ==> (#[trigger] self@[j]).in_domain(),
                dom0 ==> forall|j: int| 0 <= j < i ==> (#[trigger] other@[j]).in_domain(),
                inert0 ==> c.inert(),
                inert0 ==> forall|j: int|
                    0 <= j < i ==> (#[trigger] self@[j]).leaves() == l0[j].leaves(),
                inert0 ==> forall|j: int|
                    0 <= j < i ==> (#[trigger] other@[j]).leaves() == r0[j].leaves(),
                (top0 matches CrossoverState::Fixed(b) ==> c.states() == states0),
                (top0 matches CrossoverState::Fixed(b) ==> b && compat0 ==> forall|j: int|
                    0 <= j < i ==> (#[trigger] self@[j]).leaves() == r0[j].leaves()),
                (top0 matches CrossoverState::Fixed(b) ==> b && compat0 ==> forall|j: int|
                    0 <= j < i ==> (#[trigger] other@[j]).leaves() == l0[j].leaves()),
                (top0 matches CrossoverState::Fixed(b) ==> !b ==> forall|j: int|
                    0 <= j < i ==> (#[trigger] self@[j]).leaves() == l0[j].leaves()),
                (top0 matches CrossoverState::Fixed(b) ==> !b ==> forall|j: int|
                    0 <= j < i ==> (#[trigger] other@[j]).leaves() == r0[j].leaves()),
            decreases n - i,
        {
            let ghost lpre = self@;
            let ghost rpre = other@;
            let el_l = vec_index_mut(self, i);
            let el_r = vec_index_mut(other, i);
            proof {
                assert(*el_l == l0[i as int]);
                assert(*el_r == r0[i as int]);
            }
            el_l.crossover(el_r, c);
            i += 1;
            proof {
                let ghost ii: int = i as int - 1;
                let ghost newl = self@[ii];
                let ghost newr = other@[ii];
                assert(self@.take(ii) =~= lpre.take(ii));
                assert(other@.take(ii) =~= rpre.take(ii));
                lemma_seq_leaves_step(self@, ii);
                lemma_seq_leaves_step(other@, ii);
                lemma_seq_leaves_step(l0, ii);
                lemma_seq_leaves_step(r0, ii);
                assert(newl.leaves().to_multiset().add(newr.leaves().to_multiset()) == l0[
                    ii].leaves().to_multiset().add(r0[ii].leaves().to_multiset()));
                lemma_exchange_extend(
                    seq_leaves(self@.take(ii)),
                    seq_leaves(other@.take(ii)),
                    seq_leaves(l0.take(ii)),
                    seq_leaves(r0.take(ii)),
                    newl.leaves(),
                    newr.leaves(),
                    l0[ii].leaves(),
                    r0[ii].leaves(),
                );
                if compat0 {
                    assert((old(self)@[ii]).compatible(&old(other)@[ii]));
                    lemma_leaf_exchange_concat(
                        seq_leaves(l0.take(ii)),
                        seq_leaves(r0.take(ii)),
                        seq_leaves(self@.take(ii)),
                        seq_leaves(other@.take(ii)),
                        l0[ii].leaves(),
                        r0[ii].leaves(),
                        newl.leaves(),
                        newr.leaves(),
                    );
                }
                if dom0 {
                    assert((old(self)@[ii]).in_domain());
                    assert((old(other)@[ii]).in_domain());
                    assert(newl.in_domain() && newr.in_domain());
                    assert forall|j: int| 0 <= j < ii + 1 implies (#[trigger] self@[j]).in_domain()
                        && (#[trigger] other@[j]).in_domain() by {
                        if j != ii {
                            assert(self@[j] == lpre[j]);
                            assert(other@[j] == rpre[j]);
                        }
                    }
                }
                if inert0 {
                    assert(newl.leaves() == l0[ii].leaves());
                    assert(newr.leaves() == r0[ii].leaves());
                    assert forall|j: int| 0 <= j < ii + 1 implies (#[trigger] self@[j]).leaves()
                        == l0[j].leaves() && (#[trigger] other@[j]).leaves() == r0[j].leaves() by {
                        if j != ii {
                            assert(self@[j] == lpre[j]);
                            assert(other@[j] == rpre[j]);
                        }
                    }
                }
                if top0 is Fixed {
                    let b = top0->Fixed_0;
                    if b && compat0 {
                        assert((old(self)@[ii]).compatible(&old(other)@[ii]));
                        assert(newl.leaves() == r0[ii].leaves());
                        assert(newr.leaves() == l0[ii].leaves());
                        assert forall|j: int| 0 <= j < ii + 1 implies (#[trigger] self@[j]).leaves()
                            == r0[j].leaves() && (#[trigger] other@[j]).leaves()
                            == l0[j].leaves() by {
                            if j != ii {
                                assert(self@[j] == lpre[j]);
                                assert(other@[j] == rpre[j]);
                            }
                        }
                    }
                    if !b {
                        assert(newl.leaves() == l0[ii].leaves());
                        assert(newr.leaves() == r0[ii].leaves());
                        assert forall|j: int| 0 <= j < ii + 1 implies (#[trigger] self@[j]).leaves()
                            == l0[j].leaves() && (#[trigger] other@[j]).leaves()
                            == r0[j].leaves() by {
                            if j != ii {
                                assert(self@[j] == lpre[j]);
                                assert(other@[j] == rpre[j]);
                            }
                        }
                    }
                }
            }
        }
        proof {
            assert(self@.skip(n as int) =~= l0.skip(n as int));
            assert(other@.skip(n as int) =~= r0.skip(n as int));
            lemma_seq_leaves_split(self@, n as int);
            lemma_seq_leaves_split(other@, n as int);
            lemma_seq_leaves_split(l0, n as int);
            lemma_seq_leaves_split(r0, n as int);
            lemma_seq_units_pointwise(self@, l0);
            lemma_seq_units_pointwise(other@, r0);
            lemma_seq_leaves_len_pointwise(self@, l0);
            lemma_seq_leaves_len_pointwise(other@, r0);
            lemma_exchange_extend(
                seq_leaves(self@.take(n as int)),
                seq_leaves(other@.take(n as int)),
                seq_leaves(l0.take(n as int)),
                seq_leaves(r0.take(n as int)),
                seq_leaves(self@.skip(n as int)),
                seq_leaves(other@.skip(n as int)),
                seq_leaves(l0.skip(n as int)),
                seq_leaves(r0.skip(n as int)),
            );
            assert forall|j: int| 0 <= j < self@.len() implies (#[trigger] self@[j]).wf() by {
                if n <= j {
                    assert(self@[j] == l0[j]);
                    assert(l0[j].wf());
                }
            }
            assert forall|j: int| 0 <= j < other@.len() implies (#[trigger] other@[j]).wf() by {
                if n <= j {
                    assert(other@[j] == r0[j]);
                    assert(r0[j].wf());
                }
            }
            if old(self).in_domain() && old(other).in_domain() {
                assert forall|j: int| 0 <= j < self@.len() implies (#[trigger] self@[j]).in_domain() by {
                    if n <= j {
                        assert(self@[j] == l0[j]);
                        assert((old(self)@[j]).in_domain());
                    }
                }
                assert forall|j: int| 0 <= j < other@.len() implies (#[trigger] other@[j]).in_domain() by {
                    if n <= j {
                        assert(other@[j] == r0[j]);
                        assert((old(other)@[j]).in_domain());
                    }
                }
            }
            if compat0 {
                assert(l0.len() == r0.len());
                assert(n == l0.len());
                assert(l0.take(n as int) =~= l0);
                assert(r0.take(n as int) =~= r0);
                assert(self@.take(n as int) =~= self@);
                assert(other@.take(n as int) =~= other@);
            }
            if old(c).inert() {
                lemma_seq_leaves_pointwise(self@, l0);
                lemma_seq_leaves_pointwise(other@, r0);
            }
            if old(c).top() is Fixed {
                let b = old(c).top()->Fixed_0;
                if b && old(self).compatible(old(other)) {
                    assert(l0.len() == r0.len());
                    assert(n == l0.len());
                    lemma_seq_leaves_pointwise(self@, r0);
                    lemma_seq_leaves_pointwise(other@, l0);
                } else if !b {
                    lemma_seq_leaves_pointwise(self@, l0);
                    lemma_seq_leaves_pointwise(other@, r0);
                }
            }
        }
    }

    /// The sum of the elements' unit counts.
    fn size_hint(&self) -> (r: usize) {
        let mut total: usize = 0;
        let n: usize = self.len();
        let mut i: usize = 0;
        while i < n
            invariant
                i <= n,
                n == self@.len(),
                self.wf(),
                total == seq_units(self@.take(i as int)),
            decreases n - i,
        {
            proof {
                lemma_seq_units_step(self@, i as int);
                lemma_seq_units_prefix(self@, i as int + 1);
            }
            let u: usize = (&self[i]).size_hint();
            total = total + u;
            i += 1;
        }
        proof {
            assert(self@.take(n as int) =~= self@);
        }
        total
    }

    fn duplicate(&self) -> (r: Self) {
        let mut r: Vec<G> = Vec::new();
        let n: usize = self.len();
        let mut i: usize = 0;
        while i < n
            invariant
                i <= n,
                n == self@.len(),
                self.wf(),
                r@.len() == i,
                forall|j: int|
                    0 <= j < i ==> (#[trigger] r@[j]).wf() && r@[j].leaves() == self@[j].leaves()
                        && r@[j].units() == self@[j].units() && (self@[j].in_domain() ==> r@[j].in_domain()) && r@[j].compatible(&self@[j]) && self@[j].compatible(&r@[j]),
            decreases n - i,
        {
            let d = (&self[i]).duplicate();
            r.push(d);
            i += 1;
        }
        proof {
            lemma_seq_leaves_pointwise(r@, self@);
            lemma_seq_units_pointwise(r@, self@);
        }
        r
    }
}

impl<A: Genome, B: Genome> Genome for (A, B) {
    open spec fn leaves(&self) -> Seq<u64> {
        self.0.leaves() + self.1.leaves()
    }

    open spec fn units(&self) -> nat {
        self.0.units() + self.1.units()
    }

    open spec fn wf(&self) -> bool {
        self.0.wf() && self.1.wf() && self.0.units() + self.1.units() <= usize::MAX
    }

    open spec fn in_domain(&self) -> bool {
        self.0.in_domain() && self.1.in_domain()
    }

    open spec fn compatible(&self, other: &Self) -> bool {
        self.0.compatible(&other.0) && self.1.compatible(&other.1)
    }

    proof fn compatible_leaf_len(&self, other: &Self) {
        self.0.compatible_leaf_len(&other.0);
        self.1.compatible_leaf_len(&other.1);
    }

    /// Mutates the components in declared order under the same session.
    fn mutate(&mut self, m: &mut Mutator) {
        self.0.mutate(m);
        self.1.mutate(m);
    }

    /// Crosses the components over pairwise, in declared order.
    fn crossover(&mut self, other: &mut Self, c: &mut Crossover) {
        self.0.crossover(&mut other.0, c);
        self.1.crossover(&mut other.1, c);
        proof {
            lemma_exchange_extend(
                self.0.leaves(),
                other.0.leaves(),
                old(self).0.leaves(),
                old(other).0.leaves(),
                self.1.leaves(),
                other.1.leaves(),
                old(self).1.leaves(),
                old(other).1.leaves(),
            );
            if old(self).compatible(old(other)) {
                lemma_leaf_exchange_concat(
                    old(self).0.leaves(),
                    old(other).0.leaves(),
                    self.0.leaves(),
                    other.0.leaves(),
                    old(self).1.leaves(),
                    old(other).1.leaves(),
                    self.1.leaves(),
                    other.1.leaves(),
                );
            }
        }
    }

    fn size_hint(&self) -> (r: usize) {
        self.0.size_hint() + self.1.size_hint()
    }

    fn duplicate(&self) -> (r: Self) {
        (self.0.duplicate(), self.1.duplicate())
    }
}

impl<A: Genome, B: Genome, C: Genome> Genome for (A, B, C) {
    open spec fn leaves(&self) -> Seq<u64> {
        self.0.leaves() + self.1.leaves() + self.2.leaves()
    }

    open spec fn units(&self) -> nat {
        self.0.units() + self.1.units() + self.2.units()
    }

    open spec fn wf(&self) -> bool {
        self.0.wf() && self.1.wf() && self.2.wf() && self.0.units() + self.1.units()
            + self.2.units() <= usize::MAX
    }

    open spec fn in_domain(&self) -> bool {
        self.0.in_domain() && self.1.in_domain() && self.2.in_domain()
    }

    open spec fn compatible(&self, other: &Self) -> bool {
        self.0.compatible(&other.0) && self.1.compatible(&other.1) && self.2.compatible(&other.2)
    }

    proof fn compatible_leaf_len(&self, other: &Self) {
        self.0.compatible_leaf_len(&other.0);
        self.1.compatible_leaf_len(&other.1);
        self.2.compatible_leaf_len(&other.2);
    }

    /// Mutates the components in declared order under the same session.
    fn mutate(&mut self, m: &mut Mutator) {
        self.0.mutate(m);
        self.1.mutate(m);
        self.2.mutate(m);
    }

    /// Crosses the components over pairwise, in declared order.
    fn crossover(&mut self, other: &mut Self, c: &mut Crossover) {
        self.0.crossover(&mut other.0, c);
        self.1.crossover(&mut other.1, c);
        self.2.crossover(&mut other.2, c);
        proof {
            lemma_exchange_extend(
                self.0.leaves(),
                other.0.leaves(),
                old(self).0.leaves(),
                old(other).0.leaves(),
                self.1.leaves(),
                other.1.leaves(),
                old(self).1.leaves(),
                old(other).1.leaves(),
            );
            lemma_exchange_extend(
                self.0.leaves() + self.1.leaves(),
                other.0.leaves() + other.1.leaves(),
                old(self).0.leaves() + old(self).1.leaves(),
                old(other).0.leaves() + old(other).1.leaves(),
                self.2.leaves(),
                other.2.leaves(),
                old(self).2.leaves(),
                old(other).2.leaves(),
            );
            if old(self).compatible(old(other)) {
                lemma_leaf_exchange_concat(
                    old(self).0.leaves(),
                    old(other).0.leaves(),
                    self.0.leaves(),
                    other.0.leaves(),
                    old(self).1.leaves(),
                    old(other).1.leaves(),
                    self.1.leaves(),
                    other.1.leaves(),
                );
                lemma_leaf_exchange_concat(
                    old(self).0.leaves() + old(self).1.leaves(),
                    old(other).0.leaves() + old(other).1.leaves(),
                    self.0.leaves() + self.1.leaves(),
                    other.0.leaves() + other.1.leaves(),
                    old(self).2.leaves(),
                    old(other).2.leaves(),
                    self.2.leaves(),
                    other.2.leaves(),
                );
            }
        }
    }

    fn size_hint(&self) -> (r: usize) {
        self.0.size_hint() + self.1.size_hint() + self.2.size_hint()
    }

    fn duplicate(&self) -> (r: Self) {
        (self.0.duplicate(), self.1.duplicate(), self.2.duplicate())
    }
}

impl<T: Genome> Genome for GroupCh<T> {
    open spec fn leaves(&self) -> Seq<u64> {
        self.wrapped.leaves()
    }

    open spec fn units(&self) -> nat {
        1
    }

    open spec fn wf(&self) -> bool {
        self.wrapped.wf()
    }

    open spec fn in_domain(&self) -> bool {
        self.wrapped.in_domain()
    }

    open spec fn compatible(&self, other: &Self) -> bool {
        self.wrapped.compatible(&other.wrapped)
    }

    proof fn compatible_leaf_len(&self, other: &Self) {
        self.wrapped.compatible_leaf_len(&other.wrapped);
    }

    /// Mutation needs no cross-leaf coordination, so a group mutates like
    /// its wrapped sub-genome.
    fn mutate(&mut self, m: &mut Mutator) {
        self.wrapped.mutate(m);
    }

    /// The group's single swap decision is drawn once from the enclosing
    /// policy and applied to every leaf inside: two matching groups are
    /// swapped whole or kept whole, never split.
    fn crossover(&mut self, other: &mut Self, c: &mut Crossover)
        ensures
            old(self).compatible(old(other)) ==> (final(self).leaves() == old(other).leaves()
                && final(other).leaves() == old(self).leaves()) || (final(self).leaves() == old(
                self,
            ).leaves() && final(other).leaves() == old(other).leaves()),
    {
        c.begin_group();
        self.wrapped.crossover(&mut other.wrapped, c);
        c.end_group();
    }

    /// A group always counts as exactly one unit, however many leaves it
    /// spans.
    fn size_hint(&self) -> (r: usize) {
        1
    }

    fn duplicate(&self) -> (r: Self) {
        GroupCh { wrapped: self.wrapped.duplicate() }
    }
}

} // verus!
