use vstd::prelude::*;

use crate::rate::RATE_DENOM;
use crate::traverse::Mutator;
use crate::wrapper::MutationWrapper;

verus! {

/// Mutates an ordered collection by re-ordering its elements instead of
/// perturbing them one by one: the collection is treated as a multiset whose
/// mutation operator is a number of random pairwise swaps.
#[derive(Clone, Copy, Debug, PartialEq, Eq, Structural)]
pub enum ReorderGenome {
    /// Random transposition swaps; any positive rate performs at least one.
    Swap,
}

impl ReorderGenome {
    /// Every element is one chromosome unit.
    pub fn size_hint<T>(&self, genome: &Vec<T>) -> (r: usize)
        ensures
            r == genome@.len(),
    {
        genome.len()
    }
}

/// Relies on `<[T]>::swap`: exchanges the elements at the two indices, and
/// panics only when an index is out of bounds.
#[verifier::external_body]
fn vec_swap<T>(v: &mut Vec<T>, a: usize, b: usize)
    requires
        a < old(v).len(),
        b < old(v).len(),
    ensures
        final(v)@ == old(v)@.update(a as int, old(v)@[b as int]).update(b as int, old(v)@[a as int]),
{
    v.swap(a, b);
}

/// Swapping two positions of a sequence keeps its multiset of elements.
proof fn lemma_swap_keeps_multiset<T>(s: Seq<T>, a: int, b: int)
    requires
        0 <= a < s.len(),
        0 <= b < s.len(),
    ensures
        s.update(a, s[b]).update(b, s[a]).to_multiset() == s.to_multiset(),
{
    broadcast use vstd::seq_lib::group_to_multiset_ensures;
    broadcast use vstd::multiset::group_multiset_axioms;

    if a == b {
        assert(s.update(a, s[b]).update(b, s[a]) =~= s);
    } else {
        let t1 = s.update(a, s[b]);
        let t2 = t1.update(b, s[a]);
        assert(t1[b] == s[b]);
        assert(t1.to_multiset() == s.to_multiset().insert(s[b]).remove(s[a]));
        assert(t2.to_multiset() == t1.to_multiset().insert(s[a]).remove(t1[b]));
        assert(s.contains(s[a]));
        assert(s.to_multiset().count(s[a]) > 0);
        assert(t2.to_multiset() =~= s.to_multiset());
    }
}

impl<T> MutationWrapper<Vec<T>> for ReorderGenome {
    open spec fn ok(&self) -> bool {
        true
    }

    open spec fn mutated(&self, pre: Vec<T>, post: Vec<T>, rate: u32) -> bool {
        &&& post@.len() == pre@.len()
    &&& post@.to_multiset() == pre@.to_multiset()
    &&& rate == 0 ==> post@ == pre@
    }

    /// Performs `floor((len - 1) * rate)` random transposition swaps, at
    /// least one whenever the rate is positive, each picking two distinct
    /// positions and exchanging their contents in place.
    ///
    /// A collection with fewer than two elements has no distinct pair to
    /// pick, so it is left unchanged whatever the rate, where the
    /// floor-of-one-swap rule would otherwise demand an impossible swap.
    fn mutate_with(&self, value: &mut Vec<T>, m: &mut Mutator) {
        let n: usize = value.len();
        if n < 2 {
            return ;
        }
        let rate = m.get_rate();
        proof {
            crate::walk::lemma_walk_width_bounds((n - 1) as int, rate.num as int);
        }
        let scaled: u128 = (((n - 1) as u128) * (rate.num as u128)) / (RATE_DENOM as u128);
        let mut swaps: usize = scaled as usize;
        if rate.num > 0 && swaps == 0 {
            swaps = 1;
        }
        let ghost base = value@;
        let mut k: usize = 0;
        while k < swaps
            invariant
                n >= 2,
                value@.len() == n,
                base.len() == n,
                value@.to_multiset() == base.to_multiset(),
                rate.num == 0 ==> swaps == 0,
                rate.num == 0 ==> value@ == base,
                m.wf(),
                m.rates() == old(m).rates(),
            decreases swaps - k,
        {
            let first: usize = m.rand_below(n as u64) as usize;
            let second: usize = m.rand_below((n - 1) as u64) as usize;
            let a: usize;
            let b: usize;
            if second >= first {
                a = first;
                b = second + 1;
            } else {
                a = second;
                b = first;
            }
            let ghost pre = value@;
            vec_swap(value, a, b);
            proof {
                lemma_swap_keeps_multiset(pre, a as int, b as int);
            }
            k += 1;
        }
    }
}

} // verus!
