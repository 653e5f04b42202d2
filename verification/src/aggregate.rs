//! Fan-in aggregation: merging the per-server player counts into one total.
//!
//! Each poll task reports one non-negative count (zero when the server could
//! not be reached or answered nonsense).  The aggregate is the exact sum of
//! all contributions; because the counts come from untrusted servers the
//! executable sum saturates at `u64::MAX` instead of overflowing.

use vstd::prelude::*;

verus! {

/// The mathematical sum of a sequence of counts.
pub open spec fn sum_of(s: Seq<u64>) -> int
    decreases s.len(),
{
    if s.len() == 0 {
        0
    } else {
        sum_of(s.drop_last()) + s.last()
    }
}

/// What the executable aggregator returns: the exact sum, clamped to `u64`.
pub open spec fn clamped_sum(s: Seq<u64>) -> u64 {
    if sum_of(s) <= u64::MAX {
        sum_of(s) as u64
    } else {
        u64::MAX
    }
}

pub proof fn lemma_sum_of_nonneg(s: Seq<u64>)
    ensures
        sum_of(s) >= 0,
    decreases s.len(),
{
    if s.len() > 0 {
        lemma_sum_of_nonneg(s.drop_last());
    }
}

proof fn lemma_sum_of_push(s: Seq<u64>, x: u64)
    ensures
        sum_of(s.push(x)) == sum_of(s) + x,
{
    assert(s.push(x).drop_last() =~= s);
}

/// Sum all contributions of one aggregation pass.
///
/// Every entry of `counts` is added exactly once; no contribution is dropped
/// or counted twice.  The result is the exact sum whenever that sum fits in
/// a `u64`, and `u64::MAX` otherwise.
pub fn aggregate_players(counts: &Vec<u64>) -> (total: u64)
    ensures
        total == clamped_sum(counts@),
{
    let mut total: u64 = 0;
    let mut i: usize = 0;
    while i < counts.len()
        invariant
            i <= counts.len(),
            total == clamped_sum(counts@.take(i as int)),
        decreases counts.len() - i,
    {
        let c = counts[i];
        proof {
            lemma_sum_of_nonneg(counts@.take(i as int));
            lemma_sum_of_push(counts@.take(i as int), c);
            assert(counts@.take(i as int).push(c) =~= counts@.take(i + 1));
        }
        if u64::MAX - total < c {
            total = u64::MAX;
        } else {
            total = total + c;
        }
        i = i + 1;
    }
    proof {
        assert(counts@.take(counts@.len() as int) =~= counts@);
    }
    total
}

proof fn lemma_sum_of_remove(s: Seq<u64>, i: int)
    requires
        0 <= i < s.len(),
    ensures
        sum_of(s) == sum_of(s.remove(i)) + s[i],
    decreases s.len(),
{
    if i == s.len() - 1 {
        assert(s.remove(i) =~= s.drop_last());
    } else {
        assert(s.remove(i).drop_last() =~= s.drop_last().remove(i));
        lemma_sum_of_remove(s.drop_last(), i);
    }
}

/// The aggregate does not depend on the order in which the poll tasks
/// report: two sequences holding the same counts (as a multiset) have the
/// same sum.
pub proof fn lemma_sum_of_permutation(a: Seq<u64>, b: Seq<u64>)
    requires
        a.to_multiset() == b.to_multiset(),
    ensures
        sum_of(a) == sum_of(b),
    decreases a.len(),
{
    broadcast use vstd::seq_lib::group_to_multiset_ensures;

    if a.len() == 0 {
        assert(b.to_multiset().len() == 0);
    } else {
        let x = a.last();
        assert(a =~= a.drop_last().push(x));
        assert(a.to_multiset() =~= a.drop_last().to_multiset().insert(x));
        assert(b.to_multiset().count(x) > 0);
        assert(b.contains(x));
        let i = choose|i: int| 0 <= i < b.len() && b[i] == x;
        lemma_sum_of_remove(b, i);
        assert(a.drop_last().to_multiset() =~= b.remove(i).to_multiset());
        lemma_sum_of_permutation(a.drop_last(), b.remove(i));
    }
}

} // verus!
