//! Parallel dispatch of kernel work: `par_for(total, max_num_batches, work)`
//! partitions the index range `[0, total)` into at most `max_num_batches`
//! contiguous batches and invokes `work` once per index, with no index
//! skipped or repeated, whatever the batch bound.
//!
//! The partition is computed and proved here; crossing the native thread
//! pool's callback boundary adds concurrency but must visit exactly the same
//! indices, so this module is the reference the dispatch is held to.

use vstd::prelude::*;
use vstd::arithmetic::div_mod::lemma_fundamental_div_mod;

verus! {

/// A well-formed batch plan over `[0, total)`: non-empty contiguous batches,
/// starting at zero and ending at `total`, so that every index lies in
/// exactly one batch.
pub open spec fn plan_wf(plan: Seq<(usize, usize)>, total: nat) -> bool {
    &&& forall|i: int| 0 <= i < plan.len() ==> (#[trigger] plan[i]).1 > 0
    &&& forall|i: int|
        0 <= i < plan.len() - 1 ==> (#[trigger] plan[i]).0 + plan[i].1 == plan[i + 1].0
    &&& (plan.len() == 0 <==> total == 0)
    &&& (plan.len() > 0 ==> plan[0].0 == 0 && plan.last().0 + plan.last().1 == total)
}

/// How many batches the plan for `total` indices under a bound of
/// `max_num_batches` holds: the bound, clamped to at least one batch and to
/// at most one batch per index; none at all for an empty range.
pub open spec fn spec_batch_count(total: nat, max_num_batches: nat) -> nat {
    if total == 0 {
        0
    } else if max_num_batches == 0 {
        1
    } else if max_num_batches <= total {
        max_num_batches
    } else {
        total
    }
}

/// Partitions `[0, total)` into contiguous `(start, len)` batches, at most
/// `max_num_batches` of them (at least one when the range is non-empty), the
/// lengths as even as the split allows: any two batch lengths are within one
/// of each other. An empty range gives an empty plan.
pub fn batch_plan(total: usize, max_num_batches: usize) -> (r: Vec<(usize, usize)>)
    ensures
        plan_wf(r@, total as nat),
        r@.len() == spec_batch_count(total as nat, max_num_batches as nat),
        forall|i: int, j: int|
            0 <= i < r@.len() && 0 <= j < r@.len() ==> (#[trigger] r@[i]).1 <= (#[trigger] r@[j]).1
                + 1,
{
    let mut r: Vec<(usize, usize)> = Vec::new();
    if total == 0 {
        return r;
    }
    let k: usize = if max_num_batches == 0 {
        1
    } else if max_num_batches <= total {
        max_num_batches
    } else {
        total
    };
    let base = total / k;
    let rem = total % k;
    proof {
        lemma_fundamental_div_mod(total as int, k as int);
        assert(base >= 1) by (nonlinear_arith)
            requires
                total as int == k as int * base as int + rem as int,
                0 <= rem < k,
                1 <= k <= total,
                base >= 0,
        ;
    }
    let mut start: usize = 0;
    let mut i: usize = 0;
    while i < k
        invariant
            1 <= k <= total,
            total as int == k as int * base as int + rem as int,
            0 <= rem < k,
            1 <= base,
            i <= k,
            r@.len() == i,
            start as int == i as int * base as int + if i <= rem {
                i as int
            } else {
                rem as int
            },
            start <= total,
            forall|t: int|
                0 <= t < i ==> (#[trigger] r@[t]).1 == base + if t < rem {
                    1usize
                } else {
                    0usize
                },
            forall|t: int|
                0 <= t < r@.len() - 1 ==> (#[trigger] r@[t]).0 + r@[t].1 == r@[t + 1].0,
            r@.len() > 0 ==> r@[0].0 == 0 && r@.last().0 + r@.last().1 == start,
            r@.len() == 0 ==> start == 0,
        decreases k - i,
    {
        proof {
            assert((i + 1) as int * base as int == i as int * base as int + base as int)
                by (nonlinear_arith);
            assert((i + 1) as int * base as int <= k as int * base as int) by (nonlinear_arith)
                requires
                    i + 1 <= k,
                    base >= 0,
            ;
        }
        let len = if i < rem {
            base + 1
        } else {
            base
        };
        r.push((start, len));
        start += len;
        i += 1;
    }
    proof {
        assert forall|p: int, q: int|
            0 <= p < r@.len() && 0 <= q < r@.len() implies (#[trigger] r@[p]).1 <= (
        #[trigger] r@[q]).1 + 1 by {
            assert(r@[p].1 <= base + 1);
            assert(r@[q].1 >= base);
        }
    }
    r
}

/// The exact visiting order of a plan's dispatch: every index of `[0, total)`
/// once, in order — none skipped, none repeated, whatever `max_num_batches`
/// was. An empty range yields no index at all.
pub fn par_for_indices(total: usize, max_num_batches: usize) -> (r: Vec<usize>)
    ensures
        r@ == Seq::new(total as nat, |i: int| i as usize),
{
    let plan = batch_plan(total, max_num_batches);
    let mut r: Vec<usize> = Vec::new();
    let n = plan.len();
    let mut t: usize = 0;
    while t < n
        invariant
            t <= n,
            n == plan@.len(),
            plan_wf(plan@, total as nat),
            r@ == Seq::new(r@.len(), |i: int| i as usize),
            t < n ==> r@.len() == plan@[t as int].0,
            t == n ==> r@.len() == total,
        decreases n - t,
    {
        let (bstart, blen) = plan[t];
        let mut j: usize = bstart;
        proof {
            assert(bstart + blen <= total) by {
                batch_end_bounded(plan@, total as nat, t as int);
            }
        }
        while j < bstart + blen
            invariant
                bstart <= j <= bstart + blen,
                bstart + blen <= total,
                r@ == Seq::new(r@.len(), |i: int| i as usize),
                r@.len() == j,
            decreases bstart + blen - j,
        {
            r.push(j);
            proof {
                assert(r@ =~= Seq::new(r@.len(), |i: int| i as usize));
            }
            j += 1;
        }
        t += 1;
        proof {
            if t < n {
                assert(plan@[t as int - 1].0 + plan@[t as int - 1].1 == plan@[t as int].0);
            } else {
                assert(plan@.last() == plan@[t as int - 1]);
            }
        }
    }
    proof {
        assert(r@ =~= Seq::new(total as nat, |i: int| i as usize));
    }
    r
}

/// Within a well-formed plan, every batch ends at or before `total`.
proof fn batch_end_bounded(plan: Seq<(usize, usize)>, total: nat, t: int)
    requires
        plan_wf(plan, total),
        0 <= t < plan.len(),
    ensures
        plan[t].0 + plan[t].1 <= total,
    decreases plan.len() - t,
{
    if t == plan.len() - 1 {
        assert(plan.last() == plan[t]);
    } else {
        batch_end_bounded(plan, total, t + 1);
        assert(plan[t].0 + plan[t].1 == plan[t + 1].0);
    }
}

/// Invokes `work` once per index of `[0, total)`, in the order the batch
/// plan visits them, so a range of zero indices completes without invoking
/// `work` at all. On return, `work`'s postcondition holds of every index of
/// the range — the statable half of "invoked on each index" — and the
/// returned ghost sequence logs the argument of every invocation, in order:
/// exactly the indices `0, 1, …, total - 1`. Dispatch through the native
/// thread pool may interleave batches; the set of visited indices is the
/// same.
pub fn par_for<F: Fn(usize)>(total: usize, max_num_batches: usize, work: &F) -> (calls: Ghost<
    Seq<usize>,
>)
    requires
        forall|i: usize| i < total ==> call_requires(*work, (i,)),
    ensures
        forall|i: usize| i < total ==> call_ensures(*work, (i,), ()),
        calls@ == Seq::new(total as nat, |i: int| i as usize),
{
    let idxs = par_for_indices(total, max_num_batches);
    let n = idxs.len();
    let mut t: usize = 0;
    while t < n
        invariant
            t <= n,
            n == total,
            n == idxs@.len(),
            idxs@ == Seq::new(total as nat, |i: int| i as usize),
            forall|i: usize| i < total ==> call_requires(*work, (i,)),
            forall|i: usize| i < t ==> call_ensures(*work, (i,), ()),
        decreases n - t,
    {
        let i = idxs[t];
        work(i);
        t += 1;
    }
    Ghost(idxs@)
}

} // verus!
