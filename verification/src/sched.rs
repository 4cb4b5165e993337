//! The scheduler's shape: a run's task list is cut into consecutive batches
//! of at most the configured concurrency.  The batches run one after
//! another, the tasks of one batch concurrently; results are reported in
//! original submission order, so the batching must both bound the batch
//! sizes and, flattened, reproduce the task list exactly.  Both are proved
//! here; the driving of the concurrent batch itself lives outside the
//! library.

use vstd::prelude::*;
use vstd::set_lib::{lemma_int_range, lemma_len_subset, set_int_range};

verus! {

/// `s` cut into consecutive batches of `n`, the last one possibly shorter.
pub open spec fn chunks_of<T>(s: Seq<T>, n: int) -> Seq<Seq<T>>
    decreases s.len(),
    when n >= 1
{
    if s.len() == 0 {
        Seq::empty()
    } else if s.len() <= n {
        seq![s]
    } else {
        seq![s.take(n)].add(chunks_of(s.skip(n), n))
    }
}

/// Bounded concurrency, order preserved: batches run one at a time, so the
/// peak number of concurrently-active tasks is the largest batch, which
/// never exceeds `n`; and the batches flattened in order are exactly the
/// submission order, whatever order tasks complete in inside a batch.
pub proof fn lemma_bounded_concurrency<T>(s: Seq<T>, n: int)
    requires
        n >= 1,
    ensures
        chunks_of(s, n).flatten() == s,
        forall|i: int|
            0 <= i < chunks_of(s, n).len() ==> 1 <= (#[trigger] chunks_of(s, n)[i]).len() <= n,
    decreases s.len(),
{
    let cs = chunks_of(s, n);
    if s.len() == 0 {
        assert(cs.flatten() =~= s);
    } else if s.len() <= n {
        assert(cs == seq![s]);
        assert(seq![s].drop_first() =~= Seq::<Seq<T>>::empty());
        assert(Seq::<Seq<T>>::empty().flatten() =~= Seq::<T>::empty());
        assert(cs.flatten() =~= s);
    } else {
        lemma_bounded_concurrency(s.skip(n), n);
        assert(cs.first() == s.take(n));
        assert(cs.drop_first() =~= chunks_of(s.skip(n), n));
        assert(cs.flatten() == s.take(n) + chunks_of(s.skip(n), n).flatten());
        assert(s.take(n) + s.skip(n) =~= s);
        assert(forall|i: int|
            1 <= i < cs.len() ==> cs[i] == chunks_of(s.skip(n), n)[i - 1]);
    }
}

/// Cuts the task list into the batches the run executes, in order.
pub fn chunk_tasks<T>(tasks: Vec<T>, size: usize) -> (r: Vec<Vec<T>>)
    requires
        size >= 1,
    ensures
        r@.map_values(|b: Vec<T>| b@) == chunks_of(tasks@, size as int),
{
    let ghost orig = tasks@;
    let mut rest = tasks;
    let mut r: Vec<Vec<T>> = Vec::new();
    assert(r@.map_values(|b: Vec<T>| b@) + chunks_of(rest@, size as int) =~= chunks_of(
        orig,
        size as int,
    ));
    while rest.len() > 0
        invariant
            size >= 1,
            chunks_of(orig, size as int) =~= r@.map_values(|b: Vec<T>| b@) + chunks_of(
                rest@,
                size as int,
            ),
        decreases rest.len(),
    {
        let ghost start = rest@;
        let k = if rest.len() <= size {
            rest.len()
        } else {
            size
        };
        let mut batch: Vec<T> = Vec::new();
        let mut j: usize = 0;
        while j < k
            invariant
                j <= k,
                k <= start.len(),
                batch@.len() == j,
                batch@ =~= start.take(j as int),
                rest@ =~= start.skip(j as int),
            decreases k - j,
        {
            let item = rest.remove(0);
            batch.push(item);
            proof {
                assert(start.skip(j as int).remove(0) =~= start.skip(j + 1));
                assert(start.take(j as int).push(start.skip(j as int)[0]) =~= start.take(j + 1));
            }
            j += 1;
        }
        let ghost old_batches = r@.map_values(|b: Vec<T>| b@);
        let ghost batch_view = batch@;
        r.push(batch);
        proof {
            assert(r@.map_values(|b: Vec<T>| b@) =~= old_batches.push(batch_view));
            if start.len() <= size as int {
                assert(batch_view =~= start);
                assert(rest@ =~= Seq::<T>::empty());
                assert(chunks_of(start, size as int) =~= seq![start]);
                assert(chunks_of(rest@, size as int) =~= Seq::<Seq<T>>::empty());
                assert(old_batches.push(batch_view) + Seq::<Seq<T>>::empty() =~= old_batches + seq![
                    start,
                ]);
            } else {
                assert(batch_view =~= start.take(size as int));
                assert(rest@ =~= start.skip(size as int));
                assert(chunks_of(start, size as int) =~= seq![start.take(size as int)].add(
                    chunks_of(start.skip(size as int), size as int),
                ));
                assert(old_batches.push(batch_view) + chunks_of(rest@, size as int) =~= old_batches
                    + chunks_of(start, size as int));
            }
            assert(old_batches + chunks_of(start, size as int) =~= chunks_of(orig, size as int));
        }
    }
    assert(chunks_of(rest@, size as int) =~= Seq::<Seq<T>>::empty());
    assert(r@.map_values(|b: Vec<T>| b@) =~= chunks_of(orig, size as int));
    r
}

/// Every completion carries an in-range position, and no two carry the same
/// one: what a batch's completions look like when each task reported its own
/// position exactly once.
pub open spec fn positions_ok<T>(rs: Seq<(usize, T)>) -> bool {
    &&& forall|j: int| 0 <= j < rs.len() ==> (#[trigger] rs[j]).0 < rs.len()
    &&& forall|j: int, k: int| 0 <= j < k < rs.len() ==> rs[j].0 != rs[k].0
}

/// The positions reported by the first `p` completions.
pub open spec fn positions_of<T>(rs: Seq<(usize, T)>, p: int) -> Set<int> {
    Set::new(|idx: int| exists|k: int| 0 <= k < p && (#[trigger] rs[k]).0 == idx)
}

/// The collector: a batch's completions, tagged with their submission
/// positions and arriving in any order, reassembled into submission order.
/// Succeeds exactly when the positions are a permutation of the batch, and
/// then every completion's value sits at the position its task was submitted
/// at — the reported order never depends on the completion order.
pub fn collect_in_order<T>(results: Vec<(usize, T)>) -> (r: Option<Vec<T>>)
    ensures
        r is Some <==> positions_ok(results@),
        r matches Some(v) ==> v@.len() == results@.len() && forall|j: int|
            0 <= j < results@.len() ==> v@[(#[trigger] results@[j]).0 as int] == results@[j].1,
{
    let n = results.len();
    let ghost rs = results@;
    let mut slots: Vec<Option<T>> = Vec::new();
    let mut i: usize = 0;
    while i < n
        invariant
            i <= n,
            slots@.len() == i,
            forall|k: int| 0 <= k < i ==> (#[trigger] slots@[k]) is None,
        decreases n - i,
    {
        slots.push(None);
        i += 1;
    }
    let mut rest = results;
    let mut p: usize = 0;
    proof {
        assert(positions_of(rs, 0) =~= Set::<int>::empty());
        assert(rs.skip(0) =~= rs);
    }
    while rest.len() > 0
        invariant
            rs == results@,
            p + rest@.len() == n,
            rs.len() == n,
            rest@ =~= rs.skip(p as int),
            slots@.len() == n,
            positions_of(rs, p as int).finite(),
            positions_of(rs, p as int).len() == p,
            forall|idx: int|
                0 <= idx < n ==> (((#[trigger] slots@[idx]) is Some) <==> positions_of(
                    rs,
                    p as int,
                ).contains(idx)),
            forall|k: int| 0 <= k < p ==> (#[trigger] rs[k]).0 < n,
            forall|k: int|
                0 <= k < p ==> slots@[(#[trigger] rs[k]).0 as int] == Option::Some(rs[k].1),
            forall|j: int, k: int| 0 <= j < k < p ==> rs[j].0 != rs[k].0,
        decreases rest@.len(),
    {
        let ghost old_positions = positions_of(rs, p as int);
        assert(rs.skip(p as int)[0] == rs[p as int]);
        let (idx, val) = rest.remove(0);
        proof {
            assert(rest@ =~= rs.skip(p + 1));
            assert(idx == rs[p as int].0 && val == rs[p as int].1);
        }
        if idx >= n {
            // This completion's position lies outside the batch.
            proof {
                assert(!positions_ok(rs)) by {
                    if positions_ok(rs) {
                        assert(rs[p as int].0 < rs.len());
                    }
                }
            }
            return None;
        }
        if slots[idx].is_some() {
            // Two completions reported the same position.
            proof {
                assert(old_positions.contains(idx as int));
                let k = choose|k: int| 0 <= k < p && (#[trigger] rs[k]).0 == idx as int;
                assert(!positions_ok(rs)) by {
                    if positions_ok(rs) {
                        assert(rs[k].0 != rs[p as int].0);
                    }
                }
            }
            return None;
        }
        let ghost old_slots = slots@;
        slots.remove(idx);
        slots.insert(idx, Some(val));
        proof {
            assert(slots@ =~= old_slots.update(idx as int, Option::Some(rs[p as int].1)));
            assert(!old_positions.contains(idx as int));
            assert(positions_of(rs, p + 1) =~= old_positions.insert(idx as int)) by {
                assert forall|x: int| positions_of(rs, p + 1).contains(x) implies
                    old_positions.insert(idx as int).contains(x) by {
                    let k = choose|k: int| 0 <= k < p + 1 && (#[trigger] rs[k]).0 == x;
                    if k < p {
                        assert(old_positions.contains(x));
                    }
                }
                assert forall|x: int| old_positions.insert(idx as int).contains(x) implies
                    positions_of(rs, p + 1).contains(x) by {
                    if x == idx as int {
                        assert(0 <= p < p + 1 && rs[p as int].0 == x);
                    } else {
                        let k = choose|k: int| 0 <= k < p && (#[trigger] rs[k]).0 == x;
                        assert(0 <= k < p + 1 && rs[k].0 == x);
                    }
                }
            }
        }
        p += 1;
    }
    // Every completion accounted for: the reported positions are n distinct
    // values below n, so every slot is filled.
    proof {
        lemma_int_range(0, n as int);
        assert(positions_of(rs, n as int).subset_of(set_int_range(0, n as int))) by {
            assert forall|x: int| positions_of(rs, n as int).contains(x) implies set_int_range(
                0,
                n as int,
            ).contains(x) by {
                let k = choose|k: int| 0 <= k < n && (#[trigger] rs[k]).0 == x;
            }
        }
        assert forall|idx: int| 0 <= idx < n implies positions_of(rs, n as int).contains(
            idx,
        ) by {
            if !positions_of(rs, n as int).contains(idx) {
                positions_of(rs, n as int).lemma_subset_not_in_lt(
                    set_int_range(0, n as int),
                    idx,
                );
            }
        }
    }
    let ghost full = slots@;
    let mut out: Vec<T> = Vec::new();
    let mut q: usize = 0;
    let mut remaining = slots;
    while remaining.len() > 0
        invariant
            q + remaining@.len() == n,
            full.len() == n,
            out@.len() == q,
            remaining@ =~= full.skip(q as int),
            forall|k: int| 0 <= k < n ==> (#[trigger] full[k]) is Some,
            forall|k: int| 0 <= k < q ==> Option::Some(#[trigger] out@[k]) == full[k],
        decreases remaining@.len(),
    {
        let slot = remaining.remove(0);
        proof {
            assert(full.skip(q as int)[0] == full[q as int]);
            assert(full.skip(q as int).remove(0) =~= full.skip(q + 1));
        }
        match slot {
            Option::Some(t) => {
                out.push(t);
            },
            Option::None => {
                proof {
                    assert(full[q as int] is Some);
                }
                return None;
            },
        }
        q += 1;
    }
    proof {
        assert forall|j: int| 0 <= j < rs.len() implies out@[(#[trigger] rs[j]).0 as int]
            == rs[j].1 by {
            assert(full[rs[j].0 as int] == Option::Some(rs[j].1));
            assert(Option::Some(out@[rs[j].0 as int]) == full[rs[j].0 as int]);
        }
    }
    Some(out)
}

} // verus!
