//! Ranking by score: the order in which scored things are taken, best
//! first, with things of equal score in the order in which they were given.

use vstd::prelude::*;

verus! {

/// Where a new score `x` goes among scores already in rank order: behind
/// every score that is not smaller than it.
pub open spec fn insertion_point(placed: Seq<int>, x: int) -> int
    decreases placed.len(),
{
    if placed.len() == 0 || placed.last() >= x {
        placed.len() as int
    } else {
        insertion_point(placed.drop_last(), x)
    }
}

/// The rank order of scores: the sequence of their input positions, best
/// score first, in which each score in turn is placed behind all that are not
/// smaller.
pub open spec fn rank_order(scores: Seq<int>) -> Seq<int>
    decreases scores.len(),
{
    if scores.len() == 0 {
        Seq::empty()
    } else {
        let before = rank_order(scores.drop_last());
        let placed = before.map_values(|i: int| scores[i]);
        before.insert(insertion_point(placed, scores.last()), scores.len() - 1)
    }
}

/// The insertion point lies within the list; every score from it on is
/// smaller than `x`, and the score just before it is not.
pub proof fn lemma_insertion_point(placed: Seq<int>, x: int)
    ensures
        0 <= insertion_point(placed, x) <= placed.len(),
        forall|k: int| insertion_point(placed, x) <= k < placed.len() ==> placed[k] < x,
        insertion_point(placed, x) > 0 ==> placed[insertion_point(placed, x) - 1] >= x,
    decreases placed.len(),
{
    if placed.len() > 0 && placed.last() < x {
        lemma_insertion_point(placed.drop_last(), x);
        let p = insertion_point(placed.drop_last(), x);
        assert forall|k: int| p <= k < placed.len() implies placed[k] < x by {
            if k < placed.len() - 1 {
                assert(placed.drop_last()[k] == placed[k]);
            }
        }
        if p > 0 {
            assert(placed.drop_last()[p - 1] == placed[p - 1]);
        }
    }
}

/// The rank order holds each input position exactly once.
pub proof fn lemma_rank_order_is_permutation(scores: Seq<int>)
    ensures
        rank_order(scores).len() == scores.len(),
        forall|k: int|
            0 <= k < scores.len() ==> 0 <= #[trigger] rank_order(scores)[k] < scores.len(),
        rank_order(scores).no_duplicates(),
    decreases scores.len(),
{
    if scores.len() > 0 {
        let n = scores.len() - 1;
        let before = rank_order(scores.drop_last());
        let placed = before.map_values(|i: int| scores[i]);
        let p = insertion_point(placed, scores.last());
        lemma_rank_order_is_permutation(scores.drop_last());
        lemma_insertion_point(placed, scores.last());
        let order = before.insert(p, n);
        assert(order == rank_order(scores));
        assert forall|k: int| 0 <= k < order.len() implies 0 <= #[trigger] order[k]
            < scores.len() by {
            if k < p {
                assert(order[k] == before[k]);
            } else if k > p {
                assert(order[k] == before[k - 1]);
            }
        }
        assert forall|k: int, l: int| 0 <= k < order.len() && 0 <= l < order.len() && k
            != l implies order[k] != order[l] by {
            let bk = if k < p {
                k
            } else {
                k - 1
            };
            let bl = if l < p {
                l
            } else {
                l - 1
            };
            if k != p && l != p {
                assert(order[k] == before[bk]);
                assert(order[l] == before[bl]);
            } else if k == p {
                assert(order[l] == before[bl]);
            } else {
                assert(order[k] == before[bk]);
            }
        }
    }
}

/// Along the rank order the scores never rise, and of two equal scores the
/// one that came first in the input comes first in the ranking.
pub proof fn lemma_rank_order_sorted_stable(scores: Seq<int>)
    ensures
        forall|p: int, q: int|
            0 <= p < q < scores.len() ==> {
                let a = #[trigger] rank_order(scores)[p];
                let b = #[trigger] rank_order(scores)[q];
                &&& scores[a] >= scores[b]
                &&& (scores[a] == scores[b] ==> a < b)
            },
    decreases scores.len(),
{
    if scores.len() > 0 {
        let n = scores.len() - 1;
        let shorter = scores.drop_last();
        let before = rank_order(shorter);
        let placed = before.map_values(|i: int| scores[i]);
        let x = scores.last();
        let at = insertion_point(placed, x);
        lemma_rank_order_sorted_stable(shorter);
        lemma_rank_order_is_permutation(shorter);
        lemma_rank_order_is_permutation(scores);
        lemma_insertion_point(placed, x);
        let order = before.insert(at, n);
        assert(order == rank_order(scores));
        assert forall|k: int| 0 <= k < before.len() implies shorter[#[trigger] before[k]]
            == scores[before[k]] && placed[k] == scores[before[k]] by {}
        assert forall|k: int| 0 <= k < at implies placed[k] >= x by {
            if k < at - 1 {
                assert(shorter[before[k]] >= shorter[before[at - 1]]);
            }
        }
        assert forall|p: int, q: int| 0 <= p < q < scores.len() implies {
            let a = #[trigger] order[p];
            let b = #[trigger] order[q];
            &&& scores[a] >= scores[b]
            &&& (scores[a] == scores[b] ==> a < b)
        } by {
            let bp = if p < at {
                p
            } else {
                p - 1
            };
            let bq = if q < at {
                q
            } else {
                q - 1
            };
            if p != at && q != at {
                assert(order[p] == before[bp]);
                assert(order[q] == before[bq]);
                assert(shorter[before[bp]] >= shorter[before[bq]]);
            } else if p == at {
                assert(order[q] == before[bq]);
                assert(placed[bq] < x);
            } else {
                assert(order[p] == before[bp]);
                assert(placed[bp] >= x);
            }
        }
    }
}

/// The sequence of positions as mathematical integers.
pub open spec fn positions(v: Seq<usize>) -> Seq<int> {
    v.map_values(|i: usize| i as int)
}

/// The scores of a list as mathematical integers.
pub open spec fn wide(values: Seq<i128>) -> Seq<int> {
    values.map_values(|v: i128| v as int)
}

/// The rank order of scores: the input positions, highest score first,
/// equal scores in the order given.
pub fn rank_indices(values: &Vec<i128>) -> (r: Vec<usize>)
    ensures
        positions(r@) == rank_order(wide(values@)),
        r.len() == values.len(),
        forall|k: int| 0 <= k < r.len() ==> (#[trigger] r[k]) < values.len(),
{
    let ghost scores = wide(values@);
    let mut order: Vec<usize> = Vec::new();
    let mut i: usize = 0;
    assert(positions(order@) =~= rank_order(scores.take(0)));
    while i < values.len()
        invariant
            i <= values.len(),
            scores == wide(values@),
            order.len() == i,
            positions(order@) == rank_order(scores.take(i as int)),
            forall|k: int| 0 <= k < order.len() ==> (#[trigger] order[k]) < i,
        decreases values.len() - i,
    {
        let x = values[i];
        let ghost upto = scores.take(i + 1);
        let ghost before = rank_order(scores.take(i as int));
        let ghost placed = before.map_values(|j: int| upto[j]);
        proof {
            assert(upto.drop_last() == scores.take(i as int));
            assert(upto.last() == x);
            lemma_rank_order_is_permutation(scores.take(i as int));
        }
        let mut at: usize = order.len();
        assert(placed.take(at as int) == placed);
        while at > 0 && values[order[at - 1]] < x
            invariant
                at <= order.len(),
                order.len() == i,
                i < values.len(),
                scores == wide(values@),
                upto == scores.take(i + 1),
                before == positions(order@),
                placed == before.map_values(|j: int| upto[j]),
                forall|k: int| 0 <= k < order.len() ==> (#[trigger] order[k]) < i,
                insertion_point(placed, x as int) == insertion_point(
                    placed.take(at as int),
                    x as int,
                ),
            decreases at,
        {
            assert(placed.take(at as int).drop_last() == placed.take(at - 1));
            assert(placed.take(at as int).last() == values[order[at - 1] as int]);
            at = at - 1;
        }
        proof {
            if at > 0 {
                assert(placed.take(at as int).last() == values[order[at - 1] as int]);
            }
            lemma_insertion_point(placed, x as int);
        }
        let ghost old_order = order@;
        order.insert(at, i);
        assert(positions(order@) =~= before.insert(at as int, i as int));
        assert forall|k: int| 0 <= k < order.len() implies (#[trigger] order[k]) < i + 1 by {
            if k < at {
                assert(order[k] == old_order[k]);
            } else if k > at {
                assert(order[k] == old_order[k - 1]);
            }
        }
        i = i + 1;
    }
    assert(scores.take(values.len() as int) == scores);
    order
}

/// The rank order of priorities: highest first, equal priorities in the
/// order given.
pub fn order_by_priority(values: &Vec<i32>) -> (r: Vec<usize>)
    ensures
        positions(r@) == rank_order(values@.map_values(|v: i32| v as int)),
        r.len() == values.len(),
        forall|k: int| 0 <= k < r.len() ==> (#[trigger] r[k]) < values.len(),
{
    let mut scores: Vec<i128> = Vec::new();
    let mut i: usize = 0;
    while i < values.len()
        invariant
            i <= values.len(),
            scores.len() == i,
            forall|j: int| 0 <= j < i ==> scores[j] == values[j],
        decreases values.len() - i,
    {
        scores.push(values[i] as i128);
        i = i + 1;
    }
    assert(wide(scores@) =~= values@.map_values(|v: i32| v as int));
    rank_indices(&scores)
}

} // verus!
