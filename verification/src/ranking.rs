//! Stable ranking of positions by a score, highest score first.

use vstd::prelude::*;

verus! {

/// Position `i` comes before position `j` in a ranking by descending score:
/// its score is higher, or the scores tie and it comes first.
pub open spec fn ranks_before(scores: Seq<u128>, i: int, j: int) -> bool {
    scores[i] > scores[j] || (scores[i] == scores[j] && i < j)
}

/// Position `j` occurs in `order`.
pub open spec fn occurs_in(order: Seq<usize>, j: int) -> bool {
    exists|a: int| 0 <= a < order.len() && order[a] == j
}

/// `order` lists every position of `scores` once, by descending score, ties
/// in their original order (what a stable sort by descending score gives).
pub open spec fn is_ranking(scores: Seq<u128>, order: Seq<usize>) -> bool {
    &&& order.len() == scores.len()
    &&& forall|a: int| 0 <= a < order.len() ==> order[a] < scores.len()
    &&& forall|a: int, b: int| 0 <= a < b < order.len() ==> ranks_before(scores, order[a] as int, order[b] as int)
    &&& forall|k: int| 0 <= k < scores.len() ==> #[trigger] occurs_in(order, k)
}

/// `top` holds the best-ranked positions with a positive score, at most
/// `max` of them, best first: every positive position left out ranks after
/// all of them, and is left out only when `max` positions were taken.
pub open spec fn is_top_positive(scores: Seq<u128>, top: Seq<usize>, max: nat) -> bool {
    &&& top.len() <= max
    &&& forall|a: int| 0 <= a < top.len() ==> top[a] < scores.len() && scores[top[a] as int] > 0
    &&& forall|a: int, b: int| 0 <= a < b < top.len() ==> ranks_before(scores, top[a] as int, top[b] as int)
    &&& forall|k: int|
        #![trigger scores[k]]
        0 <= k < scores.len() && scores[k] > 0 && !top.contains(k as usize) ==> {
            &&& top.len() == max
            &&& forall|a: int| 0 <= a < top.len() ==> ranks_before(scores, top[a] as int, k)
        }
}

/// `order` lists positions below `k`, each of them, by descending score.
pub open spec fn ranks_prefix(scores: Seq<u128>, order: Seq<usize>, k: int) -> bool {
    &&& order.len() == k
    &&& forall|a: int| 0 <= a < order.len() ==> order[a] < k
    &&& forall|a: int, b: int| 0 <= a < b < order.len() ==> ranks_before(scores, order[a] as int, order[b] as int)
    &&& forall|j: int| 0 <= j < k ==> #[trigger] occurs_in(order, j)
}

fn insertion_point(scores: &Vec<u128>, order: &Vec<usize>, sk: u128) -> (p: usize)
    requires
        forall|a: int| 0 <= a < order@.len() ==> order@[a] < scores@.len(),
    ensures
        p <= order@.len(),
        forall|a: int| 0 <= a < p ==> scores@[order@[a] as int] >= sk,
        p < order@.len() ==> scores@[order@[p as int] as int] < sk,
{
    let mut p: usize = 0;
    while p < order.len() && scores[order[p]] >= sk
        invariant
            p <= order@.len(),
            forall|a: int| 0 <= a < order@.len() ==> order@[a] < scores@.len(),
            forall|a: int| 0 <= a < p ==> scores@[order@[a] as int] >= sk,
        decreases order@.len() - p,
    {
        p = p + 1;
    }
    p
}

fn insert_ranked(scores: &Vec<u128>, order: &mut Vec<usize>, k: usize)
    requires
        k < scores@.len(),
        ranks_prefix(scores@, old(order)@, k as int),
    ensures
        ranks_prefix(scores@, final(order)@, k + 1),
{
    let sk = scores[k];
    let p = insertion_point(scores, order, sk);
    let ghost old_order = order@;
    order.insert(p, k);
    proof {
        old_order.insert_ensures(p as int, k);
        assert forall|a: int, b: int| 0 <= a < b < order@.len() implies ranks_before(scores@, order@[a] as int, order@[b] as int) by {
            if b < p {
                assert(order@[a] == old_order[a] && order@[b] == old_order[b]);
            } else if b == p {
                assert(order@[a] == old_order[a]);
            } else if a < p {
                assert(order@[a] == old_order[a] && order@[b] == old_order[b - 1]);
            } else if a == p {
                assert(order@[b] == old_order[b - 1]);
                if b - 1 > p {
                    assert(ranks_before(scores@, old_order[p as int] as int, old_order[b - 1] as int));
                }
            } else {
                assert(order@[a] == old_order[a - 1] && order@[b] == old_order[b - 1]);
            }
        }
        assert forall|j: int| 0 <= j < k + 1 implies #[trigger] occurs_in(order@, j) by {
            if j == k {
                assert(order@[p as int] == k);
            } else {
                assert(occurs_in(old_order, j));
                let a0 = choose|a: int| 0 <= a < old_order.len() && old_order[a] == j;
                assert(order@ == old_order.insert(p as int, k));
                assert(0 <= a0 < old_order.len());
                assert(old_order[a0] == j);
                if a0 < p {
                    assert(old_order.insert(p as int, k)[a0] == old_order[a0]) by {
                        old_order.insert_ensures(p as int, k);
                    }
                    assert(order@[a0] == j);
                } else {
                    assert(old_order.insert(p as int, k)[a0 + 1] == old_order[a0]);
                    assert(order@[a0 + 1] == j);
                }
            }
        }
        assert forall|a: int| 0 <= a < order@.len() implies order@[a] < k + 1 by {
            if a < p {
                assert(order@[a] == old_order[a]);
            } else if a > p {
                assert(order@[a] == old_order[a - 1]);
            }
        }
    }
}

/// Orders the positions of `scores` by descending score, keeping ties in
/// their original order.
pub fn rank_desc(scores: &Vec<u128>) -> (order: Vec<usize>)
    ensures
        is_ranking(scores@, order@),
{
    let mut order: Vec<usize> = Vec::new();
    let mut k: usize = 0;
    while k < scores.len()
        invariant
            k <= scores@.len(),
            ranks_prefix(scores@, order@, k as int),
        decreases scores@.len() - k,
    {
        insert_ranked(scores, &mut order, k);
        k = k + 1;
    }
    order
}

/// The best-ranked positions with a positive score, at most `max` of them,
/// best first.
pub fn top_positive(scores: &Vec<u128>, max: usize) -> (top: Vec<usize>)
    ensures
        is_top_positive(scores@, top@, max as nat),
{
    let order = rank_desc(scores);
    let mut top: Vec<usize> = Vec::new();
    let mut a: usize = 0;
    while a < order.len() && top.len() < max && scores[order[a]] > 0
        invariant
            is_ranking(scores@, order@),
            a <= order@.len(),
            top@ == order@.subrange(0, a as int),
            top@.len() <= max,
            forall|b: int| 0 <= b < a ==> scores@[order@[b] as int] > 0,
        decreases order@.len() - a,
    {
        top.push(order[a]);
        a = a + 1;
        assert(top@ =~= order@.subrange(0, a as int));
    }
    proof {
        assert forall|k: int|
            #![trigger scores@[k]]
            0 <= k < scores@.len() && scores@[k] > 0 && !top@.contains(k as usize) implies {
                &&& top@.len() == max
                &&& forall|b: int| 0 <= b < top@.len() ==> ranks_before(scores@, top@[b] as int, k)
            } by {
            assert(occurs_in(order@, k));
            let pos = choose|b: int| 0 <= b < order@.len() && order@[b] == k;
            if pos < a {
                assert(top@[pos] == k as usize);
            }
            assert(pos >= a);
            if a < order@.len() && top@.len() < max {
                assert(scores@[order@[a as int] as int] == 0);
                if pos > a {
                    assert(ranks_before(scores@, order@[a as int] as int, order@[pos] as int));
                }
            }
            assert forall|b: int| 0 <= b < top@.len() implies ranks_before(scores@, top@[b] as int, k) by {
                assert(top@[b] == order@[b]);
            }
        }
    }
    top
}

} // verus!
