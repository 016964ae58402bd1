//! The stable order of search hits: a sorted permutation of their arrival
//! indices, ties kept in arrival order.
use vstd::prelude::*;
use crate::sort::SortConfig;
use super::order::{hit_le, hit_less, hit_lt, key_views, lemma_hit_lt_le, HitKey, HitKeyView};

verus! {

/// Hit `i` is shown before hit `j`: it is strictly before it in the order, or
/// they tie and `i` arrived first.
pub open spec fn before(keys: Seq<HitKeyView>, config: SortConfig, i: usize, j: usize) -> bool {
    hit_lt(keys[i as int], keys[j as int], config)
        || (!hit_lt(keys[j as int], keys[i as int], config) && i < j)
}

/// `order` lists every index of `keys` once, each before the ones it precedes:
/// the result of a stable sort of the hits.
pub open spec fn is_sorted_order(keys: Seq<HitKeyView>, config: SortConfig, order: Seq<usize>) -> bool {
    &&& order.len() == keys.len()
    &&& forall|p: int| 0 <= p < order.len() ==> #[trigger] order[p] < keys.len()
    &&& forall|p: int, q: int|
        0 <= p < q < order.len() ==> before(keys, config, #[trigger] order[p], #[trigger] order[q])
}

/// The first `k` indices, sorted.
spec fn sorted_prefix(keys: Seq<HitKeyView>, config: SortConfig, order: Seq<usize>, k: usize) -> bool {
    &&& order.len() == k
    &&& forall|p: int| 0 <= p < order.len() ==> #[trigger] order[p] < k
    &&& forall|p: int, q: int|
        0 <= p < q < order.len() ==> before(keys, config, #[trigger] order[p], #[trigger] order[q])
}

/// Sorts the indices `0..keys.len()` stably by the order of their keys, by
/// binary insertion.
pub fn sorted_order(keys: &Vec<HitKey>, config: &SortConfig) -> (order: Vec<usize>)
    requires
        forall|i: int| 0 <= i < keys@.len() ==> (#[trigger] keys@[i]).wf(),
    ensures
        is_sorted_order(key_views(keys@), *config, order@),
{
    let ghost kv = key_views(keys@);
    let n = keys.len();
    let mut order: Vec<usize> = Vec::new();
    let mut k: usize = 0;
    while k < n
        invariant
            0 <= k <= n == keys@.len(),
            kv == key_views(keys@),
            kv.len() == n,
            forall|i: int| 0 <= i < keys@.len() ==> (#[trigger] keys@[i]).wf(),
            sorted_prefix(kv, *config, order@, k),
        decreases n - k,
    {
        let len = order.len();
        let mut lo: usize = 0;
        let mut hi: usize = len;
        while lo < hi
            invariant
                0 <= lo <= hi <= len == order@.len() == k,
                k < n == keys@.len(),
                kv == key_views(keys@),
                kv.len() == n,
                forall|i: int| 0 <= i < keys@.len() ==> (#[trigger] keys@[i]).wf(),
                sorted_prefix(kv, *config, order@, k),
                forall|p: int| 0 <= p < lo ==> !hit_lt(kv[k as int], #[trigger] kv[order@[p] as int], *config),
                forall|p: int| hi <= p < len ==> hit_lt(kv[k as int], #[trigger] kv[order@[p] as int], *config),
            decreases hi - lo,
        {
            let mid = lo + (hi - lo) / 2;
            let om = order[mid];
            assert(kv[om as int] == keys@[om as int]@);
            assert(kv[k as int] == keys@[k as int]@);
            if hit_less(&keys[k], &keys[om], config) {
                assert forall|p: int| mid <= p < len implies hit_lt(kv[k as int], #[trigger] kv[order@[p] as int], *config) by {
                    if p > mid {
                        assert(before(kv, *config, order@[mid as int], order@[p]));
                        lemma_hit_lt_le(kv[om as int], kv[order@[p] as int], kv[k as int], *config);
                        lemma_hit_lt_le(kv[order@[p] as int], kv[om as int], kv[k as int], *config);
                        lemma_hit_lt_le(kv[k as int], kv[om as int], kv[order@[p] as int], *config);
                    }
                }
                hi = mid;
            } else {
                assert forall|p: int| 0 <= p <= mid implies !hit_lt(kv[k as int], #[trigger] kv[order@[p] as int], *config) by {
                    if p < mid {
                        assert(before(kv, *config, order@[p], order@[mid as int]));
                        lemma_hit_lt_le(kv[order@[p] as int], kv[om as int], kv[k as int], *config);
                        lemma_hit_lt_le(kv[om as int], kv[order@[p] as int], kv[k as int], *config);
                        lemma_hit_lt_le(kv[k as int], kv[order@[p] as int], kv[om as int], *config);
                    }
                }
                lo = mid + 1;
            }
        }
        let ghost old_order = order@;
        order.insert(lo, k);
        proof {
            assert(order@ =~= old_order.subrange(0, lo as int).push(k) + old_order.subrange(lo as int, len as int));
            assert forall|p: int| 0 <= p < order@.len() implies #[trigger] order@[p] < k + 1 by {
                if p < lo {
                    assert(order@[p] == old_order[p]);
                } else if p > lo {
                    assert(order@[p] == old_order[p - 1]);
                }
            }
            assert forall|p: int, q: int| 0 <= p < q < order@.len() implies before(kv, *config, #[trigger] order@[p], #[trigger] order@[q]) by {
                if q < lo {
                    assert(order@[p] == old_order[p] && order@[q] == old_order[q]);
                } else if q == lo {
                    assert(order@[p] == old_order[p]);
                    lemma_hit_lt_le(kv[k as int], kv[old_order[p] as int], kv[k as int], *config);
                } else if p == lo {
                    assert(order@[q] == old_order[q - 1]);
                } else if p < lo {
                    assert(order@[p] == old_order[p] && order@[q] == old_order[q - 1]);
                } else {
                    assert(order@[p] == old_order[p - 1] && order@[q] == old_order[q - 1]);
                }
            }
        }
        k = k + 1;
    }
    order
}

/// The indices below `n`.
spec fn indices_below(n: nat) -> Set<usize> {
    Set::new(|i: usize| (i as int) < n)
}

proof fn lemma_indices_below(n: nat)
    requires
        n <= usize::MAX + 1,
    ensures
        indices_below(n).finite(),
        indices_below(n).len() == n,
    decreases n,
{
    if n == 0 {
        assert(indices_below(n) =~= Set::<usize>::empty());
    } else {
        lemma_indices_below((n - 1) as nat);
        let last = (n - 1) as usize;
        assert(indices_below(n) =~= indices_below((n - 1) as nat).insert(last));
        assert(!indices_below((n - 1) as nat).contains(last));
    }
}

/// The shown order lists every result exactly once: a sorted order is a
/// permutation of the arrival indices.
pub proof fn lemma_sorted_order_lists_each_once(keys: Seq<HitKeyView>, config: SortConfig, order: Seq<usize>)
    requires
        is_sorted_order(keys, config, order),
        keys.len() <= usize::MAX,
    ensures
        order.no_duplicates(),
        forall|i: usize| (i as int) < keys.len() ==> order.contains(i),
{
    assert forall|p: int, q: int| 0 <= p < order.len() && 0 <= q < order.len() && p != q implies order[p] != order[q] by {
        let (a, b) = if p < q { (p, q) } else { (q, p) };
        assert(before(keys, config, order[a], order[b]));
        if order[p] == order[q] {
            let k = keys[order[p] as int];
            lemma_hit_lt_le(k, k, k, config);
        }
    }
    let n = keys.len();
    lemma_indices_below(n);
    order.unique_seq_to_set();
    assert(order.to_set().subset_of(indices_below(n))) by {
        assert forall|x: usize| order.to_set().contains(x) implies indices_below(n).contains(x) by {
            let p = choose|p: int| 0 <= p < order.len() && order[p] == x;
            assert(order[p] < keys.len());
        }
    }
    vstd::set_lib::lemma_len_subset(order.to_set(), indices_below(n));
    vstd::set_lib::lemma_subset_equality(order.to_set(), indices_below(n));
    assert forall|i: usize| (i as int) < keys.len() implies order.contains(i) by {
        assert(indices_below(n).contains(i));
        assert(order.to_set().contains(i));
    }
}

proof fn lemma_before_asymmetric(keys: Seq<HitKeyView>, config: SortConfig, a: usize, b: usize)
    requires
        a < keys.len(),
        b < keys.len(),
        before(keys, config, a, b),
    ensures
        !before(keys, config, b, a),
{
    let ka = keys[a as int];
    let kb = keys[b as int];
    lemma_hit_lt_le(ka, kb, kb, config);
    lemma_hit_lt_le(kb, ka, ka, config);
}

proof fn lemma_orders_agree_upto(
    keys: Seq<HitKeyView>,
    config: SortConfig,
    o1: Seq<usize>,
    o2: Seq<usize>,
    p: nat,
)
    requires
        is_sorted_order(keys, config, o1),
        is_sorted_order(keys, config, o2),
        keys.len() <= usize::MAX,
        p <= o1.len(),
    ensures
        forall|k: int| 0 <= k < p ==> o1[k] == o2[k],
    decreases p,
{
    if p > 0 {
        let m = (p - 1) as int;
        lemma_orders_agree_upto(keys, config, o1, o2, (p - 1) as nat);
        lemma_sorted_order_lists_each_once(keys, config, o1);
        lemma_sorted_order_lists_each_once(keys, config, o2);
        let a = o1[m];
        let b = o2[m];
        if a != b {
            // `a` stands later in `o2`, and `b` later in `o1`
            assert(o2.contains(a));
            let q = choose|q: int| 0 <= q < o2.len() && o2[q] == a;
            assert(q > m) by {
                if q < m {
                    assert(o1[q] == o2[q]);
                    assert(o1[q] == o1[m]);
                }
            }
            assert(o1.contains(b));
            let r = choose|r: int| 0 <= r < o1.len() && o1[r] == b;
            assert(r > m) by {
                if r < m {
                    assert(o1[r] == o2[r]);
                    assert(o2[r] == o2[m]);
                }
            }
            assert(before(keys, config, o2[m], o2[q]));
            assert(before(keys, config, o1[m], o1[r]));
            lemma_before_asymmetric(keys, config, a, b);
        }
    }
}

/// The shown order depends on nothing but the results and the configuration:
/// any two orders that sort them stably are the same.
pub proof fn lemma_sorted_order_unique(keys: Seq<HitKeyView>, config: SortConfig, o1: Seq<usize>, o2: Seq<usize>)
    requires
        is_sorted_order(keys, config, o1),
        is_sorted_order(keys, config, o2),
        keys.len() <= usize::MAX,
    ensures
        o1 == o2,
{
    lemma_orders_agree_upto(keys, config, o1, o2, o1.len());
    assert(o1 =~= o2);
}

} // verus!
