//! A stable sort by keys, shared by the directory listing and the history
//! ranking.
//!
//! The sort does not move the items: it returns the order in which to read
//! them, a permutation of their indices. A stable order is unique, so the
//! contract of [`stable_order`] pins the result.

use vstd::prelude::*;
use crate::text::{chars_le, lemma_lex_le_total, lemma_lex_le_transitive, lex_le};

verus! {

/// What an item is ordered by: first by `rank`, the smaller first, then by
/// `name` in the order of `str`.
#[derive(Debug)]
pub struct SortKey {
    pub rank: u128,
    pub name: Vec<char>,
}

/// What a [`SortKey`] is to contracts.
pub struct SortKeyView {
    pub rank: nat,
    pub name: Seq<char>,
}

impl View for SortKey {
    type V = SortKeyView;

    open spec fn view(&self) -> SortKeyView {
        SortKeyView { rank: self.rank as nat, name: self.name@ }
    }
}

impl DeepView for SortKey {
    type V = SortKeyView;

    open spec fn deep_view(&self) -> SortKeyView {
        self@
    }
}

/// Whether an item with key `a` may stand before one with key `b`.
pub open spec fn key_le(a: SortKeyView, b: SortKeyView) -> bool {
    a.rank < b.rank || (a.rank == b.rank && lex_le(a.name, b.name))
}

/// Any two keys are ordered one way or the other.
pub proof fn lemma_key_le_total(a: SortKeyView, b: SortKeyView)
    ensures
        key_le(a, b) || key_le(b, a),
{
    lemma_lex_le_total(a.name, b.name);
}

/// The order of keys is transitive.
pub proof fn lemma_key_le_transitive(a: SortKeyView, b: SortKeyView, c: SortKeyView)
    requires
        key_le(a, b),
        key_le(b, c),
    ensures
        key_le(a, c),
{
    if a.rank == b.rank && b.rank == c.rank {
        lemma_lex_le_transitive(a.name, b.name, c.name);
    }
}

/// Executable form of [`key_le`].
pub fn key_le_exec(a: &SortKey, b: &SortKey) -> (r: bool)
    ensures
        r == key_le(a@, b@),
{
    if a.rank < b.rank {
        true
    } else if a.rank > b.rank {
        false
    } else {
        chars_le(&a.name, &b.name)
    }
}

/// Whether `order` holds the index `v`.
pub open spec fn occurs(order: Seq<usize>, v: int) -> bool {
    exists|k: int| 0 <= k < order.len() && #[trigger] order[k] == v
}

/// `order` holds each index below `n` exactly once.
pub open spec fn is_permutation(order: Seq<usize>, n: nat) -> bool {
    &&& order.len() == n
    &&& forall|k: int| 0 <= k < order.len() ==> (#[trigger] order[k]) < n
    &&& forall|a: int, b: int|
        0 <= a < b < order.len() ==> (#[trigger] order[a]) != (#[trigger] order[b])
    &&& forall|v: int| 0 <= v < n ==> #[trigger] occurs(order, v)
}

/// Read in `order`, the keys never go down.
pub open spec fn is_sorted(order: Seq<usize>, keys: Seq<SortKeyView>) -> bool {
    forall|a: int, b: int|
        0 <= a < b < order.len() ==> key_le(
            keys[(#[trigger] order[a]) as int],
            keys[(#[trigger] order[b]) as int],
        )
}

/// Items that the keys do not tell apart stay in the order they came in.
pub open spec fn is_stable(order: Seq<usize>, keys: Seq<SortKeyView>) -> bool {
    forall|a: int, b: int|
        0 <= a < b < order.len() && key_le(
            keys[(#[trigger] order[b]) as int],
            keys[(#[trigger] order[a]) as int],
        ) ==> order[a] < order[b]
}

/// `order` is the stable sort of the first `n` of `keys`.
pub open spec fn is_stable_order(order: Seq<usize>, keys: Seq<SortKeyView>, n: nat) -> bool {
    &&& n <= keys.len()
    &&& is_permutation(order, n)
    &&& is_sorted(order, keys)
    &&& is_stable(order, keys)
}

/// The order in which to read the items whose keys are `keys`: sorted by key,
/// ties in the order they came in.
pub fn stable_order(keys: &Vec<SortKey>) -> (order: Vec<usize>)
    ensures
        is_stable_order(order@, keys.deep_view(), keys.len() as nat),
{
    let ghost kv = keys.deep_view();
    let mut order: Vec<usize> = Vec::new();
    let mut i: usize = 0;
    while i < keys.len()
        invariant
            i <= keys.len(),
            kv == keys.deep_view(),
            is_stable_order(order@, kv, i as nat),
        decreases keys.len() - i,
    {
        let mut j: usize = order.len();
        while j > 0 && !key_le_exec(&keys[order[j - 1]], &keys[i])
            invariant
                j <= order.len(),
                i < keys.len(),
                kv == keys.deep_view(),
                is_permutation(order@, i as nat),
                forall|k: int|
                    j <= k < order.len() ==> !key_le(kv[(#[trigger] order@[k]) as int], kv[i as int]),
            decreases j,
        {
            j -= 1;
        }
        let ghost before = order@;
        order.insert(j, i);
        proof {
            let after = order@;
            assert(after == before.insert(j as int, i));
            assert forall|k: int| 0 <= k < after.len() implies (#[trigger] after[k]) < i + 1 by {
                if k < j {
                    assert(after[k] == before[k]);
                } else if k > j {
                    assert(after[k] == before[k - 1]);
                }
            }
            assert forall|a: int, b: int| 0 <= a < b < after.len() implies (#[trigger] after[a])
                != (#[trigger] after[b]) by {
                let x = if a < j { before[a] } else if a == j { i } else { before[a - 1] };
                let y = if b < j { before[b] } else if b == j { i } else { before[b - 1] };
                assert(after[a] == x && after[b] == y);
            }
            assert forall|v: int| 0 <= v < i + 1 implies #[trigger] occurs(after, v) by {
                if v == i {
                    assert(after[j as int] == v);
                } else {
                    assert(occurs(before, v));
                    let k0 = choose|k: int| 0 <= k < before.len() && #[trigger] before[k] == v;
                    if k0 < j {
                        assert(after[k0] == v);
                    } else {
                        assert(after[k0 + 1] == v);
                    }
                }
            }
            assert forall|a: int, b: int| 0 <= a < b < after.len() implies key_le(
                kv[(#[trigger] after[a]) as int],
                kv[(#[trigger] after[b]) as int],
            ) by {
                if b < j {
                    assert(after[a] == before[a] && after[b] == before[b]);
                } else if b == j {
                    assert(after[a] == before[a]);
                    assert(key_le(kv[before[j - 1] as int], kv[i as int]));
                    if a < j - 1 {
                        assert(key_le(kv[before[a] as int], kv[before[j - 1] as int]));
                        lemma_key_le_transitive(
                            kv[before[a] as int],
                            kv[before[j - 1] as int],
                            kv[i as int],
                        );
                    }
                } else if a == j {
                    assert(after[b] == before[b - 1]);
                    assert(!key_le(kv[before[b - 1] as int], kv[i as int]));
                    lemma_key_le_total(kv[before[b - 1] as int], kv[i as int]);
                } else if a < j {
                    assert(after[a] == before[a] && after[b] == before[b - 1]);
                } else {
                    assert(after[a] == before[a - 1] && after[b] == before[b - 1]);
                }
            }
            assert forall|a: int, b: int|
                0 <= a < b < after.len() && key_le(
                    kv[(#[trigger] after[b]) as int],
                    kv[(#[trigger] after[a]) as int],
                ) implies after[a] < after[b] by {
                if b < j {
                    assert(after[a] == before[a] && after[b] == before[b]);
                } else if b == j {
                    assert(after[a] == before[a]);
                } else if a == j {
                    assert(after[b] == before[b - 1]);
                    assert(!key_le(kv[before[b - 1] as int], kv[i as int]));
                } else if a < j {
                    assert(after[a] == before[a] && after[b] == before[b - 1]);
                } else {
                    assert(after[a] == before[a - 1] && after[b] == before[b - 1]);
                }
            }
        }
        i += 1;
    }
    order
}

/// Two stable orders of the same keys agree on their first `upto` places.
proof fn lemma_stable_orders_agree(
    a: Seq<usize>,
    b: Seq<usize>,
    keys: Seq<SortKeyView>,
    n: nat,
    upto: int,
)
    requires
        is_stable_order(a, keys, n),
        is_stable_order(b, keys, n),
        0 <= upto <= n,
    ensures
        forall|j: int| 0 <= j < upto ==> a[j] == b[j],
    decreases upto,
{
    if upto > 0 {
        lemma_stable_orders_agree(a, b, keys, n, upto - 1);
        let i = upto - 1;
        let x = a[i];
        let y = b[i];
        if x != y {
            assert(occurs(a, y as int));
            let p = choose|p: int| 0 <= p < a.len() && #[trigger] a[p] == y as int;
            assert(occurs(b, x as int));
            let q = choose|q: int| 0 <= q < b.len() && #[trigger] b[q] == x as int;
            if p < i {
                assert(a[p] == b[p]);
                assert(b[p] != b[i]);
            }
            if q < i {
                assert(a[q] == b[q]);
                assert(a[q] != a[i]);
            }
            assert(i < p && i < q);
            assert(key_le(keys[a[i] as int], keys[a[p] as int]));
            assert(key_le(keys[b[i] as int], keys[b[q] as int]));
            assert(a[i] < a[p]);
            assert(b[i] < b[q]);
        }
    }
}

/// There is one stable order of the keys and no other.
pub proof fn lemma_stable_order_unique(
    a: Seq<usize>,
    b: Seq<usize>,
    keys: Seq<SortKeyView>,
    n: nat,
)
    requires
        is_stable_order(a, keys, n),
        is_stable_order(b, keys, n),
    ensures
        a == b,
{
    lemma_stable_orders_agree(a, b, keys, n, n as int);
    assert(a =~= b);
}

} // verus!
