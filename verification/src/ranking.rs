//! The order in which the history view shows its entries.

use vstd::prelude::*;
use crate::history::{HistoryEntry, HistoryEntryView};
use crate::models::{display_name, display_name_of, HistorySortMode, Timestamp};
use crate::sorting::{
    is_permutation,
    is_stable_order,
    key_le,
    lemma_stable_order_unique,
    occurs,
    stable_order,
    SortKey,
    SortKeyView,
};
use crate::text::{lex_le, to_chars};

verus! {

/// No entry has more nanoseconds since the epoch than this, shifted so that
/// none is negative.
pub const LATEST: u128 = 18_446_744_073_709_551_616_000_000_000 + 4_294_967_296;

/// What is added to the nanoseconds since the epoch so that none is negative.
pub const EPOCH_SHIFT: u128 = 9_223_372_036_854_775_808_000_000_000;

/// No entry has a higher score than this.
pub const TOP_SCORE: u128 = 0xffff_ffff * 0xa_0000_0000;

/// Whether, under `mode`, an entry like `a` may stand before one like `b`:
/// by visits or by last visit or by score, the greater first; or by the final
/// component of the path, in the order of `str`.
pub open spec fn ranks_before(
    a: HistoryEntryView,
    b: HistoryEntryView,
    mode: HistorySortMode,
    now: Timestamp,
    decay_days: nat,
) -> bool {
    match mode {
        HistorySortMode::Frequency => a.frequency >= b.frequency,
        HistorySortMode::Recent => a.last_accessed.total_nanos() >= b.last_accessed.total_nanos(),
        HistorySortMode::FrequencyRecent => a.score_at(now, decay_days) >= b.score_at(
            now,
            decay_days,
        ),
        HistorySortMode::Alphabetical => lex_le(display_name_of(a.path), display_name_of(b.path)),
    }
}

/// `order` ranks `entries` under `mode`: it holds each index once, no entry
/// stands behind one that it outranks, and entries of equal rank keep the
/// order of the store.
pub open spec fn is_ranking(
    order: Seq<usize>,
    entries: Seq<HistoryEntryView>,
    mode: HistorySortMode,
    now: Timestamp,
    decay_days: nat,
) -> bool {
    &&& is_permutation(order, entries.len())
    &&& forall|a: int, b: int|
        0 <= a < b < order.len() ==> ranks_before(
            entries[(#[trigger] order[a]) as int],
            entries[(#[trigger] order[b]) as int],
            mode,
            now,
            decay_days,
        )
    &&& forall|a: int, b: int|
        0 <= a < b < order.len() && ranks_before(
            entries[(#[trigger] order[b]) as int],
            entries[(#[trigger] order[a]) as int],
            mode,
            now,
            decay_days,
        ) ==> order[a] < order[b]
}

/// The key by which `entry` is sorted under `mode`.
pub open spec fn ranking_key(
    entry: HistoryEntryView,
    mode: HistorySortMode,
    now: Timestamp,
    decay_days: nat,
) -> SortKeyView {
    match mode {
        HistorySortMode::Frequency => SortKeyView {
            rank: (u32::MAX - entry.frequency) as nat,
            name: Seq::empty(),
        },
        HistorySortMode::Recent => SortKeyView {
            rank: (LATEST - (entry.last_accessed.total_nanos() + EPOCH_SHIFT)) as nat,
            name: Seq::empty(),
        },
        HistorySortMode::FrequencyRecent => SortKeyView {
            rank: (TOP_SCORE - entry.score_at(now, decay_days)) as nat,
            name: Seq::empty(),
        },
        HistorySortMode::Alphabetical => SortKeyView { rank: 0, name: display_name_of(entry.path) },
    }
}

/// The keys by which `entries` are sorted under `mode`.
pub open spec fn ranking_keys(
    entries: Seq<HistoryEntryView>,
    mode: HistorySortMode,
    now: Timestamp,
    decay_days: nat,
) -> Seq<SortKeyView> {
    Seq::new(entries.len(), |i: int| ranking_key(entries[i], mode, now, decay_days))
}

/// The score of an entry is never above [`TOP_SCORE`].
pub proof fn lemma_score_bound(entry: HistoryEntryView, now: Timestamp, decay_days: nat)
    requires
        decay_days <= u32::MAX,
    ensures
        entry.score_at(now, decay_days) <= TOP_SCORE,
{
    let weight = crate::history::decay_weight(
        crate::history::elapsed_days(entry.last_accessed, now),
        decay_days,
    );
    assert(weight <= 0xa_0000_0000);
    assert((entry.frequency as nat) * weight <= 0xffff_ffff * 0xa_0000_0000) by (nonlinear_arith)
        requires
            entry.frequency <= 0xffff_ffff,
            weight <= 0xa_0000_0000,
    ;
}

/// The keys order the entries as [`ranks_before`] does.
pub proof fn lemma_key_order(
    a: HistoryEntryView,
    b: HistoryEntryView,
    mode: HistorySortMode,
    now: Timestamp,
    decay_days: nat,
)
    requires
        decay_days <= u32::MAX,
    ensures
        key_le(ranking_key(a, mode, now, decay_days), ranking_key(b, mode, now, decay_days))
            == ranks_before(a, b, mode, now, decay_days),
{
    lemma_score_bound(a, now, decay_days);
    lemma_score_bound(b, now, decay_days);
    let empty = Seq::<char>::empty();
    assert(lex_le(empty, empty));
}

/// A stable order of the keys is a ranking of the entries.
pub proof fn lemma_stable_order_ranks(
    order: Seq<usize>,
    entries: Seq<HistoryEntryView>,
    mode: HistorySortMode,
    now: Timestamp,
    decay_days: nat,
)
    requires
        decay_days <= u32::MAX,
        is_stable_order(order, ranking_keys(entries, mode, now, decay_days), entries.len()),
    ensures
        is_ranking(order, entries, mode, now, decay_days),
{
    let keys = ranking_keys(entries, mode, now, decay_days);
    assert forall|a: int, b: int| 0 <= a < b < order.len() implies ranks_before(
        entries[(#[trigger] order[a]) as int],
        entries[(#[trigger] order[b]) as int],
        mode,
        now,
        decay_days,
    ) by {
        lemma_key_order(entries[order[a] as int], entries[order[b] as int], mode, now, decay_days);
        assert(key_le(keys[order[a] as int], keys[order[b] as int]));
    }
    assert forall|a: int, b: int|
        0 <= a < b < order.len() && ranks_before(
            entries[(#[trigger] order[b]) as int],
            entries[(#[trigger] order[a]) as int],
            mode,
            now,
            decay_days,
        ) implies order[a] < order[b] by {
        lemma_key_order(entries[order[b] as int], entries[order[a] as int], mode, now, decay_days);
        assert(key_le(keys[order[b] as int], keys[order[a] as int]));
    }
}

/// Whether the flag of index `i` is there and set.
pub open spec fn is_flagged(flags: Seq<bool>, i: int) -> bool {
    0 <= i < flags.len() && flags[i]
}

/// The test that picks the indices whose flag is set.
pub open spec fn flagged(flags: Seq<bool>) -> spec_fn(usize) -> bool {
    |i: usize| is_flagged(flags, i as int)
}

/// The entries whose flag is set, read in `order`.
pub open spec fn ranked(entries: Seq<HistoryEntryView>, order: Seq<usize>, flags: Seq<bool>) -> Seq<
    HistoryEntryView,
> {
    let picked = order.filter(flagged(flags));
    Seq::new(picked.len(), |k: int| entries[picked[k] as int])
}

/// The key by which `entry` is sorted under `mode`.
pub fn ranking_key_of(entry: &HistoryEntry, mode: HistorySortMode, now: Timestamp, decay_days: u32) -> (key:
    SortKey)
    ensures
        key@ == ranking_key(entry@, mode, now, decay_days as nat),
{
    match mode {
        HistorySortMode::Frequency => SortKey {
            rank: (u32::MAX - entry.frequency) as u128,
            name: Vec::new(),
        },
        HistorySortMode::Recent => {
            let shifted: u128 = (entry.last_accessed.nanos_since_epoch()
                + 9_223_372_036_854_775_808_000_000_000) as u128;
            SortKey { rank: LATEST - shifted, name: Vec::new() }
        },
        HistorySortMode::FrequencyRecent => {
            proof {
                lemma_score_bound(entry@, now, decay_days as nat);
            }
            SortKey { rank: TOP_SCORE - entry.calculate_score(now, decay_days), name: Vec::new() }
        },
        HistorySortMode::Alphabetical => {
            let name = display_name(entry.path.as_str());
            SortKey { rank: 0, name: to_chars(name.as_str()) }
        },
    }
}

/// The order in which `entries` are ranked under `mode`.
pub fn ranking_order(
    entries: &Vec<HistoryEntry>,
    mode: HistorySortMode,
    now: Timestamp,
    decay_days: u32,
) -> (order: Vec<usize>)
    ensures
        is_ranking(order@, entries.deep_view(), mode, now, decay_days as nat),
{
    let mut keys: Vec<SortKey> = Vec::new();
    let mut i: usize = 0;
    while i < entries.len()
        invariant
            i <= entries.len(),
            keys.len() == i,
            forall|k: int|
                0 <= k < i ==> (#[trigger] keys@[k])@ == ranking_key(
                    entries.deep_view()[k],
                    mode,
                    now,
                    decay_days as nat,
                ),
        decreases entries.len() - i,
    {
        keys.push(ranking_key_of(&entries[i], mode, now, decay_days));
        i += 1;
    }
    assert(keys.deep_view() =~= ranking_keys(entries.deep_view(), mode, now, decay_days as nat));
    let order = stable_order(&keys);
    proof {
        lemma_stable_order_ranks(order@, entries.deep_view(), mode, now, decay_days as nat);
    }
    order
}

/// The entries of the store that still exist, ranked under `mode`. An entry
/// exists where its flag in `exists` is there and set.
pub fn rank_entries(
    entries: &Vec<HistoryEntry>,
    exists: &Vec<bool>,
    mode: HistorySortMode,
    now: Timestamp,
    decay_days: u32,
) -> (shown: Vec<HistoryEntry>)
    ensures
        exists|order: Seq<usize>|
            is_ranking(order, entries.deep_view(), mode, now, decay_days as nat)
                && shown.deep_view() == ranked(entries.deep_view(), order, exists@),
{
    let order = ranking_order(entries, mode, now, decay_days);
    let ghost keep = flagged(exists@);
    let ghost mut picked: Seq<usize> = Seq::empty();
    let mut shown: Vec<HistoryEntry> = Vec::new();
    let mut k: usize = 0;
    proof {
        assert(order@.take(0) =~= Seq::<usize>::empty());
        assert(order@.take(0).filter(keep) =~= Seq::<usize>::empty()) by {
            reveal(Seq::filter);
        }
    }
    while k < order.len()
        invariant
            k <= order.len(),
            keep == flagged(exists@),
            is_ranking(order@, entries.deep_view(), mode, now, decay_days as nat),
            picked == order@.take(k as int).filter(keep),
            shown.len() == picked.len(),
            forall|j: int| 0 <= j < picked.len() ==> (#[trigger] picked[j]) < entries.len(),
            forall|j: int|
                0 <= j < picked.len() ==> (#[trigger] shown@[j])@
                    == entries.deep_view()[picked[j] as int],
        decreases order.len() - k,
    {
        let index = order[k];
        assert(order@[k as int] < entries.len());
        proof {
            order@.take(k as int).lemma_filter_push(index, keep);
            assert(order@.take(k as int).push(index) =~= order@.take(k + 1));
        }
        if index < exists.len() && exists[index] {
            shown.push(entries[index].clone());
            proof {
                picked = picked.push(index);
            }
        }
        k += 1;
    }
    proof {
        assert(order@.take(order.len() as int) =~= order@);
        assert(shown.deep_view() =~= ranked(entries.deep_view(), order@, exists@));
    }
    shown
}

/// Whether `entry` is an entry of the store whose flag is set.
pub open spec fn is_existing_entry(
    entries: Seq<HistoryEntryView>,
    flags: Seq<bool>,
    entry: HistoryEntryView,
) -> bool {
    exists|i: int| 0 <= i < entries.len() && is_flagged(flags, i) && #[trigger] entries[i] == entry
}

/// Ranking neither loses nor invents an entry: whatever the mode, every entry
/// of the store that exists is shown, and whatever is shown is an entry of the
/// store that exists.
pub proof fn lemma_ranking_keeps_entries(
    entries: Seq<HistoryEntryView>,
    order: Seq<usize>,
    flags: Seq<bool>,
    mode: HistorySortMode,
    now: Timestamp,
    decay_days: nat,
)
    requires
        is_ranking(order, entries, mode, now, decay_days),
    ensures
        forall|i: int|
            0 <= i < entries.len() && is_flagged(flags, i) ==> ranked(
                entries,
                order,
                flags,
            ).contains(#[trigger] entries[i]),
        forall|k: int|
            0 <= k < ranked(entries, order, flags).len() ==> is_existing_entry(
                entries,
                flags,
                #[trigger] ranked(entries, order, flags)[k],
            ),
{
    let keep = flagged(flags);
    let picked = order.filter(keep);
    let shown = ranked(entries, order, flags);
    assert forall|i: int| 0 <= i < entries.len() && is_flagged(flags, i) implies shown.contains(
        #[trigger] entries[i],
    ) by {
        assert(occurs(order, i));
        let k = choose|k: int| 0 <= k < order.len() && #[trigger] order[k] == i;
        assert(keep(order[k]));
        order.lemma_filter_contains(keep, k);
        assert(picked.contains(order[k]));
        let p = choose|p: int| 0 <= p < picked.len() && picked[p] == order[k];
        assert(shown[p] == entries[i]);
    }
    assert forall|k: int| 0 <= k < shown.len() implies is_existing_entry(
        entries,
        flags,
        #[trigger] shown[k],
    ) by {
        order.lemma_filter_pred(keep, k);
        assert(keep(picked[k]));
        let i = picked[k] as int;
        assert(is_flagged(flags, i));
        assert(picked.contains(picked[k]));
        order.lemma_filter_contains_rev(keep, picked[k]);
        assert(order.contains(picked[k]));
        assert(0 <= i < entries.len());
        assert(entries[i] == shown[k]);
    }
}

/// Picking from a sequence that holds nothing twice gives a sequence that
/// holds nothing twice.
proof fn lemma_picked_once(order: Seq<usize>, keep: spec_fn(usize) -> bool)
    requires
        order.no_duplicates(),
    ensures
        order.filter(keep).no_duplicates(),
    decreases order.len(),
{
    reveal(Seq::filter);
    if order.len() > 0 {
        let rest = order.drop_last();
        let last = order.last();
        assert(rest.no_duplicates()) by {
            assert forall|i: int, j: int|
                0 <= i < rest.len() && 0 <= j < rest.len() && i != j implies rest[i] != rest[j] by {
                assert(rest[i] == order[i] && rest[j] == order[j]);
            }
        }
        lemma_picked_once(rest, keep);
        if keep(last) {
            let picked = rest.filter(keep);
            assert forall|i: int, j: int|
                0 <= i < picked.len() + 1 && 0 <= j < picked.len() + 1 && i != j implies picked.push(
                    last,
                )[i] != picked.push(last)[j] by {
                if i < picked.len() && j < picked.len() {
                } else {
                    let k = if i < picked.len() {
                        i
                    } else {
                        j
                    };
                    assert(picked.contains(picked[k]));
                    rest.lemma_filter_contains_rev(keep, picked[k]);
                    let at = choose|at: int| 0 <= at < rest.len() && rest[at] == picked[k];
                    assert(order[at] == picked[k]);
                    assert(order[order.len() - 1] == last);
                }
            }
        }
    }
}

/// Ranking shows no entry of the store twice: the entries shown stand at
/// different places of the store.
pub proof fn lemma_ranking_shows_each_once(
    entries: Seq<HistoryEntryView>,
    order: Seq<usize>,
    flags: Seq<bool>,
    mode: HistorySortMode,
    now: Timestamp,
    decay_days: nat,
)
    requires
        is_ranking(order, entries, mode, now, decay_days),
    ensures
        order.filter(flagged(flags)).no_duplicates(),
        ranked(entries, order, flags).len() == order.filter(flagged(flags)).len(),
        ranked(entries, order, flags).len() <= entries.len(),
{
    assert(order.no_duplicates()) by {
        assert forall|i: int, j: int|
            0 <= i < order.len() && 0 <= j < order.len() && i != j implies order[i] != order[j] by {
            if i < j {
                assert(order[i] != order[j]);
            } else {
                assert(order[j] != order[i]);
            }
        }
    }
    lemma_picked_once(order, flagged(flags));
    order.lemma_filter_len(flagged(flags));
}

/// A ranking of the entries is a stable order of their keys.
pub proof fn lemma_ranking_orders_keys(
    order: Seq<usize>,
    entries: Seq<HistoryEntryView>,
    mode: HistorySortMode,
    now: Timestamp,
    decay_days: nat,
)
    requires
        decay_days <= u32::MAX,
        is_ranking(order, entries, mode, now, decay_days),
    ensures
        is_stable_order(order, ranking_keys(entries, mode, now, decay_days), entries.len()),
{
    let keys = ranking_keys(entries, mode, now, decay_days);
    assert forall|a: int, b: int| 0 <= a < b < order.len() implies key_le(
        keys[(#[trigger] order[a]) as int],
        keys[(#[trigger] order[b]) as int],
    ) by {
        lemma_key_order(entries[order[a] as int], entries[order[b] as int], mode, now, decay_days);
    }
    assert forall|a: int, b: int|
        0 <= a < b < order.len() && key_le(
            keys[(#[trigger] order[b]) as int],
            keys[(#[trigger] order[a]) as int],
        ) implies order[a] < order[b] by {
        lemma_key_order(entries[order[b] as int], entries[order[a] as int], mode, now, decay_days);
    }
}

/// Under each mode the entries have one ranking and no other.
pub proof fn lemma_ranking_unique(
    a: Seq<usize>,
    b: Seq<usize>,
    entries: Seq<HistoryEntryView>,
    mode: HistorySortMode,
    now: Timestamp,
    decay_days: nat,
)
    requires
        decay_days <= u32::MAX,
        is_ranking(a, entries, mode, now, decay_days),
        is_ranking(b, entries, mode, now, decay_days),
    ensures
        a == b,
{
    lemma_ranking_orders_keys(a, entries, mode, now, decay_days);
    lemma_ranking_orders_keys(b, entries, mode, now, decay_days);
    lemma_stable_order_unique(
        a,
        b,
        ranking_keys(entries, mode, now, decay_days),
        entries.len(),
    );
}

} // verus!
