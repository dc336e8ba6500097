//! The history store: the list of visited directories, most recent visit
//! first, and what a visit and a cleanup make of it.

use vstd::prelude::*;
use crate::history::{fresh, touched, HistoryEntry, HistoryEntryView};
use crate::models::Timestamp;
use crate::text::str_equals;

verus! {

/// No two entries are for the same path.
pub open spec fn unique_paths(entries: Seq<HistoryEntryView>) -> bool {
    forall|i: int, j: int|
        0 <= i < j < entries.len() ==> (#[trigger] entries[i]).path != (#[trigger] entries[j]).path
}

/// Where the first entry for `path` stands, or the number of entries where
/// none is for it.
pub open spec fn first_index(entries: Seq<HistoryEntryView>, path: Seq<char>) -> int
    decreases entries.len(),
{
    if entries.len() == 0 || entries[0].path == path {
        0
    } else {
        1 + first_index(entries.drop_first(), path)
    }
}

/// Whether an entry is for `path`.
pub open spec fn has_path(entries: Seq<HistoryEntryView>, path: Seq<char>) -> bool {
    exists|i: int| 0 <= i < entries.len() && (#[trigger] entries[i]).path == path
}

/// Where the first entry for `path` stands, given that none stands before `k`.
pub proof fn lemma_first_index(entries: Seq<HistoryEntryView>, path: Seq<char>, k: int)
    requires
        0 <= k <= entries.len(),
        forall|j: int| 0 <= j < k ==> (#[trigger] entries[j]).path != path,
        k == entries.len() || entries[k].path == path,
    ensures
        first_index(entries, path) == k,
    decreases k,
{
    if k > 0 {
        let rest = entries.drop_first();
        assert forall|j: int| 0 <= j < k - 1 implies (#[trigger] rest[j]).path != path by {
            assert(rest[j] == entries[j + 1]);
        }
        if k < entries.len() {
            assert(rest[k - 1] == entries[k]);
        }
        assert(entries[0].path != path);
        lemma_first_index(rest, path, k - 1);
    }
}

/// What [`first_index`] finds: an entry for `path` with none before it, or
/// the end of a list that holds none.
pub proof fn lemma_first_index_finds(entries: Seq<HistoryEntryView>, path: Seq<char>)
    ensures
        0 <= first_index(entries, path) <= entries.len(),
        forall|j: int|
            0 <= j < first_index(entries, path) ==> (#[trigger] entries[j]).path != path,
        first_index(entries, path) < entries.len() ==> entries[first_index(entries, path)].path
            == path,
        first_index(entries, path) < entries.len() <==> has_path(entries, path),
    decreases entries.len(),
{
    if entries.len() == 0 {
    } else if entries[0].path == path {
    } else {
        let rest = entries.drop_first();
        lemma_first_index_finds(rest, path);
        let k = first_index(rest, path);
        assert forall|j: int| 0 <= j < k + 1 implies (#[trigger] entries[j]).path != path by {
            if j > 0 {
                assert(rest[j - 1] == entries[j]);
            }
        }
        if k < rest.len() {
            assert(rest[k] == entries[k + 1]);
        } else {
            assert forall|i: int| 0 <= i < entries.len() implies (#[trigger] entries[i]).path
                != path by {}
        }
    }
}

/// `entries` cut to `max_entries`, the tail dropped.
pub open spec fn capped(entries: Seq<HistoryEntryView>, max_entries: nat) -> Seq<
    HistoryEntryView,
> {
    if entries.len() > max_entries {
        entries.take(max_entries as int)
    } else {
        entries
    }
}

/// The store after a visit to `path` at `now`: the entry for `path` counts one
/// more visit and moves to the front, or a new entry enters at the front; then
/// the list is cut to `max_entries`.
pub open spec fn added(
    entries: Seq<HistoryEntryView>,
    path: Seq<char>,
    now: Timestamp,
    max_entries: nat,
) -> Seq<HistoryEntryView> {
    let at = first_index(entries, path);
    if 0 <= at < entries.len() {
        capped(seq![touched(entries[at], now)] + entries.remove(at), max_entries)
    } else {
        capped(seq![fresh(path, now)] + entries, max_entries)
    }
}

/// The store after a cleanup: the entries visited `min_frequency` times or
/// more, in their order.
pub open spec fn cleaned(entries: Seq<HistoryEntryView>, min_frequency: u32) -> Seq<
    HistoryEntryView,
> {
    entries.filter(frequent(min_frequency))
}

/// The test of a cleanup: visited `min_frequency` times or more.
pub open spec fn frequent(min_frequency: u32) -> spec_fn(HistoryEntryView) -> bool {
    |e: HistoryEntryView| e.frequency >= min_frequency
}

/// Where the first entry for `path` stands, or the number of entries where
/// none is for it.
pub fn find_entry(entries: &Vec<HistoryEntry>, path: &str) -> (at: usize)
    ensures
        at == first_index(entries.deep_view(), path@),
        at <= entries.len(),
{
    let mut i: usize = 0;
    while i < entries.len()
        invariant
            i <= entries.len(),
            forall|j: int| 0 <= j < i ==> (#[trigger] entries.deep_view()[j]).path != path@,
        decreases entries.len() - i,
    {
        if str_equals(entries[i].path.as_str(), path) {
            proof {
                lemma_first_index(entries.deep_view(), path@, i as int);
            }
            return i;
        }
        i += 1;
    }
    proof {
        lemma_first_index(entries.deep_view(), path@, i as int);
    }
    i
}

/// Records a visit to `path` at `now` in a store that keeps `max_entries`.
pub fn add_entry(entries: &mut Vec<HistoryEntry>, path: String, now: Timestamp, max_entries: usize)
    ensures
        final(entries).deep_view() == added(
            old(entries).deep_view(),
            path@,
            now,
            max_entries as nat,
        ),
{
    let ghost before = entries.deep_view();
    let at = find_entry(entries, path.as_str());
    if at < entries.len() {
        let mut entry = entries.remove(at);
        entry.increment_frequency_at(now);
        assert(entries.deep_view() =~= before.remove(at as int));
        entries.insert(0, entry);
        assert(entries.deep_view() =~= seq![touched(before[at as int], now)] + before.remove(
            at as int,
        ));
    } else {
        entries.insert(0, HistoryEntry::at(path, now));
        assert(entries.deep_view() =~= seq![fresh(path@, now)] + before);
    }
    let ghost moved = entries.deep_view();
    if entries.len() > max_entries {
        entries.truncate(max_entries);
        assert(entries.deep_view() =~= moved.take(max_entries as int));
    }
}

/// Drops the entries visited less than `min_frequency` times.
pub fn cleanup_entries(entries: &mut Vec<HistoryEntry>, min_frequency: u32)
    ensures
        final(entries).deep_view() == cleaned(old(entries).deep_view(), min_frequency),
{
    let ghost before = entries.deep_view();
    let ghost keep = frequent(min_frequency);
    let mut kept: Vec<HistoryEntry> = Vec::new();
    let mut i: usize = 0;
    assert(before.take(0) =~= Seq::<HistoryEntryView>::empty());
    assert(before.take(0).filter(keep) =~= Seq::<HistoryEntryView>::empty()) by {
        reveal(Seq::filter);
    }
    assert(kept.deep_view() =~= Seq::<HistoryEntryView>::empty());
    while i < entries.len()
        invariant
            i <= entries.len(),
            before == entries.deep_view(),
            keep == frequent(min_frequency),
            kept.deep_view() == before.take(i as int).filter(keep),
        decreases entries.len() - i,
    {
        let ghost so_far = kept.deep_view();
        proof {
            before.take(i as int).lemma_filter_push(before[i as int], keep);
            assert(before.take(i as int).push(before[i as int]) =~= before.take(i + 1));
        }
        if entries[i].frequency >= min_frequency {
            kept.push(entries[i].clone());
            assert(kept.deep_view() =~= so_far.push(before[i as int]));
        }
        i += 1;
    }
    assert(before.take(entries.len() as int) =~= before);
    *entries = kept;
}

/// A visit keeps the paths of the store distinct.
pub proof fn lemma_added_keeps_unique(
    entries: Seq<HistoryEntryView>,
    path: Seq<char>,
    now: Timestamp,
    max_entries: nat,
)
    requires
        unique_paths(entries),
    ensures
        unique_paths(added(entries, path, now, max_entries)),
{
    lemma_first_index_finds(entries, path);
    let at = first_index(entries, path);
    let moved = if at < entries.len() {
        seq![touched(entries[at], now)] + entries.remove(at)
    } else {
        seq![fresh(path, now)] + entries
    };
    assert forall|i: int, j: int| 0 <= i < j < moved.len() implies (#[trigger] moved[i]).path != (
    #[trigger] moved[j]).path by {
        if at < entries.len() {
            let source = |k: int|
                if k == 0 {
                    at
                } else if k - 1 < at {
                    k - 1
                } else {
                    k
                };
            assert(moved[i].path == entries[source(i)].path);
            assert(moved[j].path == entries[source(j)].path);
            assert(source(i) != source(j));
        } else {
            if i == 0 {
                assert(moved[j] == entries[j - 1]);
            } else {
                assert(moved[i] == entries[i - 1]);
                assert(moved[j] == entries[j - 1]);
            }
        }
    }
    let result = added(entries, path, now, max_entries);
    assert(result == capped(moved, max_entries));
    assert forall|i: int, j: int| 0 <= i < j < result.len() implies (#[trigger] result[i]).path
        != (#[trigger] result[j]).path by {
        assert(result[i] == moved[i]);
        assert(result[j] == moved[j]);
    }
}

/// Two visits in a row to a path that the store did not hold leave one entry
/// for it, at the front, with two visits counted.
pub proof fn lemma_added_twice(
    entries: Seq<HistoryEntryView>,
    path: Seq<char>,
    first: Timestamp,
    second: Timestamp,
    max_entries: nat,
)
    requires
        !has_path(entries, path),
        max_entries >= 1,
    ensures
        ({
            let store = added(added(entries, path, first, max_entries), path, second, max_entries);
            &&& store.len() >= 1
            &&& store[0].path == path
            &&& store[0].frequency == 2
            &&& store[0].first_accessed == first
            &&& store[0].last_accessed == second
            &&& forall|i: int| 1 <= i < store.len() ==> (#[trigger] store[i]).path != path
        }),
{
    lemma_first_index_finds(entries, path);
    let once = added(entries, path, first, max_entries);
    assert(once == capped(seq![fresh(path, first)] + entries, max_entries));
    assert(once.len() >= 1);
    assert(once[0] == fresh(path, first));
    lemma_first_index(once, path, 0);
    let store = added(once, path, second, max_entries);
    assert(store == capped(seq![touched(once[0], second)] + once.remove(0), max_entries));
    assert(store[0] == touched(once[0], second));
    assert forall|i: int| 1 <= i < store.len() implies (#[trigger] store[i]).path != path by {
        assert(store[i] == once[i]);
        assert(once[i] == entries[i - 1]);
    }
}

/// A visit to a new path in a store that is full drops the entry at the tail
/// and no other: the store keeps its size, the new entry stands at the front
/// and the others follow in their order.
pub proof fn lemma_added_drops_oldest(
    entries: Seq<HistoryEntryView>,
    path: Seq<char>,
    now: Timestamp,
    max_entries: nat,
)
    requires
        !has_path(entries, path),
        entries.len() == max_entries,
        max_entries >= 1,
    ensures
        added(entries, path, now, max_entries) == seq![fresh(path, now)] + entries.drop_last(),
        added(entries, path, now, max_entries).len() == max_entries,
{
    lemma_first_index_finds(entries, path);
    assert(added(entries, path, now, max_entries) =~= seq![fresh(path, now)]
        + entries.drop_last());
}

} // verus!
