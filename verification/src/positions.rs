//! The selection remembered for each visited directory.

use vstd::prelude::*;
use crate::text::str_equals;

verus! {

/// The row that was selected in the listing of `dir`.
#[derive(Debug)]
pub struct SavedPosition {
    pub dir: String,
    pub index: usize,
}

/// The table that `entries` stand for: the first entry for a directory counts.
pub open spec fn table_of(entries: Seq<SavedPosition>) -> Map<Seq<char>, usize>
    decreases entries.len(),
{
    if entries.len() == 0 {
        Map::empty()
    } else {
        table_of(entries.drop_first()).insert(entries[0].dir@, entries[0].index)
    }
}

/// An entry appended for a directory that has none adds it to the table.
proof fn lemma_table_push(entries: Seq<SavedPosition>, entry: SavedPosition)
    requires
        forall|j: int| 0 <= j < entries.len() ==> (#[trigger] entries[j]).dir@ != entry.dir@,
    ensures
        table_of(entries.push(entry)) == table_of(entries).insert(entry.dir@, entry.index),
    decreases entries.len(),
{
    if entries.len() == 0 {
        assert(entries.push(entry).drop_first() =~= entries);
    } else {
        let rest = entries.drop_first();
        assert forall|j: int| 0 <= j < rest.len() implies (#[trigger] rest[j]).dir@
            != entry.dir@ by {
            assert(rest[j] == entries[j + 1]);
        }
        lemma_table_push(rest, entry);
        assert(entries.push(entry).drop_first() =~= rest.push(entry));
        assert(entries[0].dir@ != entry.dir@);
        assert(table_of(entries.push(entry)) =~= table_of(entries).insert(
            entry.dir@,
            entry.index,
        ));
    }
}

/// A new row for the first entry of a directory replaces its row in the table.
proof fn lemma_table_update(entries: Seq<SavedPosition>, at: int, entry: SavedPosition)
    requires
        0 <= at < entries.len(),
        entries[at].dir@ == entry.dir@,
        forall|j: int| 0 <= j < at ==> (#[trigger] entries[j]).dir@ != entry.dir@,
    ensures
        table_of(entries.update(at, entry)) == table_of(entries).insert(entry.dir@, entry.index),
    decreases at,
{
    let changed = entries.update(at, entry);
    if at == 0 {
        assert(changed.drop_first() =~= entries.drop_first());
        assert(table_of(changed) =~= table_of(entries).insert(entry.dir@, entry.index));
    } else {
        let rest = entries.drop_first();
        assert forall|j: int| 0 <= j < at - 1 implies (#[trigger] rest[j]).dir@ != entry.dir@ by {
            assert(rest[j] == entries[j + 1]);
        }
        assert(rest[at - 1] == entries[at]);
        lemma_table_update(rest, at - 1, entry);
        assert(changed.drop_first() =~= rest.update(at - 1, entry));
        assert(entries[0].dir@ != entry.dir@);
        assert(table_of(changed) =~= table_of(entries).insert(entry.dir@, entry.index));
    }
}

/// A directory without an entry is not in the table.
proof fn lemma_table_misses(entries: Seq<SavedPosition>, dir: Seq<char>)
    requires
        forall|j: int| 0 <= j < entries.len() ==> (#[trigger] entries[j]).dir@ != dir,
    ensures
        !table_of(entries).contains_key(dir),
    decreases entries.len(),
{
    if entries.len() > 0 {
        let rest = entries.drop_first();
        assert forall|j: int| 0 <= j < rest.len() implies (#[trigger] rest[j]).dir@ != dir by {
            assert(rest[j] == entries[j + 1]);
        }
        lemma_table_misses(rest, dir);
        assert(entries[0].dir@ != dir);
    }
}

/// The first entry for a directory gives its row in the table.
proof fn lemma_table_finds(entries: Seq<SavedPosition>, at: int)
    requires
        0 <= at < entries.len(),
        forall|j: int| 0 <= j < at ==> (#[trigger] entries[j]).dir@ != entries[at].dir@,
    ensures
        table_of(entries).contains_key(entries[at].dir@),
        table_of(entries)[entries[at].dir@] == entries[at].index,
    decreases at,
{
    if at > 0 {
        let rest = entries.drop_first();
        assert forall|j: int| 0 <= j < at - 1 implies (#[trigger] rest[j]).dir@ != rest[at
            - 1].dir@ by {
            assert(rest[j] == entries[j + 1]);
        }
        assert(rest[at - 1] == entries[at]);
        lemma_table_finds(rest, at - 1);
        assert(entries[0].dir@ != entries[at].dir@);
    }
}

/// For each directory visited, the row that was selected when it was left.
/// No directory has two entries.
#[derive(Debug)]
pub struct DirPositions {
    entries: Vec<SavedPosition>,
}

/// No directory has two entries.
pub open spec fn distinct_dirs(entries: Seq<SavedPosition>) -> bool {
    forall|i: int, j: int|
        0 <= i < j < entries.len() ==> (#[trigger] entries[i]).dir@ != (#[trigger] entries[j]).dir@
}

impl View for DirPositions {
    type V = Map<Seq<char>, usize>;

    closed spec fn view(&self) -> Map<Seq<char>, usize> {
        table_of(self.entries@)
    }
}

impl DirPositions {
    #[verifier::type_invariant]
    spec fn no_directory_twice(&self) -> bool {
        distinct_dirs(self.entries@)
    }

    /// The table that remembers nothing.
    pub fn new() -> (positions: DirPositions)
        ensures
            positions@ == Map::<Seq<char>, usize>::empty(),
    {
        DirPositions { entries: Vec::new() }
    }

    /// Where the first entry for `dir` stands, or the number of entries.
    fn find(&self, dir: &str) -> (at: usize)
        ensures
            at <= self.entries.len(),
            forall|j: int| 0 <= j < at ==> (#[trigger] self.entries@[j]).dir@ != dir@,
            at < self.entries.len() ==> self.entries@[at as int].dir@ == dir@,
    {
        let mut i: usize = 0;
        while i < self.entries.len()
            invariant
                i <= self.entries.len(),
                forall|j: int| 0 <= j < i ==> (#[trigger] self.entries@[j]).dir@ != dir@,
            decreases self.entries.len() - i,
        {
            if str_equals(self.entries[i].dir.as_str(), dir) {
                return i;
            }
            i += 1;
        }
        i
    }

    /// The row remembered for `dir`, if one is.
    pub fn get(&self, dir: &str) -> (row: Option<usize>)
        ensures
            row == if self@.contains_key(dir@) {
                Some(self@[dir@])
            } else {
                None
            },
    {
        let at = self.find(dir);
        if at < self.entries.len() {
            proof {
                lemma_table_finds(self.entries@, at as int);
            }
            Some(self.entries[at].index)
        } else {
            proof {
                lemma_table_misses(self.entries@, dir@);
            }
            None
        }
    }

    /// Remembers `index` for `dir`, in place of what was remembered for it.
    pub fn insert(&mut self, dir: String, index: usize)
        ensures
            final(self)@ == old(self)@.insert(dir@, index),
    {
        proof {
            use_type_invariant(&*self);
        }
        let at = self.find(dir.as_str());
        let entry = SavedPosition { dir, index };
        let ghost before = self.entries@;
        let mut entries: Vec<SavedPosition> = Vec::new();
        core::mem::swap(&mut self.entries, &mut entries);
        if at < entries.len() {
            proof {
                lemma_table_update(before, at as int, entry);
            }
            entries.set(at, entry);
            assert(distinct_dirs(entries@)) by {
                assert forall|i: int, j: int| 0 <= i < j < entries@.len() implies (
                #[trigger] entries@[i]).dir@ != (#[trigger] entries@[j]).dir@ by {
                    assert(entries@[i].dir@ == before[i].dir@);
                    assert(entries@[j].dir@ == before[j].dir@);
                }
            }
        } else {
            proof {
                lemma_table_push(before, entry);
            }
            entries.push(entry);
            assert(distinct_dirs(entries@)) by {
                assert forall|i: int, j: int| 0 <= i < j < entries@.len() implies (
                #[trigger] entries@[i]).dir@ != (#[trigger] entries@[j]).dir@ by {
                    assert(entries@[i] == before[i]);
                    if j < before.len() {
                        assert(entries@[j] == before[j]);
                    }
                }
            }
        }
        let mut rest: Vec<SavedPosition> = entries;
        core::mem::swap(&mut self.entries, &mut rest);
    }
}

} // verus!
