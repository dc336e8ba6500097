//! The listing of a directory: directories before files, each kind by name,
//! behind the entries that stand for the directory itself and for its parent.

use vstd::prelude::*;
use crate::models::{FileItem, FileItemView};
use crate::paths::{parent_of, path_parent};
use crate::ranking::flagged;
use crate::sorting::{is_stable_order, lemma_stable_order_unique, stable_order, SortKey, SortKeyView};
use crate::text::{str_equals, to_chars};

verus! {

/// The keys by which a listing is sorted: directories before files, then the
/// names in the order of `str`, upper case before lower case.
pub open spec fn listing_keys(entries: Seq<FileItemView>) -> Seq<SortKeyView> {
    Seq::new(
        entries.len(),
        |i: int|
            SortKeyView {
                rank: if entries[i].is_dir {
                    0
                } else {
                    1
                },
                name: entries[i].name,
            },
    )
}

/// `order` reads `entries` directories first, each kind by name.
pub open spec fn is_listing_order(order: Seq<usize>, entries: Seq<FileItemView>) -> bool {
    is_stable_order(order, listing_keys(entries), entries.len())
}

/// The entries of a directory have one listing order and no other.
pub proof fn lemma_listing_order_unique(a: Seq<usize>, b: Seq<usize>, entries: Seq<FileItemView>)
    requires
        is_listing_order(a, entries),
        is_listing_order(b, entries),
    ensures
        a == b,
{
    lemma_stable_order_unique(a, b, listing_keys(entries), entries.len());
}

/// `entries` read in `order`.
pub open spec fn arranged(entries: Seq<FileItemView>, order: Seq<usize>) -> Seq<FileItemView> {
    Seq::new(order.len(), |k: int| entries[order[k] as int])
}

/// The order in which a listing shows `entries`.
pub fn listing_order(entries: &Vec<FileItem>) -> (order: Vec<usize>)
    ensures
        is_listing_order(order@, entries.deep_view()),
{
    let mut keys: Vec<SortKey> = Vec::new();
    let mut i: usize = 0;
    while i < entries.len()
        invariant
            i <= entries.len(),
            keys.len() == i,
            forall|k: int|
                0 <= k < i ==> (#[trigger] keys@[k])@ == listing_keys(entries.deep_view())[k],
        decreases entries.len() - i,
    {
        let rank: u128 = if entries[i].is_dir {
            0
        } else {
            1
        };
        keys.push(SortKey { rank, name: to_chars(entries[i].name.as_str()) });
        i += 1;
    }
    assert(keys.deep_view() =~= listing_keys(entries.deep_view()));
    stable_order(&keys)
}

/// `entries` sorted for a listing.
pub fn sort_listing(entries: &Vec<FileItem>) -> (sorted: Vec<FileItem>)
    ensures
        exists|order: Seq<usize>|
            is_listing_order(order, entries.deep_view()) && sorted.deep_view() == arranged(
                entries.deep_view(),
                order,
            ),
{
    let order = listing_order(entries);
    let mut sorted: Vec<FileItem> = Vec::new();
    let mut k: usize = 0;
    while k < order.len()
        invariant
            k <= order.len(),
            sorted.len() == k,
            is_listing_order(order@, entries.deep_view()),
            forall|j: int|
                0 <= j < k ==> (#[trigger] sorted@[j])@ == entries.deep_view()[order@[j] as int],
        decreases order.len() - k,
    {
        assert(order@[k as int] < entries.len());
        sorted.push(entries[order[k]].clone());
        k += 1;
    }
    assert(sorted.deep_view() =~= arranged(entries.deep_view(), order@));
    sorted
}

/// The entry that stands for the directory `dir` itself.
pub open spec fn current_entry(dir: Seq<char>) -> FileItemView {
    FileItemView { name: "."@, path: dir, is_dir: true }
}

/// The entry that leads to `parent`.
pub open spec fn parent_entry(parent: Seq<char>) -> FileItemView {
    FileItemView { name: ".."@, path: parent, is_dir: true }
}

/// The entries that a listing of `dir` starts with: the directory itself, and
/// its parent where it has one.
pub open spec fn leading_entries(dir: Seq<char>) -> Seq<FileItemView> {
    match parent_of(dir) {
        Some(parent) => seq![current_entry(dir), parent_entry(parent)],
        None => seq![current_entry(dir)],
    }
}

/// Whether `dir` is the pseudo-path under which a platform with drive letters
/// shows its drives.
pub open spec fn is_drives_path(dir: Seq<char>) -> bool {
    dir == "DRIVES:"@
}

/// The letters that name drives: `A` to `Z`.
pub const DRIVE_LETTERS: usize = 26;

/// The letter of the drive of number `index`, counted from zero: `A` for the
/// first, `Z` for the last.
pub open spec fn drive_letter(index: int) -> char {
    (65 + index) as char
}

/// The root of the drive of number `index`: its letter, a colon and a
/// backslash.
pub open spec fn drive_root(index: int) -> Seq<char> {
    seq![drive_letter(index), ':', '\\']
}

/// The roots of the drives that are there, in the order of the letters: a
/// drive is there where the flag of its number is there and set.
pub open spec fn existing_roots(present: Seq<bool>) -> Seq<Seq<char>> {
    let kept = Seq::new(DRIVE_LETTERS as nat, |i: int| i as usize).filter(flagged(present));
    Seq::new(kept.len(), |k: int| drive_root(kept[k] as int))
}

/// The roots of the drives that are there, in the order of the letters.
/// `present` says of each of the drives from `A` to `Z` whether it is
/// there; a drive whose flag is missing is not.
pub fn existing_drive_roots(present: &Vec<bool>) -> (roots: Vec<String>)
    ensures
        roots.deep_view() == existing_roots(present@),
{
    let ghost keep = flagged(present@);
    let ghost letters = Seq::new(DRIVE_LETTERS as nat, |i: int| i as usize);
    let ghost mut kept: Seq<usize> = Seq::empty();
    let mut roots: Vec<String> = Vec::new();
    let mut i: usize = 0;
    proof {
        assert(letters.take(0) =~= Seq::<usize>::empty());
        assert(letters.take(0).filter(keep) =~= Seq::<usize>::empty()) by {
            reveal(Seq::filter);
        }
    }
    while i < DRIVE_LETTERS
        invariant
            i <= DRIVE_LETTERS,
            keep == flagged(present@),
            letters == Seq::new(DRIVE_LETTERS as nat, |i: int| i as usize),
            kept == letters.take(i as int).filter(keep),
            roots.len() == kept.len(),
            forall|k: int| 0 <= k < kept.len() ==> (#[trigger] roots@[k])@ == drive_root(
                kept[k] as int,
            ),
        decreases DRIVE_LETTERS - i,
    {
        proof {
            letters.take(i as int).lemma_filter_push(i, keep);
            assert(letters.take(i as int).push(i) =~= letters.take(i + 1));
        }
        if i < present.len() && present[i] {
            let letter = (65u8 + (i as u8)) as char;
            let mut root = String::new();
            root.push(letter);
            root.push(':');
            root.push('\\');
            assert(root@ =~= drive_root(i as int));
            roots.push(root);
            proof {
                kept = kept.push(i);
            }
        }
        i += 1;
    }
    proof {
        assert(letters.take(DRIVE_LETTERS as int) =~= letters);
        assert(roots.deep_view() =~= existing_roots(present@));
    }
    roots
}

/// Builds listings from what the file system gave.
#[derive(Clone, Copy, Debug)]
pub struct FilesystemService;

impl FilesystemService {
    /// Whether a listing of `current_dir` shows the drives and not the entries
    /// of a directory: on a platform with drive letters, under the pseudo-path.
    pub fn should_show_drives(current_dir: &str, has_drive_letters: bool) -> (r: bool)
        ensures
            r == (has_drive_letters && is_drives_path(current_dir@)),
    {
        has_drive_letters && str_equals(current_dir, "DRIVES:")
    }

    /// The listing of `current_dir`, whose entries as read are `entries`: the
    /// leading entries, then the entries sorted.
    pub fn load_directory(current_dir: &str, entries: &Vec<FileItem>) -> (files: Vec<FileItem>)
        ensures
            exists|order: Seq<usize>|
                is_listing_order(order, entries.deep_view()) && files.deep_view()
                    == leading_entries(current_dir@) + arranged(entries.deep_view(), order),
    {
        let mut files: Vec<FileItem> = Vec::new();
        files.push(FileItem { name: ".".to_string(), path: current_dir.to_string(), is_dir: true });
        match path_parent(current_dir) {
            Some(parent) => {
                files.push(FileItem { name: "..".to_string(), path: parent, is_dir: true });
            },
            None => {},
        }
        assert(files.deep_view() =~= leading_entries(current_dir@));
        let order = listing_order(entries);
        let ghost lead = files.deep_view();
        let mut k: usize = 0;
        while k < order.len()
            invariant
                k <= order.len(),
                files.len() == lead.len() + k,
                is_listing_order(order@, entries.deep_view()),
                forall|j: int| 0 <= j < lead.len() ==> (#[trigger] files@[j])@ == lead[j],
                forall|j: int|
                    lead.len() <= j < lead.len() + k ==> (#[trigger] files@[j])@
                        == entries.deep_view()[order@[j - lead.len()] as int],
            decreases order.len() - k,
        {
            assert(order@[k as int] < entries.len());
            files.push(entries[order[k]].clone());
            k += 1;
        }
        assert(files.deep_view() =~= lead + arranged(entries.deep_view(), order@));
        files
    }

    /// The listing of the drives `letters`, which the caller found to exist:
    /// each a directory named by its root.
    pub fn load_drives(roots: &Vec<String>) -> (drives: Vec<FileItem>)
        ensures
            drives.len() == roots.len(),
            forall|i: int|
                0 <= i < roots.len() ==> (#[trigger] drives@[i])@ == (FileItemView {
                    name: roots@[i]@,
                    path: roots@[i]@,
                    is_dir: true,
                }),
    {
        let mut drives: Vec<FileItem> = Vec::new();
        let mut i: usize = 0;
        while i < roots.len()
            invariant
                i <= roots.len(),
                drives.len() == i,
                forall|k: int|
                    0 <= k < i ==> (#[trigger] drives@[k])@ == (FileItemView {
                        name: roots@[k]@,
                        path: roots@[k]@,
                        is_dir: true,
                    }),
            decreases roots.len() - i,
        {
            drives.push(FileItem { name: roots[i].clone(), path: roots[i].clone(), is_dir: true });
            i += 1;
        }
        drives
    }
}

} // verus!
