//! The history file: its bytes, and the steps by which a store is loaded
//! from it or, failing that, from the legacy list of paths.
//!
//! Nothing here touches a file. Each step takes what the caller read and says
//! what to do next.

use vstd::prelude::*;
use bincode::config::standard;
use bincode::serde::{decode_from_slice, encode_to_vec};
use chrono::{DateTime, Utc};
use crate::history::{fresh, HistoryEntry, HistoryEntryView};
use crate::models::Timestamp;
use crate::ranking::flagged;
use crate::text::{lines_of, split_lines, trim, trimmed_of};

verus! {

/// The bytes that `bincode` writes for `entries`, where it can encode them.
pub uninterp spec fn encoded_history(entries: Seq<HistoryEntryView>) -> Option<Seq<u8>>;

/// The entries that `bincode` reads from `bytes` under the byte limit, where
/// they decode.
pub uninterp spec fn decoded_history(bytes: Seq<u8>) -> Option<Seq<HistoryEntryView>>;

/// The most bytes that decoding a history file may claim. A length in the
/// file that asks for more is refused before anything is set aside for it.
pub const HISTORY_BYTE_LIMIT: usize = 16 * 1024 * 1024;

/// Calls `bincode::serde::encode_to_vec` with the standard configuration on
/// the entries, each as the tuple of its path, its count and its two moments
/// as `chrono` date-times: a length, then the fields of each entry in that
/// order. The result is [`encoded_history`] of the entries; there is none
/// where a moment is out of the range of `chrono` or `bincode` reports an
/// error.
#[verifier::external_body]
pub(crate) fn encode_entries(entries: &Vec<HistoryEntry>) -> (bytes: Option<Vec<u8>>)
    ensures
        bytes is Some == encoded_history(entries.deep_view()) is Some,
        bytes matches Some(b) ==> encoded_history(entries.deep_view()) == Some(b@),
{
    let mut rows = Vec::with_capacity(entries.len());
    for e in entries {
        let last = DateTime::from_timestamp(e.last_accessed.secs, e.last_accessed.nanos)?;
        let first = DateTime::from_timestamp(e.first_accessed.secs, e.first_accessed.nanos)?;
        rows.push((e.path.as_str(), e.frequency, last, first));
    }
    encode_to_vec(&rows, standard()).ok()
}

/// Calls `bincode::serde::decode_from_slice` on `bytes`, with the standard
/// configuration under the byte limit [`HISTORY_BYTE_LIMIT`], for a list of
/// tuples of a path, a count and two `chrono` date-times. The result is
/// [`decoded_history`] of the bytes; there is none where `bincode` reports an
/// error, as it does for a length beyond the limit.
#[verifier::external_body]
pub(crate) fn decode_entries(bytes: &Vec<u8>) -> (entries: Option<Vec<HistoryEntry>>)
    ensures
        entries is Some == decoded_history(bytes@) is Some,
        entries matches Some(e) ==> decoded_history(bytes@) == Some(e.deep_view()),
{
    let decoded: Result<(Vec<(String, u32, DateTime<Utc>, DateTime<Utc>)>, usize), _> =
        decode_from_slice(bytes, standard().with_limit::<HISTORY_BYTE_LIMIT>());
    let stamp = |t: DateTime<Utc>| Timestamp { secs: t.timestamp(), nanos: t.timestamp_subsec_nanos() };
    let rows = decoded.ok()?.0.into_iter();
    Some(rows.map(|(path, frequency, last, first)| HistoryEntry {
        path,
        frequency,
        last_accessed: stamp(last),
        first_accessed: stamp(first),
    }).collect())
}

/// The bytes of the history file for `entries`, where they can be encoded.
pub fn encode_history(entries: &Vec<HistoryEntry>) -> (bytes: Option<Vec<u8>>)
    ensures
        bytes is Some == encoded_history(entries.deep_view()) is Some,
        bytes matches Some(b) ==> encoded_history(entries.deep_view()) == Some(b@),
{
    encode_entries(entries)
}

/// The entries that the bytes of a history file hold, where they decode.
pub fn decode_history(bytes: &Vec<u8>) -> (entries: Option<Vec<HistoryEntry>>)
    ensures
        entries is Some == decoded_history(bytes@) is Some,
        entries matches Some(e) ==> decoded_history(bytes@) == Some(e.deep_view()),
{
    decode_entries(bytes)
}

/// What the caller has to do next to load the store.
#[derive(Debug)]
pub enum LoadStep {
    /// Read the legacy list of paths, and hand its text to
    /// [`HistoryLoader::after_legacy`].
    ReadLegacy,
    /// Find out which of `paths` exist, and hand the answers to
    /// [`HistoryLoader::after_existence`].
    CheckPaths { paths: Vec<String> },
    /// Write `bytes` to the history file; if that went well, rename the
    /// legacy list to its backup name. Hand `entries` and whether the
    /// write went well to [`HistoryLoader::after_save`].
    Save { bytes: Vec<u8>, entries: Vec<HistoryEntry> },
    /// The store is loaded: it holds `entries`.
    Finished { entries: Vec<HistoryEntry> },
}

/// The paths that the text of a legacy list names: its lines, each without
/// the white space around it.
pub open spec fn legacy_paths(text: Seq<char>) -> Seq<Seq<char>> {
    let lines = lines_of(text);
    Seq::new(lines.len(), |i: int| trimmed_of(lines[i]))
}

/// The entries that a migration makes of `paths`: one for each whose flag is
/// set, visited once, at `now`, in the order of the list.
pub open spec fn migrated(paths: Seq<Seq<char>>, flags: Seq<bool>, now: Timestamp) -> Seq<
    HistoryEntryView,
> {
    let kept = Seq::new(paths.len(), |i: int| i as usize).filter(flagged(flags));
    Seq::new(kept.len(), |k: int| fresh(paths[kept[k] as int], now))
}

/// Loads the store, step by step.
#[derive(Clone, Copy, Debug)]
pub struct HistoryLoader;

impl HistoryLoader {
    /// The step after the history file was read: `bytes` holds what it held,
    /// or nothing where it is absent or cannot be read. Bytes that decode are
    /// the store; else the legacy list is tried.
    pub fn after_binary(bytes: Option<Vec<u8>>) -> (step: LoadStep)
        ensures
            match step {
                LoadStep::Finished { entries } => bytes matches Some(b) && decoded_history(b@)
                    == Some(entries.deep_view()),
                LoadStep::ReadLegacy => bytes matches Some(b) ==> decoded_history(b@) is None,
                _ => false,
            },
    {
        match bytes {
            Some(b) => Self::after_decoding(decode_history(&b)),
            None => LoadStep::ReadLegacy,
        }
    }

    /// The step after the bytes of the history file were decoded: what came
    /// out is the store; where nothing did, the legacy list is tried.
    pub fn after_decoding(decoded: Option<Vec<HistoryEntry>>) -> (step: LoadStep)
        ensures
            match step {
                LoadStep::Finished { entries } => decoded == Some(entries),
                LoadStep::ReadLegacy => decoded is None,
                _ => false,
            },
    {
        match decoded {
            Some(entries) => LoadStep::Finished { entries },
            None => LoadStep::ReadLegacy,
        }
    }

    /// The step after the legacy list was read: `text` holds its text, or
    /// nothing where it is absent or cannot be read. Without a list the store
    /// is empty; with one, the paths it names are to be checked.
    pub fn after_legacy(text: Option<String>) -> (step: LoadStep)
        ensures
            match step {
                LoadStep::CheckPaths { paths } => text matches Some(t) && paths.deep_view()
                    == legacy_paths(t@),
                LoadStep::Finished { entries } => text is None && entries@.len() == 0,
                _ => false,
            },
    {
        match text {
            None => LoadStep::Finished { entries: Vec::new() },
            Some(t) => {
                let lines = split_lines(t.as_str());
                let mut paths: Vec<String> = Vec::new();
                let mut i: usize = 0;
                while i < lines.len()
                    invariant
                        i <= lines.len(),
                        paths.len() == i,
                        forall|k: int| 0 <= k < i ==> (#[trigger] paths@[k])@ == trimmed_of(lines@[k]@),
                    decreases lines.len() - i,
                {
                    paths.push(trim(lines[i].as_str()));
                    i += 1;
                }
                assert(paths.deep_view() =~= legacy_paths(t@));
                LoadStep::CheckPaths { paths }
            },
        }
    }

    /// The entries that a migration makes of `paths`, of which `exists` says
    /// which exist: a path exists where its flag is there and set.
    pub fn migrate_from_legacy(paths: &Vec<String>, exists: &Vec<bool>, now: Timestamp) -> (entries:
        Vec<HistoryEntry>)
        ensures
            entries.deep_view() == migrated(paths.deep_view(), exists@, now),
    {
        let ghost keep = flagged(exists@);
        let ghost indices = Seq::new(paths.len() as nat, |i: int| i as usize);
        let ghost mut kept: Seq<usize> = Seq::empty();
        let mut entries: Vec<HistoryEntry> = Vec::new();
        let mut i: usize = 0;
        proof {
            assert(indices.take(0) =~= Seq::<usize>::empty());
            assert(indices.take(0).filter(keep) =~= Seq::<usize>::empty()) by {
                reveal(Seq::filter);
            }
        }
        while i < paths.len()
            invariant
                i <= paths.len(),
                keep == flagged(exists@),
                indices == Seq::new(paths.len() as nat, |i: int| i as usize),
                kept == indices.take(i as int).filter(keep),
                entries.len() == kept.len(),
                forall|k: int| 0 <= k < kept.len() ==> (#[trigger] kept[k]) < paths.len(),
                forall|k: int|
                    0 <= k < kept.len() ==> (#[trigger] entries@[k])@ == fresh(
                        paths@[kept[k] as int]@,
                        now,
                    ),
            decreases paths.len() - i,
        {
            proof {
                indices.take(i as int).lemma_filter_push(i, keep);
                assert(indices.take(i as int).push(i) =~= indices.take(i + 1));
            }
            if i < exists.len() && exists[i] {
                entries.push(HistoryEntry::at(paths[i].clone(), now));
                proof {
                    kept = kept.push(i);
                }
            }
            i += 1;
        }
        proof {
            assert(indices.take(paths.len() as int) =~= indices);
            assert(entries.deep_view() =~= migrated(paths.deep_view(), exists@, now));
        }
        entries
    }

    /// The step after the paths of the legacy list were checked: the entries
    /// for those that exist are to be saved; where they cannot be encoded, the
    /// store is empty.
    pub fn after_existence(paths: &Vec<String>, exists: &Vec<bool>, now: Timestamp) -> (step:
        LoadStep)
        ensures
            match step {
                LoadStep::Save { bytes, entries } => entries.deep_view() == migrated(
                    paths.deep_view(),
                    exists@,
                    now,
                ) && encoded_history(entries.deep_view()) == Some(bytes@),
                LoadStep::Finished { entries } => entries@.len() == 0 && encoded_history(
                    migrated(paths.deep_view(), exists@, now),
                ) is None,
                _ => false,
            },
    {
        let entries = Self::migrate_from_legacy(paths, exists, now);
        let encoded = encode_history(&entries);
        Self::after_encoding(entries, encoded)
    }

    /// The step after the migrated entries were encoded: with bytes, they are
    /// to be saved; without, the store is empty.
    pub fn after_encoding(entries: Vec<HistoryEntry>, encoded: Option<Vec<u8>>) -> (step: LoadStep)
        ensures
            match step {
                LoadStep::Save { bytes, entries: kept } => encoded == Some(bytes) && kept
                    == entries,
                LoadStep::Finished { entries: none } => encoded is None && none@.len() == 0,
                _ => false,
            },
    {
        match encoded {
            Some(bytes) => LoadStep::Save { bytes, entries },
            None => LoadStep::Finished { entries: Vec::new() },
        }
    }

    /// The store after the migrated entries were written: the entries where
    /// the write went well, else none.
    pub fn after_save(entries: Vec<HistoryEntry>, saved: bool) -> (store: Vec<HistoryEntry>)
        ensures
            saved ==> store == entries,
            !saved ==> store@.len() == 0,
    {
        if saved {
            entries
        } else {
            Vec::new()
        }
    }
}

} // verus!
