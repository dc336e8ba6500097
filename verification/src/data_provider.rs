//! What both list modes can do with the list: move the selection, enter a
//! directory, leave it, load the items.
//!
//! Nothing here reads a directory or the history file. An operation that
//! needs one of them changes the state as far as it can and says in its
//! result what the caller has to fetch; the caller hands that to
//! `load_data` or `on_directory_changed`.

use vstd::prelude::*;
use crate::app_state::{half_page_step, AppState, ListState};
use crate::config::get_history_config;
use crate::history::{HistoryEntry, HistoryEntryView};
use crate::layout::content_height;
use crate::listing::{arranged, is_drives_path, is_listing_order, leading_entries, FilesystemService};
use crate::models::{AppMode, DisplayItem, DisplayItemView, FileItem, FileItemView, HistorySortMode, Timestamp};
use crate::modes::{stay, ModeAction, ModeActionView, Outcome, ReactionView, Request, RequestView};
use crate::paths::{parent_of, path_parent};
use crate::persistence::{encode_history, encoded_history};
use crate::preview_state::{GlobalPreviewState, PreviewStateView};
use crate::ranking::{is_ranking, rank_entries, ranked};
use crate::store::{add_entry, added, cleaned, cleanup_entries};
use crate::text::{str_equals, to_chars};

verus! {

/// What was fetched for the list of a mode.
#[derive(Debug)]
pub enum Loaded {
    /// The entries of the current directory, in the order the file system
    /// gave them.
    Directory { entries: Vec<FileItem> },
    /// The drives of the machine, for the drive list.
    Drives { drives: Vec<FileItem> },
    /// The entries of the history, which of them exist, and the time.
    History { history: Vec<HistoryEntry>, exists: Vec<bool>, now: Timestamp },
}

/// The preview after an operation that moved the selection or did not: the
/// placeholder for the item now selected where it moved, else the same.
pub open spec fn previewed(preview: PreviewStateView, state: AppState, moved: bool)
    -> PreviewStateView {
    match state.selected_item() {
        Some(item) if moved => preview.began(item.display_name(), item.path()),
        _ => preview,
    }
}

/// `files` are the items of the listing `listing`.
pub open spec fn shows_files(files: Seq<DisplayItemView>, listing: Seq<FileItemView>) -> bool {
    files == Seq::new(listing.len(), |i: int| DisplayItemView::File(listing[i]))
}

/// `files` are the items of the history entries `entries`.
pub open spec fn shows_history(files: Seq<DisplayItemView>, entries: Seq<HistoryEntryView>)
    -> bool {
    files == Seq::new(entries.len(), |i: int| DisplayItemView::History(entries[i]))
}

/// Whether what was fetched is for the list of `mode`: a directory or the
/// drives for the listing, the history for the history.
pub open spec fn is_for(mode: AppMode, loaded: Loaded) -> bool {
    match (mode, loaded) {
        (AppMode::Normal, Loaded::Directory { .. }) => true,
        (AppMode::Normal, Loaded::Drives { .. }) => true,
        (AppMode::History, Loaded::History { .. }) => true,
        _ => false,
    }
}

/// `files` are the items that `loaded` gives for a list in the directory
/// `dir`: the listing of a directory, the drives as they are, or the entries
/// of the history that exist, ranked as the settings say.
pub open spec fn shows_loaded(files: Seq<DisplayItemView>, loaded: Loaded, dir: Seq<char>) -> bool {
    match loaded {
        Loaded::Directory { entries } => exists|order: Seq<usize>|
            is_listing_order(order, entries.deep_view()) && shows_files(
                files,
                leading_entries(dir) + arranged(entries.deep_view(), order),
            ),
        Loaded::Drives { drives } => shows_files(files, drives.deep_view()),
        Loaded::History { history, exists, now } => exists|order: Seq<usize>|
            is_ranking(order, history.deep_view(), HistorySortMode::FrequencyRecent, now, 30)
                && shows_history(files, ranked(history.deep_view(), order, exists@)),
    }
}

/// The state after `loaded` became the items of the list: the filter follows
/// the search text, which is emptied and no longer typed where
/// `search_cleared`, else stays; the selection is `selection`; all else stays.
pub open spec fn settled(
    before: AppState,
    after: AppState,
    loaded: Loaded,
    search_cleared: bool,
    selection: Option<usize>,
) -> bool {
    &&& shows_loaded(after.files.deep_view(), loaded, before.current_dir@)
    &&& after.filter_is_current()
    &&& after.wf()
    &&& after.file_list_state == (ListState {
        selected: selection,
        offset: before.file_list_state.offset,
    })
    &&& after.search_input@ == if search_cleared {
        Seq::<char>::empty()
    } else {
        before.search_input@
    }
    &&& after.is_searching == (!search_cleared && before.is_searching)
    &&& after.show_hidden_files == before.show_hidden_files
    &&& after.current_dir == before.current_dir
    &&& after.dir_positions == before.dir_positions
    &&& after.double_click_state == before.double_click_state
    &&& after.layout == before.layout
}

/// Whether `path` is the root of a drive, such as `C:\`.
pub open spec fn is_drive_root(path: Seq<char>) -> bool {
    &&& path.len() == 3
    &&& path[1] == ':'
    &&& path[2] == '\\'
    &&& (('a' <= path[0] && path[0] <= 'z') || ('A' <= path[0] && path[0] <= 'Z'))
}

impl AppState {
    /// The rows of the filtered list.
    pub open spec fn total(&self) -> nat {
        self.filtered_files@.len()
    }

    /// The rows of the list panel that hold items.
    pub open spec fn list_height(&self) -> nat {
        content_height(self.layout.left_area)
    }

    /// All but the selection and the first row shown is as in `other`.
    pub open spec fn same_but_list_state(&self, other: &AppState) -> bool {
        &&& self.search_input == other.search_input
        &&& self.is_searching == other.is_searching
        &&& self.show_hidden_files == other.show_hidden_files
        &&& self.current_dir == other.current_dir
        &&& self.files == other.files
        &&& self.filtered_files == other.filtered_files
        &&& self.dir_positions == other.dir_positions
        &&& self.double_click_state == other.double_click_state
        &&& self.layout == other.layout
    }

    /// What the list shows is as in `other`: the items, the filter, the
    /// search, the selection.
    pub open spec fn same_list(&self, other: &AppState) -> bool {
        &&& self.search_input == other.search_input
        &&& self.is_searching == other.is_searching
        &&& self.show_hidden_files == other.show_hidden_files
        &&& self.files == other.files
        &&& self.filtered_files == other.filtered_files
        &&& self.file_list_state == other.file_list_state
        &&& self.double_click_state == other.double_click_state
        &&& self.layout == other.layout
    }

    /// The selection that is restored on entering the current directory: the
    /// row remembered for it, or the last row where the list has become
    /// shorter, or none where nothing is remembered or the list is empty.
    pub open spec fn restored_selection(&self) -> Option<usize> {
        if self.dir_positions@.contains_key(self.current_dir@) {
            let row = self.dir_positions@[self.current_dir@];
            if row < self.total() {
                Some(row)
            } else if self.total() > 0 {
                Some((self.total() - 1) as usize)
            } else {
                None
            }
        } else {
            None
        }
    }
}

/// What entering the selected directory comes to. In the listing, a selected
/// directory becomes the current one, the row selected in the directory that
/// is left is remembered, and its listing is asked for. In the history, a
/// selected entry whose path is a directory becomes the current directory,
/// the listing mode is asked for and the visit is to be recorded. Else
/// nothing happens.
pub open spec fn entered(
    before: AppState,
    after: AppState,
    mode: AppMode,
    on_disk: bool,
    reaction: ReactionView,
) -> bool {
    &&& after.same_list(&before)
    &&& match mode {
        AppMode::Normal => match before.selected_item() {
            Some(DisplayItemView::File(file)) if file.is_dir => {
                &&& after.current_dir@ == file.path
                &&& after.dir_positions@ == before.dir_positions@.insert(
                    before.current_dir@,
                    before.file_list_state.selected->0,
                )
                &&& reaction == (ReactionView {
                    action: ModeActionView::Stay,
                    request: RequestView::LoadDirectory { path: file.path },
                })
            },
            _ => {
                &&& after.current_dir == before.current_dir
                &&& after.dir_positions == before.dir_positions
                &&& reaction == stay()
            },
        },
        AppMode::History => {
            &&& after.dir_positions == before.dir_positions
            &&& match before.selected_item() {
                Some(item) if item.is_directory(on_disk) => {
                    &&& after.current_dir@ == item.path()
                    &&& reaction == (ReactionView {
                        action: ModeActionView::Switch(AppMode::Normal),
                        request: RequestView::RecordVisit { path: item.path() },
                    })
                },
                _ => after.current_dir == before.current_dir && reaction == stay(),
            }
        },
    }
}

/// The directory that the listing goes to from `dir` on the way up: none in
/// the drive list, the parent where there is one, the drive list from the
/// root of a drive on a platform with drive letters, else none.
pub open spec fn way_up(dir: Seq<char>, has_drive_letters: bool) -> Option<Seq<char>> {
    if is_drives_path(dir) {
        None
    } else if parent_of(dir) is Some {
        parent_of(dir)
    } else if has_drive_letters && is_drive_root(dir) {
        Some("DRIVES:"@)
    } else {
        None
    }
}

/// What leaving for the parent comes to. In the listing, the directory on the
/// way up becomes the current one, the selected row is remembered for the
/// directory that is left, and its listing is asked for; nothing happens
/// where there is no way up. In the history, the listing mode is asked for.
pub open spec fn left(
    before: AppState,
    after: AppState,
    mode: AppMode,
    has_drive_letters: bool,
    reaction: ReactionView,
) -> bool {
    &&& after.same_list(&before)
    &&& match mode {
        AppMode::Normal => match way_up(before.current_dir@, has_drive_letters) {
            Some(parent) => {
                &&& after.current_dir@ == parent
                &&& after.dir_positions@ == match before.file_list_state.selected {
                    Some(row) => before.dir_positions@.insert(before.current_dir@, row),
                    None => before.dir_positions@,
                }
                &&& reaction == (ReactionView {
                    action: ModeActionView::Stay,
                    request: RequestView::LoadDirectory { path: parent },
                })
            },
            None => {
                &&& after.current_dir == before.current_dir
                &&& after.dir_positions == before.dir_positions
                &&& reaction == stay()
            },
        },
        AppMode::History => after == before && reaction == (ReactionView {
            action: ModeActionView::Switch(AppMode::Normal),
            request: RequestView::Nothing,
        }),
    }
}

/// The list and the preview after the selection was asked to move by `step`
/// rows, up or down, in a panel `visible_height` rows high: the selection
/// moves if it can, and where it moved the preview of the item now selected
/// starts.
pub open spec fn navigated(
    before: AppState,
    preview_before: PreviewStateView,
    after: AppState,
    preview_after: PreviewStateView,
    up: bool,
    step: nat,
    visible_height: nat,
) -> bool {
    let moved = if up {
        before.file_list_state.can_go_up(before.total())
    } else {
        before.file_list_state.can_go_down(before.total())
    };
    &&& after.file_list_state == if up {
        before.file_list_state.gone_up(before.total(), step, visible_height)
    } else {
        before.file_list_state.gone_down(before.total(), step, visible_height)
    }
    &&& after.same_but_list_state(&before)
    &&& preview_after == previewed(preview_before, after, moved)
}

/// Moves the selection up or down by `step` rows and, where it moved, starts
/// the preview of the item now selected.
pub fn navigate(
    state: &mut AppState,
    preview: &mut GlobalPreviewState,
    up: bool,
    step: usize,
    visible_height: usize,
) -> (moved: bool)
    ensures
        navigated(
            *old(state),
            old(preview)@,
            *final(state),
            final(preview)@,
            up,
            step as nat,
            visible_height as nat,
        ),
        final(state).file_list_state == if up {
            old(state).file_list_state.gone_up(
                old(state).total(),
                step as nat,
                visible_height as nat,
            )
        } else {
            old(state).file_list_state.gone_down(
                old(state).total(),
                step as nat,
                visible_height as nat,
            )
        },
        moved == if up {
            old(state).file_list_state.can_go_up(old(state).total())
        } else {
            old(state).file_list_state.can_go_down(old(state).total())
        },
        final(state).same_but_list_state(old(state)),
        old(state).wf() ==> final(state).wf(),
        final(preview)@ == previewed(old(preview)@, *final(state), moved),
        old(preview)@.wf() ==> final(preview)@.wf(),
{
    let total = state.filtered_files.len();
    let moved = if up {
        state.file_list_state.go_up(total, step, visible_height)
    } else {
        state.file_list_state.go_down(total, step, visible_height)
    };
    if moved {
        match state.get_selected_item() {
            Some(item) => {
                let request = preview.begin(&item);
            },
            None => {},
        }
    }
    moved
}

/// The rows that a half-page key moves the selection by.
fn half_page(visible_height: usize) -> (step: usize)
    ensures
        step == half_page_step(visible_height as nat),
        step >= 1,
{
    if visible_height / 2 >= 1 {
        visible_height / 2
    } else {
        1
    }
}

/// The list of the current directory.
#[derive(Clone, Copy, Debug)]
pub struct FileListDataProvider;

/// The list of the visit history.
#[derive(Clone, Copy, Debug)]
pub struct HistoryDataProvider;

impl FileListDataProvider {
    /// Whether `path` is the root of a drive, such as `C:\`.
    pub fn is_windows_drive_root(&self, path: &str) -> (r: bool)
        ensures
            r == is_drive_root(path@),
    {
        let chars = to_chars(path);
        chars.len() == 3 && chars[1] == ':' && chars[2] == '\\' && (('a' <= chars[0] && chars[0]
            <= 'z') || ('A' <= chars[0] && chars[0] <= 'Z'))
    }

    /// The path of the selected item, if a file is selected.
    pub fn get_preview_path(&self, state: &AppState) -> (path: Option<String>)
        ensures
            match state.selected_item() {
                Some(DisplayItemView::File(file)) => path matches Some(p) && p@ == file.path,
                _ => path is None,
            },
    {
        match state.get_selected_item() {
            Some(DisplayItem::File(file)) => Some(file.path),
            _ => None,
        }
    }

    /// Remembers the selected row for the current directory, if a row is
    /// selected.
    pub fn save_position(&self, state: &mut AppState)
        ensures
            final(state).dir_positions@ == match old(state).file_list_state.selected {
                Some(row) => old(state).dir_positions@.insert(old(state).current_dir@, row),
                None => old(state).dir_positions@,
            },
            final(state).same_list(old(state)),
            final(state).current_dir == old(state).current_dir,
    {
        match state.file_list_state.selected {
            Some(row) => {
                state.dir_positions.insert(state.current_dir.clone(), row);
            },
            None => {},
        }
    }

    /// Selects the row remembered for the current directory, or the last row
    /// where the list has become shorter, or none.
    pub fn restore_position(&self, state: &mut AppState)
        ensures
            final(state).file_list_state.selected == old(state).restored_selection(),
            final(state).file_list_state.offset == old(state).file_list_state.offset,
            final(state).same_but_list_state(old(state)),
            final(state).file_list_state.wf(final(state).total()),
    {
        let total = state.filtered_files.len();
        state.file_list_state.selected = match state.dir_positions.get(state.current_dir.as_str()) {
            Some(row) => {
                if row < total {
                    Some(row)
                } else if total > 0 {
                    Some(total - 1)
                } else {
                    None
                }
            },
            None => None,
        };
    }

    /// Makes the listing of the current directory the items of the list: the
    /// leading entries and `entries`, sorted; the filter follows the search
    /// text and nothing is selected.
    pub fn load_data(&self, state: &mut AppState, entries: &Vec<FileItem>)
        ensures
            exists|order: Seq<usize>|
                is_listing_order(order, entries.deep_view()) && shows_files(
                    final(state).files.deep_view(),
                    leading_entries(old(state).current_dir@) + arranged(
                        entries.deep_view(),
                        order,
                    ),
                ),
            final(state).filter_is_current(),
            final(state).file_list_state.selected is None,
            final(state).file_list_state.offset == old(state).file_list_state.offset,
            final(state).search_input == old(state).search_input,
            final(state).is_searching == old(state).is_searching,
            final(state).show_hidden_files == old(state).show_hidden_files,
            final(state).current_dir == old(state).current_dir,
            final(state).dir_positions == old(state).dir_positions,
            final(state).double_click_state == old(state).double_click_state,
            final(state).layout == old(state).layout,
            final(state).wf(),
    {
        let files = FilesystemService::load_directory(state.current_dir.as_str(), entries);
        let ghost listing = files.deep_view();
        state.load_file_items(files);
        assert(state.files.deep_view() =~= Seq::new(
            listing.len(),
            |i: int| DisplayItemView::File(listing[i]),
        ));
        state.apply_search_filter();
    }

    /// Makes `drives` the items of the list, as they are.
    pub fn load_drives(&self, state: &mut AppState, drives: &Vec<FileItem>)
        ensures
            shows_files(final(state).files.deep_view(), drives.deep_view()),
            final(state).filter_is_current(),
            final(state).file_list_state.selected is None,
            final(state).file_list_state.offset == old(state).file_list_state.offset,
            final(state).search_input == old(state).search_input,
            final(state).is_searching == old(state).is_searching,
            final(state).show_hidden_files == old(state).show_hidden_files,
            final(state).current_dir == old(state).current_dir,
            final(state).dir_positions == old(state).dir_positions,
            final(state).double_click_state == old(state).double_click_state,
            final(state).layout == old(state).layout,
            final(state).wf(),
    {
        let mut files: Vec<FileItem> = Vec::new();
        let mut i: usize = 0;
        while i < drives.len()
            invariant
                i <= drives.len(),
                files.len() == i,
                forall|k: int| 0 <= k < i ==> (#[trigger] files@[k])@ == drives@[k]@,
            decreases drives.len() - i,
        {
            files.push(drives[i].clone());
            i += 1;
        }
        state.load_file_items(files);
        assert(state.files.deep_view() =~= Seq::new(
            drives.deep_view().len(),
            |i: int| DisplayItemView::File(drives.deep_view()[i]),
        ));
        state.apply_search_filter();
    }

    /// Enters the selected directory: the selected row is remembered for the
    /// directory that is left, the selected directory becomes the current
    /// one, and the result asks for its listing. Nothing happens where no
    /// directory is selected.
    pub fn navigate_into_directory(&self, state: &mut AppState) -> (outcome: Outcome)
        ensures
            outcome.action is None,
            match old(state).selected_item() {
                Some(DisplayItemView::File(file)) if file.is_dir => {
                    &&& final(state).current_dir@ == file.path
                    &&& outcome.request matches Request::LoadDirectory { path }
                    &&& path@ == file.path
                    &&& final(state).dir_positions@ == old(state).dir_positions@.insert(
                        old(state).current_dir@,
                        old(state).file_list_state.selected->0,
                    )
                },
                _ => {
                    &&& outcome.request is Nothing
                    &&& final(state).current_dir == old(state).current_dir
                    &&& final(state).dir_positions == old(state).dir_positions
                },
            },
            final(state).same_list(old(state)),
    {
        match state.get_selected_item() {
            Some(DisplayItem::File(file)) => {
                if file.is_dir {
                    self.save_position(state);
                    state.current_dir = file.path.clone();
                    return Outcome {
                        action: None,
                        request: Request::LoadDirectory { path: file.path },
                    };
                }
                Outcome::nothing()
            },
            _ => Outcome::nothing(),
        }
    }

    /// Leaves the current directory for its parent: the selected row is
    /// remembered, the parent becomes the current directory, and the result
    /// asks for its listing. From the root of a drive, on a platform with
    /// drive letters, the drive list is entered. Nothing happens at the root
    /// of the file system and in the drive list.
    pub fn navigate_to_parent(&self, state: &mut AppState, has_drive_letters: bool) -> (outcome:
        Outcome)
        ensures
            outcome.action is None,
            final(state).same_list(old(state)),
            ({
                let dir = old(state).current_dir@;
                let target = if is_drives_path(dir) {
                    None
                } else if parent_of(dir) is Some {
                    parent_of(dir)
                } else if has_drive_letters && is_drive_root(dir) {
                    Some("DRIVES:"@)
                } else {
                    None
                };
                match target {
                    Some(parent) => {
                        &&& final(state).current_dir@ == parent
                        &&& outcome.request matches Request::LoadDirectory { path }
                        &&& path@ == parent
                        &&& final(state).dir_positions@ == match old(state).file_list_state.selected {
                            Some(row) => old(state).dir_positions@.insert(dir, row),
                            None => old(state).dir_positions@,
                        }
                    },
                    None => {
                        &&& outcome.request is Nothing
                        &&& final(state).current_dir == old(state).current_dir
                        &&& final(state).dir_positions == old(state).dir_positions
                    },
                }
            }),
    {
        if str_equals(state.current_dir.as_str(), "DRIVES:") {
            return Outcome::nothing();
        }
        let target = match path_parent(state.current_dir.as_str()) {
            Some(parent) => Some(parent),
            None => {
                if has_drive_letters && self.is_windows_drive_root(state.current_dir.as_str()) {
                    Some("DRIVES:".to_string())
                } else {
                    None
                }
            },
        };
        match target {
            Some(parent) => {
                self.save_position(state);
                state.current_dir = parent.clone();
                Outcome { action: None, request: Request::LoadDirectory { path: parent } }
            },
            None => Outcome::nothing(),
        }
    }

    /// Shows the directory that was entered: the search is cleared, its
    /// listing becomes the items, the row remembered for it is selected, and
    /// the preview is cleared.
    pub fn on_directory_changed(
        &self,
        state: &mut AppState,
        preview: &mut GlobalPreviewState,
        entries: &Vec<FileItem>,
    )
        ensures
            final(state).search_input@.len() == 0,
            !final(state).is_searching,
            exists|order: Seq<usize>|
                is_listing_order(order, entries.deep_view()) && shows_files(
                    final(state).files.deep_view(),
                    leading_entries(old(state).current_dir@) + arranged(
                        entries.deep_view(),
                        order,
                    ),
                ),
            final(state).filter_is_current(),
            final(state).file_list_state.selected == final(state).restored_selection(),
            final(state).current_dir == old(state).current_dir,
            final(state).dir_positions == old(state).dir_positions,
            final(state).show_hidden_files == old(state).show_hidden_files,
            final(state).layout == old(state).layout,
            final(state).wf(),
            final(preview)@ == old(preview)@.emptied(),
    {
        state.search_input.clear();
        state.is_searching = false;
        self.load_data(state, entries);
        self.restore_position(state);
        preview.clear_preview();
    }
}

impl HistoryDataProvider {
    /// Records a visit to `path`, now, in a history that keeps the number of
    /// entries that the settings allow. The result holds the bytes to write
    /// to the history file, where the history can be encoded.
    pub fn add_to_history(&self, entries: &mut Vec<HistoryEntry>, path: String) -> (bytes: Option<
        Vec<u8>,
    >)
        ensures
            exists|now: Timestamp|
                final(entries).deep_view() == added(old(entries).deep_view(), path@, now, 100),
            bytes is Some == encoded_history(final(entries).deep_view()) is Some,
            bytes matches Some(b) ==> encoded_history(final(entries).deep_view()) == Some(b@),
    {
        let config = get_history_config();
        let now = Timestamp::now();
        add_entry(entries, path, now, config.max_entries);
        assert(entries.deep_view() == added(old(entries).deep_view(), path@, now, 100));
        encode_history(entries)
    }

    /// The entries that exist, ranked under `sort_mode` as of now.
    pub fn get_sorted_entries(
        &self,
        entries: &Vec<HistoryEntry>,
        exists: &Vec<bool>,
        sort_mode: &HistorySortMode,
    ) -> (shown: Vec<HistoryEntry>)
        ensures
            exists|now: Timestamp, order: Seq<usize>|
                is_ranking(order, entries.deep_view(), *sort_mode, now, 30)
                    && shown.deep_view() == ranked(entries.deep_view(), order, exists@),
    {
        let config = get_history_config();
        let now = Timestamp::now();
        let shown = rank_entries(entries, exists, *sort_mode, now, config.time_decay_days);
        proof {
            let order = choose|order: Seq<usize>|
                is_ranking(order, entries.deep_view(), *sort_mode, now, 30) && shown.deep_view()
                    == ranked(entries.deep_view(), order, exists@);
            assert(is_ranking(order, entries.deep_view(), *sort_mode, now, 30)
                && shown.deep_view() == ranked(entries.deep_view(), order, exists@));
        }
        shown
    }

    /// Drops the entries visited less often than the settings ask for. The
    /// result holds the bytes to write to the history file, where the history
    /// can be encoded.
    pub fn cleanup_old_entries(&self, entries: &mut Vec<HistoryEntry>) -> (bytes: Option<Vec<u8>>)
        ensures
            final(entries).deep_view() == cleaned(old(entries).deep_view(), 1),
            bytes is Some == encoded_history(final(entries).deep_view()) is Some,
            bytes matches Some(b) ==> encoded_history(final(entries).deep_view()) == Some(b@),
    {
        let config = get_history_config();
        cleanup_entries(entries, config.min_frequency_threshold);
        encode_history(entries)
    }

    /// Makes the entries that exist the items of the list, ranked as the
    /// settings say as of `now`; the filter follows the search text and
    /// nothing is selected.
    pub fn load_data(
        &self,
        state: &mut AppState,
        entries: &Vec<HistoryEntry>,
        exists: &Vec<bool>,
        now: Timestamp,
    )
        ensures
            exists|order: Seq<usize>|
                is_ranking(
                    order,
                    entries.deep_view(),
                    HistorySortMode::FrequencyRecent,
                    now,
                    30,
                ) && shows_history(
                    final(state).files.deep_view(),
                    ranked(entries.deep_view(), order, exists@),
                ),
            final(state).filter_is_current(),
            final(state).file_list_state.selected is None,
            final(state).file_list_state.offset == old(state).file_list_state.offset,
            final(state).search_input == old(state).search_input,
            final(state).is_searching == old(state).is_searching,
            final(state).show_hidden_files == old(state).show_hidden_files,
            final(state).current_dir == old(state).current_dir,
            final(state).dir_positions == old(state).dir_positions,
            final(state).double_click_state == old(state).double_click_state,
            final(state).layout == old(state).layout,
            final(state).wf(),
    {
        let config = get_history_config();
        let shown = rank_entries(entries, exists, config.sort_mode, now, config.time_decay_days);
        let ghost ranked_view = shown.deep_view();
        let mut items: Vec<DisplayItem> = Vec::new();
        let mut i: usize = 0;
        while i < shown.len()
            invariant
                i <= shown.len(),
                items.len() == i,
                forall|k: int|
                    0 <= k < i ==> (#[trigger] items@[k])@ == DisplayItemView::History(
                        shown@[k]@,
                    ),
            decreases shown.len() - i,
        {
            items.push(DisplayItem::History(shown[i].clone()));
            i += 1;
        }
        state.files = items;
        assert(state.files.deep_view() =~= Seq::new(
            ranked_view.len(),
            |i: int| DisplayItemView::History(ranked_view[i]),
        ));
        state.apply_search_filter();
    }

    /// Goes to the selected directory: it becomes the current directory, the
    /// result asks for the listing mode and for the visit to be recorded.
    /// Whether the path of the selected entry is a directory now, the caller
    /// says in `on_disk`. Nothing happens where it is not, or nothing is
    /// selected.
    pub fn navigate_into_directory(&self, state: &mut AppState, on_disk: bool) -> (outcome: Outcome)
        ensures
            match old(state).selected_item() {
                Some(item) if item.is_directory(on_disk) => {
                    &&& final(state).current_dir@ == item.path()
                    &&& outcome.action == Some(ModeAction::Switch(AppMode::Normal))
                    &&& outcome.request matches Request::RecordVisit { path }
                    &&& path@ == item.path()
                },
                _ => {
                    &&& outcome.action is None
                    &&& outcome.request is Nothing
                    &&& final(state).current_dir == old(state).current_dir
                },
            },
            final(state).same_list(old(state)),
            final(state).dir_positions == old(state).dir_positions,
    {
        match state.get_selected_item() {
            Some(item) => {
                if item.is_directory(on_disk) {
                    state.current_dir = item.get_path().clone();
                    return Outcome {
                        action: Some(ModeAction::Switch(AppMode::Normal)),
                        request: Request::RecordVisit { path: item.get_path().clone() },
                    };
                }
                Outcome::nothing()
            },
            None => Outcome::nothing(),
        }
    }

    /// Goes back to the listing mode, in the directory that is current.
    pub fn navigate_to_parent(&self, state: &mut AppState) -> (outcome: Outcome)
        ensures
            outcome.action == Some(ModeAction::Switch(AppMode::Normal)),
            outcome.request is Nothing,
            *final(state) == *old(state),
    {
        Outcome { action: Some(ModeAction::Switch(AppMode::Normal)), request: Request::Nothing }
    }
}

/// The data provider of a mode.
#[derive(Clone, Copy, Debug)]
pub enum DataProviderType {
    Normal(FileListDataProvider),
    History(HistoryDataProvider),
}

/// The data provider of `mode`.
pub fn create_data_provider(mode: &AppMode) -> (provider: DataProviderType)
    ensures
        provider.mode() == *mode,
        match *mode {
            AppMode::Normal => provider is Normal,
            AppMode::History => provider is History,
        },
{
    match mode {
        AppMode::Normal => DataProviderType::Normal(FileListDataProvider),
        AppMode::History => DataProviderType::History(HistoryDataProvider),
    }
}

impl DataProviderType {
    /// The mode that this is the data provider of.
    pub open spec fn mode(self) -> AppMode {
        match self {
            DataProviderType::Normal(_) => AppMode::Normal,
            DataProviderType::History(_) => AppMode::History,
        }
    }

    /// The items that pass the search, in the order of the list. An index of
    /// the filter that is not one of an item is passed over.
    pub fn get_items(&self, state: &AppState) -> (items: Vec<DisplayItem>)
        ensures
            state.wf() ==> items@.len() == state.filtered_files@.len(),
            state.wf() ==> forall|k: int|
                0 <= k < items@.len() ==> (#[trigger] items@[k])@
                    == state.files.deep_view()[state.filtered_files@[k] as int],
    {
        let mut items: Vec<DisplayItem> = Vec::new();
        let mut k: usize = 0;
        while k < state.filtered_files.len()
            invariant
                k <= state.filtered_files.len(),
                state.wf() ==> items.len() == k,
                state.wf() ==> forall|j: int|
                    0 <= j < k ==> (#[trigger] items@[j])@
                        == state.files.deep_view()[state.filtered_files@[j] as int],
            decreases state.filtered_files.len() - k,
        {
            let index = state.filtered_files[k];
            if index < state.files.len() {
                items.push(state.files[index].clone());
            }
            k += 1;
        }
        items
    }

    /// The selected row, if one is selected.
    pub fn get_selected_index(&self, state: &AppState) -> (row: Option<usize>)
        ensures
            row == state.file_list_state.selected,
    {
        state.file_list_state.selected
    }

    /// Selects `index`, or nothing.
    pub fn set_selected_index(&self, state: &mut AppState, index: Option<usize>)
        ensures
            final(state).file_list_state.selected == index,
            final(state).file_list_state.offset == old(state).file_list_state.offset,
            final(state).same_but_list_state(old(state)),
    {
        state.file_list_state.selected = index;
    }

    /// The rows of the filtered list.
    pub fn get_total_count(&self, state: &AppState) -> (total: usize)
        ensures
            total == state.total(),
    {
        state.filtered_files.len()
    }

    /// Moves the selection up by a row; from no selection, to the last row.
    /// At the first row and in an empty list nothing happens. Where the
    /// selection moved, it is kept in the upper half of the list panel and
    /// the preview of the item now selected is started.
    pub fn navigate_up(&self, state: &mut AppState, preview: &mut GlobalPreviewState) -> (moved:
        bool)
        ensures
            final(state).file_list_state == old(state).file_list_state.gone_up(
                old(state).total(),
                1,
                old(state).list_height() / 2,
            ),
            moved == old(state).file_list_state.can_go_up(old(state).total()),
            final(state).same_but_list_state(old(state)),
            old(state).wf() ==> final(state).wf(),
            final(preview)@ == previewed(old(preview)@, *final(state), moved),
            old(preview)@.wf() ==> final(preview)@.wf(),
    {
        let visible_height = state.layout.get_left_content_height() / 2;
        navigate(state, preview, true, 1, visible_height)
    }

    /// Moves the selection down by a row; from no selection, to the first
    /// row. At the last row and in an empty list nothing happens. Where the
    /// selection moved, it is kept in the upper half of the list panel and
    /// the preview of the item now selected is started.
    pub fn navigate_down(&self, state: &mut AppState, preview: &mut GlobalPreviewState) -> (moved:
        bool)
        ensures
            final(state).file_list_state == old(state).file_list_state.gone_down(
                old(state).total(),
                1,
                old(state).list_height() / 2,
            ),
            moved == old(state).file_list_state.can_go_down(old(state).total()),
            final(state).same_but_list_state(old(state)),
            old(state).wf() ==> final(state).wf(),
            final(preview)@ == previewed(old(preview)@, *final(state), moved),
            old(preview)@.wf() ==> final(preview)@.wf(),
    {
        let visible_height = state.layout.get_left_content_height() / 2;
        navigate(state, preview, false, 1, visible_height)
    }

    /// Moves the selection up by half of a panel `visible_height` rows high,
    /// one row at least, and not above the first row.
    pub fn navigate_half_page_up(
        &self,
        state: &mut AppState,
        preview: &mut GlobalPreviewState,
        visible_height: usize,
    ) -> (moved: bool)
        ensures
            final(state).file_list_state == old(state).file_list_state.gone_up(
                old(state).total(),
                half_page_step(visible_height as nat),
                visible_height as nat,
            ),
            moved == old(state).file_list_state.can_go_up(old(state).total()),
            final(state).same_but_list_state(old(state)),
            old(state).wf() ==> final(state).wf(),
            final(preview)@ == previewed(old(preview)@, *final(state), moved),
            old(preview)@.wf() ==> final(preview)@.wf(),
    {
        navigate(state, preview, true, half_page(visible_height), visible_height)
    }

    /// Moves the selection down by half of a panel `visible_height` rows
    /// high, one row at least, and not below the last row.
    pub fn navigate_half_page_down(
        &self,
        state: &mut AppState,
        preview: &mut GlobalPreviewState,
        visible_height: usize,
    ) -> (moved: bool)
        ensures
            final(state).file_list_state == old(state).file_list_state.gone_down(
                old(state).total(),
                half_page_step(visible_height as nat),
                visible_height as nat,
            ),
            moved == old(state).file_list_state.can_go_down(old(state).total()),
            final(state).same_but_list_state(old(state)),
            old(state).wf() ==> final(state).wf(),
            final(preview)@ == previewed(old(preview)@, *final(state), moved),
            old(preview)@.wf() ==> final(preview)@.wf(),
    {
        navigate(state, preview, false, half_page(visible_height), visible_height)
    }

    /// Whether what was fetched is for the list of this mode.
    pub fn accepts(&self, loaded: &Loaded) -> (r: bool)
        ensures
            r == is_for(self.mode(), *loaded),
    {
        match (self, loaded) {
            (DataProviderType::Normal(_), Loaded::Directory { .. }) => true,
            (DataProviderType::Normal(_), Loaded::Drives { .. }) => true,
            (DataProviderType::History(_), Loaded::History { .. }) => true,
            _ => false,
        }
    }

    /// Makes what was fetched the items of the list: the filter follows the
    /// search text and nothing is selected. The result says whether it was
    /// for this mode; where it was not, nothing changes.
    pub fn load_data(&self, state: &mut AppState, loaded: &Loaded) -> (done: bool)
        ensures
            done == is_for(self.mode(), *loaded),
            !done ==> *final(state) == *old(state),
            done ==> settled(*old(state), *final(state), *loaded, false, None),
            done ==> final(state).search_input == old(state).search_input,
    {
        match (self, loaded) {
            (DataProviderType::Normal(provider), Loaded::Directory { entries }) => {
                provider.load_data(state, entries);
                true
            },
            (DataProviderType::Normal(provider), Loaded::Drives { drives }) => {
                provider.load_drives(state, drives);
                true
            },
            (DataProviderType::History(provider), Loaded::History { history, exists, now }) => {
                provider.load_data(state, history, exists, *now);
                true
            },
            _ => false,
        }
    }

    /// Enters the selected directory, as the mode does it.
    pub fn navigate_into_directory(&self, state: &mut AppState, on_disk: bool) -> (outcome: Outcome)
        ensures
            entered(*old(state), *final(state), self.mode(), on_disk, outcome.reaction()),
            final(state).same_list(old(state)),
            match *self {
                DataProviderType::Normal(_) => outcome.action is None && match old(state).selected_item() {
                    Some(DisplayItemView::File(file)) if file.is_dir => {
                        &&& final(state).current_dir@ == file.path
                        &&& outcome.request matches Request::LoadDirectory { path }
                        &&& path@ == file.path
                    },
                    _ => outcome.request is Nothing && final(state).current_dir == old(state).current_dir,
                },
                DataProviderType::History(_) => match old(state).selected_item() {
                    Some(item) if item.is_directory(on_disk) => {
                        &&& final(state).current_dir@ == item.path()
                        &&& outcome.action == Some(ModeAction::Switch(AppMode::Normal))
                        &&& outcome.request matches Request::RecordVisit { path }
                        &&& path@ == item.path()
                    },
                    _ => outcome.action is None && outcome.request is Nothing && final(state).current_dir == old(state).current_dir,
                },
            },
    {
        match self {
            DataProviderType::Normal(provider) => provider.navigate_into_directory(state),
            DataProviderType::History(provider) => provider.navigate_into_directory(state, on_disk),
        }
    }

    /// Leaves for the parent directory, as the mode does it.
    pub fn navigate_to_parent(&self, state: &mut AppState, has_drive_letters: bool) -> (outcome:
        Outcome)
        ensures
            left(*old(state), *final(state), self.mode(), has_drive_letters, outcome.reaction()),
            final(state).same_list(old(state)),
            match *self {
                DataProviderType::Normal(_) => outcome.action is None,
                DataProviderType::History(_) => outcome.action == Some(
                    ModeAction::Switch(AppMode::Normal),
                ) && outcome.request is Nothing && *final(state) == *old(state),
            },
    {
        match self {
            DataProviderType::Normal(provider) => provider.navigate_to_parent(
                state,
                has_drive_letters,
            ),
            DataProviderType::History(provider) => provider.navigate_to_parent(state),
        }
    }

    /// The path of the item to preview: that of the selected file in the
    /// listing, that of the selected entry in the history.
    pub fn get_preview_path(&self, state: &AppState) -> (path: Option<String>)
        ensures
            match state.selected_item() {
                Some(DisplayItemView::History(entry)) => match *self {
                    DataProviderType::Normal(_) => path is None,
                    DataProviderType::History(_) => path matches Some(p) && p@ == entry.path,
                },
                Some(DisplayItemView::File(file)) => path matches Some(p) && p@ == file.path,
                None => path is None,
            },
    {
        match self {
            DataProviderType::Normal(provider) => provider.get_preview_path(state),
            DataProviderType::History(_) => match state.get_selected_item() {
                Some(item) => Some(item.get_path().clone()),
                None => None,
            },
        }
    }

    /// Remembers the selected row for the current directory. The history
    /// remembers nothing.
    pub fn save_position(&self, state: &mut AppState)
        ensures
            final(state).dir_positions@ == match (*self, old(state).file_list_state.selected) {
                (DataProviderType::Normal(_), Some(row)) => old(state).dir_positions@.insert(
                    old(state).current_dir@,
                    row,
                ),
                _ => old(state).dir_positions@,
            },
            final(state).same_list(old(state)),
            final(state).current_dir == old(state).current_dir,
    {
        match self {
            DataProviderType::Normal(provider) => provider.save_position(state),
            DataProviderType::History(_) => {},
        }
    }

    /// Selects the row remembered for the current directory. In the history
    /// nothing happens.
    pub fn restore_position(&self, state: &mut AppState)
        ensures
            final(state).file_list_state.selected == match *self {
                DataProviderType::Normal(_) => old(state).restored_selection(),
                DataProviderType::History(_) => old(state).file_list_state.selected,
            },
            final(state).file_list_state.offset == old(state).file_list_state.offset,
            final(state).same_but_list_state(old(state)),
    {
        match self {
            DataProviderType::Normal(provider) => provider.restore_position(state),
            DataProviderType::History(_) => {},
        }
    }

    /// Shows the directory that was entered, whose entries as read are
    /// `entries`. In the history nothing happens.
    pub fn on_directory_changed(
        &self,
        state: &mut AppState,
        preview: &mut GlobalPreviewState,
        entries: &Vec<FileItem>,
    )
        ensures
            match *self {
                DataProviderType::History(_) => *final(state) == *old(state) && final(preview)@
                    == old(preview)@,
                DataProviderType::Normal(_) => {
                    &&& final(state).search_input@.len() == 0
                    &&& !final(state).is_searching
                    &&& exists|order: Seq<usize>|
                        is_listing_order(order, entries.deep_view()) && shows_files(
                            final(state).files.deep_view(),
                            leading_entries(old(state).current_dir@) + arranged(
                                entries.deep_view(),
                                order,
                            ),
                        )
                    &&& final(state).filter_is_current()
                    &&& final(state).file_list_state.selected == final(state).restored_selection()
                    &&& final(state).current_dir == old(state).current_dir
                    &&& final(state).dir_positions == old(state).dir_positions
                    &&& final(state).wf()
                    &&& final(preview)@ == old(preview)@.emptied()
                },
            },
    {
        match self {
            DataProviderType::Normal(provider) => provider.on_directory_changed(
                state,
                preview,
                entries,
            ),
            DataProviderType::History(_) => {},
        }
    }

    /// Whether the selected item can be chosen: always.
    pub fn navigate_to_selected(&self, state: &mut AppState) -> (chosen: bool)
        ensures
            chosen,
            *final(state) == *old(state),
    {
        true
    }
}

} // verus!
