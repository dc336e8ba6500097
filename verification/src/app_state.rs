//! The state of the navigator: the current directory, the items of the active
//! list, which of them pass the search, and which one is selected.

use vstd::prelude::*;
use crate::layout::{LayoutManager, Rect};
use crate::models::{DisplayItem, DisplayItemView, FileItem};
use crate::positions::DirPositions;
use crate::text::{chars_contain, contains_run, lowercase_of, to_chars, to_lowercase};

verus! {

/// The last click, kept to tell a double click from two clicks.
#[derive(Clone, Copy, Debug)]
pub struct DoubleClickState {
    /// When the last click came, in milliseconds of the caller's clock.
    pub last_click_time: Option<u64>,
    /// The column and the row of the last click.
    pub last_click_position: Option<(u16, u16)>,
    /// The row of the list that the last click hit.
    pub last_clicked_index: Option<usize>,
}

/// Two clicks this many milliseconds apart, or less, are a double click.
pub const DOUBLE_CLICK_INTERVAL_MS: u64 = 150;

impl DoubleClickState {
    /// The state before any click.
    pub fn new() -> (state: DoubleClickState)
        ensures
            state.last_click_time is None,
            state.last_click_position is None,
            state.last_clicked_index is None,
    {
        DoubleClickState {
            last_click_time: None,
            last_click_position: None,
            last_clicked_index: None,
        }
    }

    /// Whether a click at `now` on `position`, which hits row `index`, makes a
    /// double click with the last one: same row, same position, and no more
    /// than the interval later.
    pub open spec fn completes(self, now: u64, position: (u16, u16), index: usize) -> bool {
        &&& self.last_click_time matches Some(last)
        &&& self.last_click_position == Some(position)
        &&& self.last_clicked_index == Some(index)
        &&& (now <= last || now - last <= DOUBLE_CLICK_INTERVAL_MS)
    }

    /// Whether a click at `now` on `position`, which hits row `index`, makes a
    /// double click with the last one.
    pub fn is_double_click(&self, now: u64, position: (u16, u16), index: usize) -> (r: bool)
        ensures
            r == self.completes(now, position, index),
    {
        match (self.last_click_time, self.last_click_position, self.last_clicked_index) {
            (Some(last), Some(last_position), Some(last_index)) => {
                let in_time = now <= last || now - last <= DOUBLE_CLICK_INTERVAL_MS;
                in_time && last_position.0 == position.0 && last_position.1 == position.1
                    && last_index == index
            },
            _ => false,
        }
    }

    /// Records a click at `now` on `position`, which hits row `index`.
    pub fn update(&mut self, now: u64, position: (u16, u16), index: usize)
        ensures
            final(self).last_click_time == Some(now),
            final(self).last_click_position == Some(position),
            final(self).last_clicked_index == Some(index),
    {
        self.last_click_time = Some(now);
        self.last_click_position = Some(position);
        self.last_clicked_index = Some(index);
    }

    /// Forgets the last click.
    pub fn reset(&mut self)
        ensures
            final(self).last_click_time is None,
            final(self).last_click_position is None,
            final(self).last_clicked_index is None,
    {
        self.last_click_time = None;
        self.last_click_position = None;
        self.last_clicked_index = None;
    }
}

/// Which row of the list is selected, and which is the first shown.
#[derive(Clone, Copy, Debug)]
pub struct ListState {
    /// The selected row, if one is.
    pub selected: Option<usize>,
    /// The first row shown.
    pub offset: usize,
}

impl ListState {
    /// The selection is a row of a list of `total` rows.
    pub open spec fn wf(self, total: nat) -> bool {
        self.selected matches Some(row) ==> row < total
    }

    /// The first row shown after the selection moved, in a panel
    /// `visible_height` rows high: the selected row where it lies above, the
    /// row that leaves the selected one last in the panel where it lies below,
    /// else the same.
    pub open spec fn scrolled(self, visible_height: nat) -> ListState {
        match self.selected {
            Some(row) if visible_height > 0 => if row < self.offset {
                ListState { offset: row, ..self }
            } else if row >= self.offset + visible_height {
                ListState { offset: (row - (visible_height - 1)) as usize, ..self }
            } else {
                self
            },
            _ => self,
        }
    }

    /// Whether the selection can go up in a list of `total` rows: a row is
    /// selected and it is not the first; or none is and the list has rows.
    pub open spec fn can_go_up(self, total: nat) -> bool {
        match self.selected {
            Some(row) => row > 0,
            None => total > 0,
        }
    }

    /// Whether the selection can go down in a list of `total` rows: a row is
    /// selected and it is not the last; or none is and the list has rows.
    pub open spec fn can_go_down(self, total: nat) -> bool {
        match self.selected {
            Some(row) => row + 1 < total,
            None => total > 0,
        }
    }

    /// The row selected after going up by `step` rows in a list of `total`
    /// rows: not above the first; from no selection, the last.
    pub open spec fn row_above(self, total: nat, step: nat) -> usize {
        match self.selected {
            Some(row) => if row >= step {
                (row - step) as usize
            } else {
                0
            },
            None => (total - 1) as usize,
        }
    }

    /// The row selected after going down by `step` rows in a list of `total`
    /// rows: not below the last; from no selection, the first.
    pub open spec fn row_below(self, total: nat, step: nat) -> usize {
        match self.selected {
            Some(row) => if row + step < total {
                (row + step) as usize
            } else {
                (total - 1) as usize
            },
            None => 0,
        }
    }

    /// The state after going up by `step` rows, in a panel `visible_height`
    /// rows high: unchanged where the selection cannot go up.
    pub open spec fn gone_up(self, total: nat, step: nat, visible_height: nat) -> ListState {
        if self.can_go_up(total) {
            (ListState { selected: Some(self.row_above(total, step)), ..self }).scrolled(
                visible_height,
            )
        } else {
            self
        }
    }

    /// The state after going down by `step` rows, in a panel `visible_height`
    /// rows high: unchanged where the selection cannot go down.
    pub open spec fn gone_down(self, total: nat, step: nat, visible_height: nat) -> ListState {
        if self.can_go_down(total) {
            (ListState { selected: Some(self.row_below(total, step)), ..self }).scrolled(
                visible_height,
            )
        } else {
            self
        }
    }

    /// No row selected, the list shown from its first row.
    pub fn new() -> (state: ListState)
        ensures
            state.selected is None,
            state.offset == 0,
    {
        ListState { selected: None, offset: 0 }
    }

    /// Brings the selected row into a panel `visible_height` rows high.
    pub fn scroll_into_view(&mut self, visible_height: usize)
        ensures
            *final(self) == old(self).scrolled(visible_height as nat),
    {
        if visible_height == 0 {
            return ;
        }
        match self.selected {
            Some(row) => {
                if row < self.offset {
                    self.offset = row;
                } else if row - self.offset >= visible_height {
                    self.offset = row - (visible_height - 1);
                }
            },
            None => {},
        }
    }

    /// Goes up by `step` rows in a list of `total` rows. The result says
    /// whether the selection moved.
    pub fn go_up(&mut self, total: usize, step: usize, visible_height: usize) -> (moved: bool)
        ensures
            *final(self) == old(self).gone_up(total as nat, step as nat, visible_height as nat),
            moved == old(self).can_go_up(total as nat),
            old(self).wf(total as nat) ==> final(self).wf(total as nat),
    {
        match self.selected {
            Some(row) => {
                if row == 0 {
                    return false;
                }
                self.selected = Some(
                    if row >= step {
                        row - step
                    } else {
                        0
                    },
                );
            },
            None => {
                if total == 0 {
                    return false;
                }
                self.selected = Some(total - 1);
            },
        }
        self.scroll_into_view(visible_height);
        true
    }

    /// Goes down by `step` rows in a list of `total` rows. The result says
    /// whether the selection moved.
    pub fn go_down(&mut self, total: usize, step: usize, visible_height: usize) -> (moved: bool)
        ensures
            *final(self) == old(self).gone_down(total as nat, step as nat, visible_height as nat),
            moved == old(self).can_go_down(total as nat),
            old(self).wf(total as nat) ==> final(self).wf(total as nat),
    {
        match self.selected {
            Some(row) => {
                if row >= total || row + 1 >= total {
                    return false;
                }
                self.selected = Some(
                    if step < total - row {
                        row + step
                    } else {
                        total - 1
                    },
                );
            },
            None => {
                if total == 0 {
                    return false;
                }
                self.selected = Some(0);
            },
        }
        self.scroll_into_view(visible_height);
        true
    }
}

/// A move of the selection.
pub enum Move {
    /// Up by one row.
    Up,
    /// Down by one row.
    Down,
    /// Up by half of a panel of so many rows.
    HalfPageUp(nat),
    /// Down by half of a panel of so many rows.
    HalfPageDown(nat),
}

/// The rows that a half-page key moves the selection by in a panel
/// `visible_height` rows high: half of them, one at least.
pub open spec fn half_page_step(visible_height: nat) -> nat {
    if visible_height / 2 >= 1 {
        visible_height / 2
    } else {
        1
    }
}

/// The state of a list of `total` rows after the move `step`, where a move
/// by one row keeps the selection in a panel `visible_height` rows high.
pub open spec fn moved(state: ListState, step: Move, total: nat, visible_height: nat) -> ListState {
    match step {
        Move::Up => state.gone_up(total, 1, visible_height),
        Move::Down => state.gone_down(total, 1, visible_height),
        Move::HalfPageUp(height) => state.gone_up(total, half_page_step(height), height),
        Move::HalfPageDown(height) => state.gone_down(total, half_page_step(height), height),
    }
}

/// The state of a list of `total` rows after the moves `steps`, in order.
pub open spec fn moved_all(state: ListState, steps: Seq<Move>, total: nat, visible_height: nat)
    -> ListState
    decreases steps.len(),
{
    if steps.len() == 0 {
        state
    } else {
        moved(moved_all(state, steps.drop_last(), total, visible_height), steps.last(), total,
            visible_height)
    }
}

/// Whatever the moves, the selection stays a row of the list.
pub proof fn lemma_selection_stays_in_list(
    state: ListState,
    steps: Seq<Move>,
    total: nat,
    visible_height: nat,
)
    requires
        state.wf(total),
    ensures
        moved_all(state, steps, total, visible_height).wf(total),
    decreases steps.len(),
{
    if steps.len() > 0 {
        lemma_selection_stays_in_list(state, steps.drop_last(), total, visible_height);
    }
}

/// Going up from the first row and going down from the last change nothing.
pub proof fn lemma_no_wraparound(state: ListState, total: nat, step: nat, visible_height: nat)
    requires
        total > 0,
    ensures
        state.selected == Some(0usize) ==> state.gone_up(total, step, visible_height) == state,
        state.selected matches Some(row) && row + 1 == total ==> state.gone_down(
            total,
            step,
            visible_height,
        ) == state,
{
}

/// Whether a name is that of a hidden file: it starts with a dot.
pub open spec fn is_hidden_name(name: Seq<char>) -> bool {
    name.len() > 0 && name[0] == '.'
}

/// Whether `item` is listed at all: a file is unless it is hidden and hidden
/// files are not shown; a history entry always is.
pub open spec fn should_show(item: DisplayItemView, show_hidden: bool) -> bool {
    match item {
        DisplayItemView::File(file) => !is_hidden_name(file.name) || show_hidden,
        DisplayItemView::History(_) => true,
    }
}

/// Whether `item` passes the search for `search`: it is listed, and its name
/// holds the search text, both taken in lower case; an empty search text
/// passes all.
pub open spec fn passes(item: DisplayItemView, search: Seq<char>, show_hidden: bool) -> bool {
    should_show(item, show_hidden) && (search.len() == 0 || contains_run(
        lowercase_of(item.display_name()),
        lowercase_of(search),
    ))
}

/// The test that picks the indices of the items that pass the search.
pub open spec fn passing(items: Seq<DisplayItemView>, search: Seq<char>, show_hidden: bool)
    -> spec_fn(usize) -> bool {
    |i: usize| i < items.len() && passes(items[i as int], search, show_hidden)
}

/// The indices of the items that pass the search, ascending.
pub open spec fn filtered(items: Seq<DisplayItemView>, search: Seq<char>, show_hidden: bool) -> Seq<
    usize,
> {
    Seq::new(items.len(), |i: int| i as usize).filter(passing(items, search, show_hidden))
}

/// Taking back the last character typed gives the filter that was there
/// before it was typed.
pub proof fn lemma_backspace_restores_filter(
    items: Seq<DisplayItemView>,
    search: Seq<char>,
    typed: char,
    show_hidden: bool,
)
    ensures
        filtered(items, search.push(typed).drop_last(), show_hidden) == filtered(
            items,
            search,
            show_hidden,
        ),
{
    assert(search.push(typed).drop_last() =~= search);
}

/// The indices that a filter holds are indices of items.
pub proof fn lemma_filtered_in_range(
    items: Seq<DisplayItemView>,
    search: Seq<char>,
    show_hidden: bool,
)
    ensures
        forall|k: int|
            0 <= k < filtered(items, search, show_hidden).len() ==> (#[trigger] filtered(
                items,
                search,
                show_hidden,
            )[k]) < items.len(),
{
    let all = Seq::new(items.len(), |i: int| i as usize);
    let keep = passing(items, search, show_hidden);
    assert forall|k: int| 0 <= k < all.filter(keep).len() implies (#[trigger] all.filter(
        keep,
    )[k]) < items.len() by {
        all.lemma_filter_pred(keep, k);
    }
}

/// The mutable root of the navigator.
#[derive(Debug)]
pub struct AppState {
    /// The text searched for.
    pub search_input: String,
    /// Whether keys go to the search text.
    pub is_searching: bool,
    /// Whether hidden files are listed.
    pub show_hidden_files: bool,
    /// The directory that the listing is of.
    pub current_dir: String,
    /// The items of the active list, unfiltered.
    pub files: Vec<DisplayItem>,
    /// The indices into `files` of the items that pass the search.
    pub filtered_files: Vec<usize>,
    /// The selected row of `filtered_files`, and the first row shown.
    pub file_list_state: ListState,
    /// The row that was selected in each directory when it was left.
    pub dir_positions: DirPositions,
    /// The last click.
    pub double_click_state: DoubleClickState,
    /// The areas of the screen.
    pub layout: LayoutManager,
}

impl AppState {
    /// The indices of the filter are indices of items, and the selection is a
    /// row of the filter.
    pub open spec fn wf(&self) -> bool {
        &&& forall|k: int|
            0 <= k < self.filtered_files@.len() ==> (#[trigger] self.filtered_files@[k])
                < self.files@.len()
        &&& self.file_list_state.wf(self.filtered_files@.len())
    }

    /// The filter is the one that the search text asks for.
    pub open spec fn filter_is_current(&self) -> bool {
        self.filtered_files@ == filtered(
            self.files.deep_view(),
            self.search_input@,
            self.show_hidden_files,
        )
    }

    /// The selected item, if a row is selected and the filter and the items
    /// hold it.
    pub open spec fn selected_item(&self) -> Option<DisplayItemView> {
        match self.file_list_state.selected {
            Some(row) if row < self.filtered_files@.len() && self.filtered_files@[row as int]
                < self.files@.len() => Some(
                self.files.deep_view()[self.filtered_files@[row as int] as int],
            ),
            _ => None,
        }
    }

    /// The state at the start, in the directory `current_dir`: no items, no
    /// search, nothing selected.
    pub fn new(current_dir: String) -> (state: AppState)
        ensures
            state.current_dir@ == current_dir@,
            state.search_input@.len() == 0,
            !state.is_searching,
            !state.show_hidden_files,
            state.files@.len() == 0,
            state.filtered_files@.len() == 0,
            state.file_list_state.selected is None,
            state.file_list_state.offset == 0,
            state.dir_positions@ == Map::<Seq<char>, usize>::empty(),
            !state.layout.is_set(),
            state.wf(),
    {
        AppState {
            search_input: String::new(),
            is_searching: false,
            show_hidden_files: false,
            current_dir,
            files: Vec::new(),
            filtered_files: Vec::new(),
            file_list_state: ListState::new(),
            dir_positions: DirPositions::new(),
            double_click_state: DoubleClickState::new(),
            layout: LayoutManager::new(),
        }
    }

    /// Lays the areas out for a terminal of size `terminal_size`.
    pub fn update_layout(&mut self, terminal_size: Rect)
        ensures
            final(self).layout.terminal_area == terminal_size,
            final(self).layout.is_set(),
            final(self).layout.spans_terminal(),
            final(self).files == old(self).files,
            final(self).filtered_files == old(self).filtered_files,
            final(self).file_list_state == old(self).file_list_state,
            final(self).search_input == old(self).search_input,
            final(self).is_searching == old(self).is_searching,
            final(self).show_hidden_files == old(self).show_hidden_files,
            final(self).current_dir == old(self).current_dir,
            final(self).dir_positions == old(self).dir_positions,
            final(self).double_click_state == old(self).double_click_state,
            old(self).wf() ==> final(self).wf(),
    {
        self.layout.update_layout(terminal_size);
    }

    /// Whether the cell at column `x` and row `y` lies in the list.
    pub fn is_point_in_left_panel(&self, x: u16, y: u16) -> (r: bool)
        ensures
            r == self.layout.left_area.holds(x, y),
    {
        self.layout.is_in_left_area(x, y)
    }

    /// Whether the cell at column `x` and row `y` lies in the preview.
    pub fn is_point_in_right_panel(&self, x: u16, y: u16) -> (r: bool)
        ensures
            r == self.layout.right_area.holds(x, y),
    {
        self.layout.is_in_right_area(x, y)
    }

    /// Whether the cell at column `x` and row `y` lies in the search box.
    pub fn is_point_in_search_area(&self, x: u16, y: u16) -> (r: bool)
        ensures
            r == self.layout.search_area.holds(x, y),
    {
        self.layout.is_in_search_area(x, y)
    }

    /// Whether `item` is listed at all.
    fn should_show_item(&self, item: &DisplayItem) -> (r: bool)
        ensures
            r == should_show(item@, self.show_hidden_files),
    {
        match item {
            DisplayItem::History(_) => true,
            DisplayItem::File(file) => {
                let name = to_chars(file.name.as_str());
                if name.len() > 0 && name[0] == '.' {
                    self.show_hidden_files
                } else {
                    true
                }
            },
        }
    }

    /// Recomputes the filter for the search text `search`, and drops the
    /// selection.
    fn filter_by(&mut self, search: &str)
        ensures
            final(self).filtered_files@ == filtered(
                old(self).files.deep_view(),
                search@,
                old(self).show_hidden_files,
            ),
            final(self).file_list_state.selected is None,
            final(self).file_list_state.offset == old(self).file_list_state.offset,
            final(self).files == old(self).files,
            final(self).search_input == old(self).search_input,
            final(self).is_searching == old(self).is_searching,
            final(self).show_hidden_files == old(self).show_hidden_files,
            final(self).current_dir == old(self).current_dir,
            final(self).dir_positions == old(self).dir_positions,
            final(self).double_click_state == old(self).double_click_state,
            final(self).layout == old(self).layout,
            final(self).wf(),
    {
        let needle = to_chars(to_lowercase(search).as_str());
        let ghost items = self.files.deep_view();
        let ghost keep = passing(items, search@, self.show_hidden_files);
        let ghost all = Seq::new(items.len(), |i: int| i as usize);
        let mut kept: Vec<usize> = Vec::new();
        let mut i: usize = 0;
        proof {
            assert(all.take(0) =~= Seq::<usize>::empty());
            assert(all.take(0).filter(keep) =~= Seq::<usize>::empty()) by {
                reveal(Seq::filter);
            }
        }
        while i < self.files.len()
            invariant
                i <= self.files.len(),
                *self == *old(self),
                items == self.files.deep_view(),
                keep == passing(items, search@, self.show_hidden_files),
                all == Seq::new(items.len(), |i: int| i as usize),
                needle@ == lowercase_of(search@),
                kept@ == all.take(i as int).filter(keep),
            decreases self.files.len() - i,
        {
            proof {
                all.take(i as int).lemma_filter_push(i, keep);
                assert(all.take(i as int).push(i) =~= all.take(i + 1));
            }
            let item = &self.files[i];
            let mut shown = self.should_show_item(item);
            if shown && !search.is_empty() && needle.len() > 0 {
                let name = to_lowercase(item.get_display_name().as_str());
                shown = chars_contain(&to_chars(name.as_str()), &needle);
            }
            proof {
                if search@.len() == 0 {
                    assert(shown == keep(i));
                } else if needle.len() == 0 {
                    let name = lowercase_of(item@.display_name());
                    assert(name.subrange(0, 0 + needle@.len() as int) =~= needle@);
                    assert(contains_run(name, needle@));
                    assert(shown == keep(i));
                } else {
                    assert(shown == keep(i));
                }
            }
            if shown {
                kept.push(i);
            }
            i += 1;
        }
        proof {
            assert(all.take(self.files.len() as int) =~= all);
            lemma_filtered_in_range(items, search@, self.show_hidden_files);
        }
        self.filtered_files = kept;
        self.file_list_state.selected = None;
    }

    /// Recomputes the filter for no search text, and drops the selection.
    pub fn reset_filter(&mut self)
        ensures
            final(self).filtered_files@ == filtered(
                old(self).files.deep_view(),
                Seq::<char>::empty(),
                old(self).show_hidden_files,
            ),
            final(self).file_list_state.selected is None,
            final(self).file_list_state.offset == old(self).file_list_state.offset,
            final(self).files == old(self).files,
            final(self).search_input == old(self).search_input,
            final(self).is_searching == old(self).is_searching,
            final(self).show_hidden_files == old(self).show_hidden_files,
            final(self).current_dir == old(self).current_dir,
            final(self).dir_positions == old(self).dir_positions,
            final(self).double_click_state == old(self).double_click_state,
            final(self).layout == old(self).layout,
            final(self).wf(),
    {
        let empty = String::new();
        self.filter_by(empty.as_str());
    }

    /// Recomputes the filter for the search text, and drops the selection.
    pub fn apply_search_filter(&mut self)
        ensures
            final(self).filter_is_current(),
            final(self).file_list_state.selected is None,
            final(self).file_list_state.offset == old(self).file_list_state.offset,
            final(self).files == old(self).files,
            final(self).search_input == old(self).search_input,
            final(self).is_searching == old(self).is_searching,
            final(self).show_hidden_files == old(self).show_hidden_files,
            final(self).current_dir == old(self).current_dir,
            final(self).dir_positions == old(self).dir_positions,
            final(self).double_click_state == old(self).double_click_state,
            final(self).layout == old(self).layout,
            final(self).wf(),
    {
        let search = self.search_input.clone();
        self.filter_by(search.as_str());
    }

    /// Makes `file_items` the items of the list, filtered for no search text.
    pub fn load_file_items(&mut self, file_items: Vec<FileItem>)
        ensures
            final(self).files@.len() == file_items@.len(),
            forall|i: int|
                0 <= i < file_items@.len() ==> (#[trigger] final(self).files.deep_view()[i])
                    == DisplayItemView::File(file_items@[i]@),
            final(self).filtered_files@ == filtered(
                final(self).files.deep_view(),
                Seq::<char>::empty(),
                old(self).show_hidden_files,
            ),
            final(self).file_list_state.selected is None,
            final(self).file_list_state.offset == old(self).file_list_state.offset,
            final(self).search_input == old(self).search_input,
            final(self).is_searching == old(self).is_searching,
            final(self).show_hidden_files == old(self).show_hidden_files,
            final(self).current_dir == old(self).current_dir,
            final(self).dir_positions == old(self).dir_positions,
            final(self).double_click_state == old(self).double_click_state,
            final(self).layout == old(self).layout,
            final(self).wf(),
    {
        let mut items: Vec<DisplayItem> = Vec::new();
        let mut i: usize = 0;
        while i < file_items.len()
            invariant
                i <= file_items.len(),
                items.len() == i,
                forall|k: int|
                    0 <= k < i ==> (#[trigger] items@[k])@ == DisplayItemView::File(
                        file_items@[k]@,
                    ),
            decreases file_items.len() - i,
        {
            items.push(DisplayItem::File(file_items[i].clone()));
            i += 1;
        }
        self.files = items;
        self.reset_filter();
    }

    /// The selected item, if there is one.
    pub fn get_selected_item(&self) -> (item: Option<DisplayItem>)
        ensures
            item is Some == self.selected_item() is Some,
            item matches Some(i) ==> self.selected_item() == Some(i@),
    {
        match self.file_list_state.selected {
            Some(row) => {
                if row < self.filtered_files.len() {
                    let index = self.filtered_files[row];
                    if index < self.files.len() {
                        return Some(self.files[index].clone());
                    }
                }
                None
            },
            None => None,
        }
    }

    /// Shows hidden files where they were not shown, hides them where they
    /// were, and recomputes the filter.
    pub fn toggle_hidden_files(&mut self)
        ensures
            final(self).show_hidden_files == !old(self).show_hidden_files,
            final(self).filter_is_current(),
            final(self).file_list_state.selected is None,
            final(self).file_list_state.offset == old(self).file_list_state.offset,
            final(self).files == old(self).files,
            final(self).search_input == old(self).search_input,
            final(self).is_searching == old(self).is_searching,
            final(self).current_dir == old(self).current_dir,
            final(self).dir_positions == old(self).dir_positions,
            final(self).double_click_state == old(self).double_click_state,
            final(self).layout == old(self).layout,
            final(self).wf(),
    {
        self.show_hidden_files = !self.show_hidden_files;
        self.apply_search_filter();
    }
}

} // verus!
