//! The state of the preview panel, and the guard that keeps a late result
//! from replacing the preview of a newer selection.
//!
//! A selection writes a placeholder and makes the selected path the identity
//! of the panel. The content that is worked out in the background is
//! published under the path it was worked out for, and is dropped where the
//! identity has moved on.

use vstd::prelude::*;
use crate::models::{DisplayItem, DisplayItemView};
use crate::preview::{concat, file_title, text_line};
use crate::preview_content::{blank_line, line_of, ContentView, Line, PreviewContent, SpanView, Tone};
use crate::text::str_equals;

verus! {

/// What the preview panel holds.
#[derive(Debug)]
pub struct PreviewState {
    /// The content shown.
    pub content: PreviewContent,
    /// The title of the panel.
    pub title: String,
    /// The first row shown.
    pub scroll_offset: usize,
    /// The path of the item that the content belongs to, if it belongs to one.
    pub identity: Option<String>,
    /// The number of selections so far. It goes up with every selection, also
    /// with one of the item that is selected already, and starts again at
    /// zero after the largest number that it can hold.
    pub selections: u64,
}

/// What a [`PreviewState`] is to contracts.
pub struct PreviewStateView {
    pub content: ContentView,
    pub title: Seq<char>,
    pub scroll_offset: usize,
    pub identity: Option<Seq<char>>,
    pub selections: u64,
}

/// The number of selections after one more.
pub open spec fn next_selection(count: u64) -> u64 {
    if count < u64::MAX {
        (count + 1) as u64
    } else {
        0
    }
}

/// What is shown while nothing is selected.
pub open spec fn empty_lines() -> Seq<Seq<SpanView>> {
    seq![line_of("No file selected"@, Tone::Gray)]
}

/// What is shown while the content of a selection is worked out.
pub open spec fn loading_lines() -> Seq<Seq<SpanView>> {
    seq![
        line_of("Loading preview..."@, Tone::Yellow),
        blank_line(),
        line_of("Please wait while content is being processed."@, Tone::Gray),
    ]
}

/// The rows by which a page key scrolls a panel `visible_height` rows high:
/// half of them, one at least.
pub open spec fn half_page(visible_height: nat) -> nat {
    if visible_height / 2 >= 1 {
        visible_height / 2
    } else {
        1
    }
}

/// The state of a panel in which nothing was selected yet.
pub open spec fn cleared() -> PreviewStateView {
    PreviewStateView {
        content: ContentView::Text(empty_lines()),
        title: "Preview"@,
        scroll_offset: 0,
        identity: None,
        selections: 0,
    }
}

impl PreviewStateView {
    /// The state after the panel was cleared: nothing is selected, and the
    /// number of selections stays.
    pub open spec fn emptied(self) -> PreviewStateView {
        PreviewStateView { selections: self.selections, ..cleared() }
    }

    /// The first row shown is a row of the content, or the first where there
    /// is none.
    pub open spec fn wf(self) -> bool {
        self.scroll_offset == 0 || self.scroll_offset < self.content.len()
    }

    /// The last row that can be the first shown.
    pub open spec fn last_row(self) -> nat {
        if self.content.len() == 0 {
            0
        } else {
            (self.content.len() - 1) as nat
        }
    }

    /// The state after its content was replaced: shown from the first row.
    pub open spec fn updated(self, title: Seq<char>, content: ContentView) -> PreviewStateView {
        PreviewStateView { content, title, scroll_offset: 0, ..self }
    }

    /// The state after the item named `name` at `path` was selected: the
    /// placeholder, under the identity of the item.
    pub open spec fn began(self, name: Seq<char>, path: Seq<char>) -> PreviewStateView {
        PreviewStateView {
            content: ContentView::Text(loading_lines()),
            title: file_title(name),
            scroll_offset: 0,
            identity: Some(path),
            selections: next_selection(self.selections),
        }
    }

    /// The state after the content worked out for `path` came in: it replaces
    /// what is shown where `path` is still the identity, and is dropped where
    /// it is not.
    pub open spec fn published(self, path: Seq<char>, title: Seq<char>, content: ContentView)
        -> PreviewStateView {
        if self.identity == Some(path) {
            self.updated(title, content)
        } else {
            self
        }
    }

    /// The state with the first row shown set to `offset`, or to the last row
    /// where `offset` lies beyond it.
    pub open spec fn scrolled_to(self, offset: usize) -> PreviewStateView {
        PreviewStateView {
            scroll_offset: if offset <= self.last_row() {
                offset
            } else {
                self.last_row() as usize
            },
            ..self
        }
    }

    /// Whether a row lies above the first row shown.
    pub open spec fn can_scroll_up(self) -> bool {
        self.scroll_offset > 0
    }

    /// Whether a row lies below the first row shown.
    pub open spec fn can_scroll_down(self) -> bool {
        self.scroll_offset + 1 < self.content.len()
    }

    /// The state scrolled up by a row, if one lies above.
    pub open spec fn scrolled_up(self) -> PreviewStateView {
        if self.can_scroll_up() {
            PreviewStateView { scroll_offset: (self.scroll_offset - 1) as usize, ..self }
        } else {
            self
        }
    }

    /// The state scrolled down by a row, if one lies below.
    pub open spec fn scrolled_down(self) -> PreviewStateView {
        if self.can_scroll_down() {
            PreviewStateView { scroll_offset: (self.scroll_offset + 1) as usize, ..self }
        } else {
            self
        }
    }

    /// The first row shown after a page up in a panel `visible_height` high.
    pub open spec fn page_up_target(self, visible_height: nat) -> nat {
        if self.scroll_offset >= half_page(visible_height) {
            (self.scroll_offset - half_page(visible_height)) as nat
        } else {
            0
        }
    }

    /// The last row that a page down in a panel `visible_height` high makes
    /// the first shown: the one from which the rest fills the panel.
    pub open spec fn page_limit(self, visible_height: nat) -> nat {
        if self.content.len() < visible_height {
            0
        } else if self.content.len() - visible_height <= self.last_row() {
            (self.content.len() - visible_height) as nat
        } else {
            self.last_row()
        }
    }

    /// The first row shown after a page down in a panel `visible_height` high.
    pub open spec fn page_down_target(self, visible_height: nat) -> nat {
        if self.scroll_offset + half_page(visible_height) <= self.page_limit(visible_height) {
            (self.scroll_offset + half_page(visible_height)) as nat
        } else {
            self.page_limit(visible_height)
        }
    }

    /// The state after a page up.
    pub open spec fn paged_up(self, visible_height: nat) -> PreviewStateView {
        PreviewStateView { scroll_offset: self.page_up_target(visible_height) as usize, ..self }
    }

    /// The state after a page down.
    pub open spec fn paged_down(self, visible_height: nat) -> PreviewStateView {
        PreviewStateView { scroll_offset: self.page_down_target(visible_height) as usize, ..self }
    }
}

impl View for PreviewState {
    type V = PreviewStateView;

    open spec fn view(&self) -> PreviewStateView {
        PreviewStateView {
            content: self.content@,
            title: self.title@,
            scroll_offset: self.scroll_offset,
            identity: match self.identity {
                Some(path) => Some(path@),
                None => None,
            },
            selections: self.selections,
        }
    }
}

impl Clone for PreviewState {
    fn clone(&self) -> (copy: Self)
        ensures
            copy@ == self@,
    {
        PreviewState {
            content: self.content.clone(),
            title: self.title.clone(),
            scroll_offset: self.scroll_offset,
            identity: match &self.identity {
                Some(path) => Some(path.clone()),
                None => None,
            },
            selections: self.selections,
        }
    }
}

impl Default for PreviewState {
    fn default() -> (state: Self)
        ensures
            state@ == cleared(),
    {
        let mut lines: Vec<Line> = Vec::new();
        lines.push(text_line("No file selected", Tone::Gray));
        assert(lines.deep_view() =~= empty_lines());
        PreviewState {
            content: PreviewContent::text(lines),
            title: "Preview".to_string(),
            scroll_offset: 0,
            identity: None,
            selections: 0,
        }
    }
}

/// What has to be worked out in the background after a selection: the preview
/// of the item at `path`.
#[derive(Debug)]
pub struct PreviewRequest {
    pub path: String,
}

/// The preview panel's state and the operations on it.
#[derive(Debug)]
pub struct GlobalPreviewState {
    state: PreviewState,
}

impl View for GlobalPreviewState {
    type V = PreviewStateView;

    closed spec fn view(&self) -> PreviewStateView {
        self.state@
    }
}

impl Default for GlobalPreviewState {
    fn default() -> (global: Self)
        ensures
            global@ == cleared(),
    {
        GlobalPreviewState::new()
    }
}

impl GlobalPreviewState {
    /// A panel for which nothing is selected.
    pub fn new() -> (global: GlobalPreviewState)
        ensures
            global@ == cleared(),
    {
        GlobalPreviewState { state: PreviewState::default() }
    }

    /// A copy of the state.
    pub fn get_state(&self) -> (state: PreviewState)
        ensures
            state@ == self@,
    {
        self.state.clone()
    }

    /// Replaces title and content, and shows the content from its first row.
    /// The identity stays.
    pub fn update_preview(&mut self, title: String, content: PreviewContent)
        ensures
            final(self)@ == old(self)@.updated(title@, content@),
            final(self)@.wf(),
    {
        self.state.title = title;
        self.state.content = content;
        self.state.scroll_offset = 0;
    }

    /// Back to the state in which nothing is selected. The number of
    /// selections stays.
    pub fn clear_preview(&mut self)
        ensures
            final(self)@ == old(self)@.emptied(),
            final(self)@.wf(),
    {
        let selections = self.state.selections;
        self.state = PreviewState::default();
        self.state.selections = selections;
    }

    /// Writes the placeholder for `item`, which was selected, and makes its
    /// path the identity of the panel. The result says what to work out in
    /// the background.
    pub fn begin(&mut self, item: &DisplayItem) -> (request: PreviewRequest)
        ensures
            final(self)@ == old(self)@.began(item@.display_name(), item@.path()),
            final(self)@.wf(),
            request.path@ == item@.path(),
    {
        let name = item.get_display_name();
        let mut lines: Vec<Line> = Vec::new();
        lines.push(text_line("Loading preview...", Tone::Yellow));
        lines.push(Line::blank());
        lines.push(text_line("Please wait while content is being processed.", Tone::Gray));
        assert(lines.deep_view() =~= loading_lines());
        self.state.title = concat("\u{1F4C4} ", name.as_str());
        self.state.content = PreviewContent::text(lines);
        self.state.scroll_offset = 0;
        self.state.identity = Some(item.get_path().clone());
        self.state.selections = if self.state.selections < u64::MAX {
            self.state.selections + 1
        } else {
            0
        };
        PreviewRequest { path: item.get_path().clone() }
    }

    /// Takes in the content worked out for `path`. It replaces what is shown
    /// where `path` is still the identity of the panel; else it is dropped.
    /// The result says whether it was taken.
    pub fn publish(&mut self, path: &str, title: String, content: PreviewContent) -> (taken: bool)
        ensures
            final(self)@ == old(self)@.published(path@, title@, content@),
            taken == (old(self)@.identity == Some(path@)),
            old(self)@.wf() ==> final(self)@.wf(),
    {
        let current = match &self.state.identity {
            Some(identity) => str_equals(identity.as_str(), path),
            None => false,
        };
        if current {
            self.update_preview(title, content);
        }
        current
    }

    /// The path of the item that the content belongs to, if it belongs to one.
    pub fn get_identity(&self) -> (identity: Option<String>)
        ensures
            identity is Some == self@.identity is Some,
            identity matches Some(path) ==> self@.identity == Some(path@),
    {
        match &self.state.identity {
            Some(path) => Some(path.clone()),
            None => None,
        }
    }

    /// The number of selections so far. A caller that starts the background
    /// work whenever this number has changed misses no selection.
    pub fn get_selections(&self) -> (count: u64)
        ensures
            count == self@.selections,
    {
        self.state.selections
    }

    /// The title of the panel.
    pub fn get_title(&self) -> (title: String)
        ensures
            title@ == self@.title,
    {
        self.state.title.clone()
    }

    /// A copy of the content.
    pub fn get_content(&self) -> (content: PreviewContent)
        ensures
            content@ == self@.content,
    {
        self.state.content.clone()
    }

    /// The first row shown.
    pub fn get_scroll_offset(&self) -> (offset: usize)
        ensures
            offset == self@.scroll_offset,
    {
        self.state.scroll_offset
    }

    /// Shows the content from row `offset`, or from its last row where
    /// `offset` lies beyond it.
    pub fn set_scroll_offset(&mut self, offset: usize)
        ensures
            final(self)@ == old(self)@.scrolled_to(offset),
            final(self)@.wf(),
    {
        let len = self.state.content.len();
        let last = if len == 0 {
            0
        } else {
            len - 1
        };
        self.state.scroll_offset = if offset <= last {
            offset
        } else {
            last
        };
    }

    /// Scrolls up by a row. The result says whether a row lay above.
    pub fn scroll_up(&mut self) -> (moved: bool)
        ensures
            final(self)@ == old(self)@.scrolled_up(),
            moved == old(self)@.can_scroll_up(),
            old(self)@.wf() ==> final(self)@.wf(),
    {
        if self.state.scroll_offset > 0 {
            self.state.scroll_offset = self.state.scroll_offset - 1;
            true
        } else {
            false
        }
    }

    /// Scrolls down by a row. The result says whether a row lay below.
    pub fn scroll_down(&mut self) -> (moved: bool)
        ensures
            final(self)@ == old(self)@.scrolled_down(),
            moved == old(self)@.can_scroll_down(),
            old(self)@.wf() ==> final(self)@.wf(),
    {
        let len = self.state.content.len();
        if self.state.scroll_offset < len && self.state.scroll_offset + 1 < len {
            self.state.scroll_offset = self.state.scroll_offset + 1;
            true
        } else {
            false
        }
    }

    /// Scrolls up by half of a panel `visible_height` rows high, one row at
    /// least, and not above the first row. The result says whether the first
    /// row shown changed.
    pub fn scroll_page_up(&mut self, visible_height: usize) -> (moved: bool)
        ensures
            final(self)@ == old(self)@.paged_up(visible_height as nat),
            moved == (final(self)@.scroll_offset != old(self)@.scroll_offset),
            old(self)@.wf() ==> final(self)@.wf(),
    {
        let half = if visible_height / 2 >= 1 {
            visible_height / 2
        } else {
            1
        };
        let target = if self.state.scroll_offset >= half {
            self.state.scroll_offset - half
        } else {
            0
        };
        let moved = target != self.state.scroll_offset;
        self.state.scroll_offset = target;
        moved
    }

    /// Scrolls down by half of a panel `visible_height` rows high, one row at
    /// least, and not below the row from which the rest of the content fills
    /// the panel. The result says whether the first row shown changed.
    pub fn scroll_page_down(&mut self, visible_height: usize) -> (moved: bool)
        ensures
            final(self)@ == old(self)@.paged_down(visible_height as nat),
            moved == (final(self)@.scroll_offset != old(self)@.scroll_offset),
            final(self)@.wf(),
    {
        let half = if visible_height / 2 >= 1 {
            visible_height / 2
        } else {
            1
        };
        let len = self.state.content.len();
        let last = if len == 0 {
            0
        } else {
            len - 1
        };
        let limit = if len < visible_height {
            0
        } else if len - visible_height <= last {
            len - visible_height
        } else {
            last
        };
        let target = if self.state.scroll_offset <= limit && half <= limit
            - self.state.scroll_offset {
            self.state.scroll_offset + half
        } else {
            limit
        };
        let moved = target != self.state.scroll_offset;
        self.state.scroll_offset = target;
        moved
    }

    /// Shows the content from its first row.
    pub fn reset_scroll(&mut self)
        ensures
            final(self)@ == (PreviewStateView { scroll_offset: 0, ..old(self)@ }),
            final(self)@.wf(),
    {
        self.state.scroll_offset = 0;
    }
}

/// Where a second item is selected before the content of the first has come
/// in, the panel ends under the identity of the second, in whichever order the
/// two contents come in; and where the items differ, it ends with the content
/// of the second.
pub proof fn lemma_latest_selection_wins(
    start: PreviewStateView,
    first: DisplayItemView,
    second: DisplayItemView,
    first_title: Seq<char>,
    first_content: ContentView,
    second_title: Seq<char>,
    second_content: ContentView,
)
    ensures
        ({
            let selected = start.began(first.display_name(), first.path()).began(
                second.display_name(),
                second.path(),
            );
            let in_order = selected.published(first.path(), first_title, first_content).published(
                second.path(),
                second_title,
                second_content,
            );
            let reversed = selected.published(
                second.path(),
                second_title,
                second_content,
            ).published(first.path(), first_title, first_content);
            &&& in_order.identity == Some(second.path())
            &&& reversed.identity == Some(second.path())
            &&& first.path() != second.path() ==> in_order == selected.updated(
                second_title,
                second_content,
            ) && reversed == in_order
        }),
{
}

/// Content that comes in for a path that is not the identity of the panel
/// changes nothing.
pub proof fn lemma_stale_content_is_dropped(
    state: PreviewStateView,
    path: Seq<char>,
    title: Seq<char>,
    content: ContentView,
)
    requires
        state.identity != Some(path),
    ensures
        state.published(path, title, content) == state,
{
}

/// The operations of the preview panel, by the names under which the rest of
/// the navigator calls them.
#[derive(Clone, Copy, Debug)]
pub struct PreviewManager;

impl PreviewManager {
    /// Starts the preview of `item`, which was selected: the placeholder is
    /// written at once, and the result says what to work out in the
    /// background.
    pub fn update_preview_for_item_async(preview: &mut GlobalPreviewState, item: &DisplayItem) -> (request:
        PreviewRequest)
        ensures
            final(preview)@ == old(preview)@.began(item@.display_name(), item@.path()),
            final(preview)@.wf(),
            request.path@ == item@.path(),
    {
        preview.begin(item)
    }

    /// Shows `title` and `content` as the preview of `item`, at once.
    pub fn update_preview_for_item(
        preview: &mut GlobalPreviewState,
        item: &DisplayItem,
        title: String,
        content: PreviewContent,
    )
        ensures
            final(preview)@ == old(preview)@.began(item@.display_name(), item@.path()).updated(
                title@,
                content@,
            ),
            final(preview)@.wf(),
    {
        let request = preview.begin(item);
        preview.update_preview(title, content);
    }

    /// Back to the state in which nothing is selected.
    pub fn clear_preview(preview: &mut GlobalPreviewState)
        ensures
            final(preview)@ == old(preview)@.emptied(),
            final(preview)@.wf(),
    {
        preview.clear_preview();
    }

    /// Scrolls the preview up by a row.
    pub fn scroll_preview_up(preview: &mut GlobalPreviewState) -> (moved: bool)
        ensures
            final(preview)@ == old(preview)@.scrolled_up(),
            moved == old(preview)@.can_scroll_up(),
            old(preview)@.wf() ==> final(preview)@.wf(),
    {
        preview.scroll_up()
    }

    /// Scrolls the preview down by a row.
    pub fn scroll_preview_down(preview: &mut GlobalPreviewState) -> (moved: bool)
        ensures
            final(preview)@ == old(preview)@.scrolled_down(),
            moved == old(preview)@.can_scroll_down(),
            old(preview)@.wf() ==> final(preview)@.wf(),
    {
        preview.scroll_down()
    }

    /// Scrolls the preview up by half a panel.
    pub fn scroll_preview_page_up(preview: &mut GlobalPreviewState, visible_height: usize) -> (moved:
        bool)
        ensures
            final(preview)@ == old(preview)@.paged_up(visible_height as nat),
            moved == (final(preview)@.scroll_offset != old(preview)@.scroll_offset),
            old(preview)@.wf() ==> final(preview)@.wf(),
    {
        preview.scroll_page_up(visible_height)
    }

    /// Scrolls the preview down by half a panel.
    pub fn scroll_preview_page_down(preview: &mut GlobalPreviewState, visible_height: usize) -> (moved:
        bool)
        ensures
            final(preview)@ == old(preview)@.paged_down(visible_height as nat),
            moved == (final(preview)@.scroll_offset != old(preview)@.scroll_offset),
            final(preview)@.wf(),
    {
        preview.scroll_page_down(visible_height)
    }

    /// Shows the preview from its first row.
    pub fn reset_preview_scroll(preview: &mut GlobalPreviewState)
        ensures
            final(preview)@ == (PreviewStateView { scroll_offset: 0, ..old(preview)@ }),
            final(preview)@.wf(),
    {
        preview.reset_scroll();
    }
}

} // verus!
