//! What each mode puts on the screen: the list on the left, the preview or
//! the help on the right, and the box on top.

use vstd::prelude::*;
use crate::app_state::AppState;
use crate::layout::{content_height, Rect};
use crate::models::AppMode;
use crate::modes::ModeManager;
use crate::preview_content::ContentView;
use crate::preview_state::PreviewState;
use crate::renderers::{
    file_list_lines,
    file_list_title,
    history_list_lines,
    history_list_title,
    lines_in_view,
    plain_lines,
    FileListRenderer,
    HistoryHelpRenderer,
    HistoryListRenderer,
    NormalHelpRenderer,
    Panel,
    PanelView,
    PreviewPanel,
    PreviewRenderer,
    HISTORY_HELP,
    NORMAL_HELP,
};
use crate::services::StateService;
use crate::text::{decimal, from_chars, push_decimal, push_str};

verus! {

/// The colours of the box on top.
#[derive(Clone, Copy, Debug, PartialEq, Eq, Structural)]
pub enum BoxStyle {
    Yellow,
    Cyan,
    /// Dark on yellow: a search is being typed.
    BlackOnYellow,
    /// Dark on green: a search is in force.
    BlackOnGreen,
}

/// What the box on top shows.
#[derive(Debug, PartialEq)]
pub struct SearchBoxConfig {
    /// The title: the mode and what it offers.
    pub title: String,
    /// The content: the search text.
    pub content: String,
    pub style: BoxStyle,
}

/// What the right panel shows.
#[derive(Debug, PartialEq)]
pub enum RightPanel {
    Help(Panel),
    Preview(PreviewPanel),
}

/// A title that names a search and counts its matches.
pub open spec fn counted(prefix: Seq<char>, search: Seq<char>, count: nat, suffix: Seq<char>)
    -> Seq<char> {
    prefix + search + "' - "@ + decimal(count) + suffix
}

/// A title that names a search and counts its matches.
fn counted_title(prefix: &str, search: &str, count: usize, suffix: &str) -> (title: String)
    ensures
        title@ == counted(prefix@, search@, count as nat, suffix@),
{
    let mut buffer: Vec<char> = Vec::new();
    push_str(&mut buffer, prefix);
    push_str(&mut buffer, search);
    push_str(&mut buffer, "' - ");
    push_decimal(&mut buffer, count as u64);
    push_str(&mut buffer, suffix);
    assert(buffer@ =~= counted(prefix@, search@, count as nat, suffix@));
    from_chars(&buffer)
}

/// Whether the listing mode shows the help and not the preview: while a
/// search is being typed, where no text is typed yet or nothing matches;
/// else where nothing is selected or the list is empty.
pub open spec fn normal_shows_help(state: AppState) -> bool {
    if state.is_searching {
        state.search_input@.len() == 0 || state.filtered_files@.len() == 0
    } else {
        state.file_list_state.selected is None || state.filtered_files@.len() == 0
    }
}

/// Whether the history mode shows the help and not the preview: while a
/// search is being typed, where no text is typed yet or nothing matches;
/// else where nothing is selected.
pub open spec fn history_shows_help(state: AppState) -> bool {
    if state.is_searching {
        state.search_input@.len() == 0 || state.filtered_files@.len() == 0
    } else {
        state.file_list_state.selected is None
    }
}

/// The title and the colours of the box on top in the listing mode.
pub open spec fn normal_box(state: AppState) -> (Seq<char>, BoxStyle) {
    if state.is_searching {
        if state.search_input@.len() == 0 {
            ("SEARCH - Type to search, ESC to exit search"@, BoxStyle::BlackOnYellow)
        } else {
            (
                counted(
                    "SEARCH - '"@,
                    state.search_input@,
                    state.filtered_files@.len(),
                    " matches (ESC to exit)"@,
                ),
                BoxStyle::BlackOnYellow,
            )
        }
    } else if state.search_input@.len() > 0 {
        (
            counted(
                "FILTERED - '"@,
                state.search_input@,
                state.filtered_files@.len(),
                " matches (/f to search again)"@,
            ),
            BoxStyle::BlackOnGreen,
        )
    } else {
        (
            "NORMAL - hjkl navigate, b/f half page, /f search, v history, Enter exit"@,
            BoxStyle::Yellow,
        )
    }
}

/// The title and the colours of the box on top in the history mode.
pub open spec fn history_box(state: AppState) -> (Seq<char>, BoxStyle) {
    if state.is_searching {
        if state.search_input@.len() == 0 {
            ("SEARCH - Type to search history, ESC to exit search"@, BoxStyle::BlackOnYellow)
        } else {
            (
                counted(
                    "SEARCH - '"@,
                    state.search_input@,
                    state.filtered_files@.len(),
                    " matches (ESC to exit)"@,
                ),
                BoxStyle::BlackOnYellow,
            )
        }
    } else if state.search_input@.len() > 0 {
        (
            counted(
                "FILTERED HISTORY - '"@,
                state.search_input@,
                state.filtered_files@.len(),
                " matches (l/\u{2192} enter dir, / to search again, ESC to normal)"@,
            ),
            BoxStyle::BlackOnGreen,
        )
    } else {
        (
            "HISTORY - "@ + decimal(state.files@.len())
                + " entries (jk navigate, l/\u{2192} enter dir, / search, Enter select, ESC to normal)"@,
            BoxStyle::Cyan,
        )
    }
}

/// Whether `panel` is the preview `preview` as a panel `area` shows it.
pub open spec fn shows_preview(panel: PreviewPanel, preview: PreviewState, area: Rect) -> bool {
    &&& panel.title@ == preview@.title
    &&& match preview@.content {
        ContentView::Text(lines) => !panel.picture && panel.lines.deep_view() == lines_in_view(
            lines,
            preview@.scroll_offset as nat,
            content_height(area),
        ),
        ContentView::Image => panel.picture && panel.lines@.len() == 0,
    }
}

/// The listing mode.
#[derive(Clone, Copy, Debug)]
pub struct NormalModeHandler {
    file_list_renderer: FileListRenderer,
    preview_renderer: PreviewRenderer,
    help_renderer: NormalHelpRenderer,
}

impl Default for NormalModeHandler {
    fn default() -> Self {
        NormalModeHandler::new()
    }
}

impl NormalModeHandler {
    pub fn new() -> Self {
        NormalModeHandler {
            file_list_renderer: FileListRenderer::new(),
            preview_renderer: PreviewRenderer::new(),
            help_renderer: NormalHelpRenderer::new(),
        }
    }

    /// The list on the left.
    pub fn render_left_panel(&self, state: &AppState) -> (panel: Panel)
        ensures
            panel@.title == file_list_title(*state),
            state.wf() ==> panel@.lines == file_list_lines(*state),
    {
        self.file_list_renderer.render(state)
    }

    /// The panel on the right: the help or the preview.
    pub fn render_right_panel(&self, state: &AppState, preview: &PreviewState, area: Rect) -> (panel:
        RightPanel)
        ensures
            match panel {
                RightPanel::Help(help) => normal_shows_help(*state) && help@ == (PanelView {
                    title: "Help"@,
                    lines: plain_lines(NORMAL_HELP@),
                }),
                RightPanel::Preview(shown) => !normal_shows_help(*state) && shows_preview(
                    shown,
                    *preview,
                    area,
                ),
            },
    {
        if self.should_show_help(state) {
            RightPanel::Help(self.help_renderer.render())
        } else {
            RightPanel::Preview(self.preview_renderer.render(preview, area))
        }
    }

    /// What the box on top shows.
    pub fn get_search_box_config(&self, state: &AppState) -> (config: SearchBoxConfig)
        ensures
            config.title@ == normal_box(*state).0,
            config.style == normal_box(*state).1,
            config.content@ == state.search_input@,
    {
        let search = state.search_input.as_str();
        let count = state.filtered_files.len();
        let (title, style) = if state.is_searching {
            if search.is_empty() {
                ("SEARCH - Type to search, ESC to exit search".to_string(), BoxStyle::BlackOnYellow)
            } else {
                (
                    counted_title("SEARCH - '", search, count, " matches (ESC to exit)"),
                    BoxStyle::BlackOnYellow,
                )
            }
        } else if !search.is_empty() {
            (
                counted_title("FILTERED - '", search, count, " matches (/f to search again)"),
                BoxStyle::BlackOnGreen,
            )
        } else {
            (
                "NORMAL - hjkl navigate, b/f half page, /f search, v history, Enter exit".to_string(),
                BoxStyle::Yellow,
            )
        };
        SearchBoxConfig { title, content: state.search_input.clone(), style }
    }

    /// Whether the right panel shows the help and not the preview.
    pub fn should_show_help(&self, state: &AppState) -> (r: bool)
        ensures
            r == normal_shows_help(*state),
    {
        if state.is_searching {
            state.search_input.as_str().is_empty() || state.filtered_files.len() == 0
        } else {
            state.file_list_state.selected.is_none() || state.filtered_files.len() == 0
        }
    }
}

/// The history mode.
#[derive(Clone, Copy, Debug)]
pub struct HistoryModeHandler {
    history_list_renderer: HistoryListRenderer,
    preview_renderer: PreviewRenderer,
    help_renderer: HistoryHelpRenderer,
}

impl Default for HistoryModeHandler {
    fn default() -> Self {
        HistoryModeHandler::new()
    }
}

impl HistoryModeHandler {
    pub fn new() -> Self {
        HistoryModeHandler {
            history_list_renderer: HistoryListRenderer::new(),
            preview_renderer: PreviewRenderer::new(),
            help_renderer: HistoryHelpRenderer::new(),
        }
    }

    /// The list on the left.
    pub fn render_left_panel(&self, state: &AppState) -> (panel: Panel)
        ensures
            panel@.title == history_list_title(*state),
            state.wf() ==> panel@.lines == history_list_lines(*state),
    {
        self.history_list_renderer.render(state)
    }

    /// The panel on the right: the help or the preview.
    pub fn render_right_panel(&self, state: &AppState, preview: &PreviewState, area: Rect) -> (panel:
        RightPanel)
        ensures
            match panel {
                RightPanel::Help(help) => history_shows_help(*state) && help@ == (PanelView {
                    title: "Help - History Mode"@,
                    lines: plain_lines(HISTORY_HELP@),
                }),
                RightPanel::Preview(shown) => !history_shows_help(*state) && shows_preview(
                    shown,
                    *preview,
                    area,
                ),
            },
    {
        if self.should_show_help(state) {
            RightPanel::Help(self.help_renderer.render())
        } else {
            RightPanel::Preview(self.preview_renderer.render(preview, area))
        }
    }

    /// What the box on top shows.
    pub fn get_search_box_config(&self, state: &AppState) -> (config: SearchBoxConfig)
        ensures
            config.title@ == history_box(*state).0,
            config.style == history_box(*state).1,
            config.content@ == state.search_input@,
    {
        let search = state.search_input.as_str();
        let count = state.filtered_files.len();
        let (title, style) = if state.is_searching {
            if search.is_empty() {
                (
                    "SEARCH - Type to search history, ESC to exit search".to_string(),
                    BoxStyle::BlackOnYellow,
                )
            } else {
                (
                    counted_title("SEARCH - '", search, count, " matches (ESC to exit)"),
                    BoxStyle::BlackOnYellow,
                )
            }
        } else if !search.is_empty() {
            (
                counted_title(
                    "FILTERED HISTORY - '",
                    search,
                    count,
                    " matches (l/\u{2192} enter dir, / to search again, ESC to normal)",
                ),
                BoxStyle::BlackOnGreen,
            )
        } else {
            let mut buffer: Vec<char> = Vec::new();
            push_str(&mut buffer, "HISTORY - ");
            push_decimal(&mut buffer, state.files.len() as u64);
            push_str(
                &mut buffer,
                " entries (jk navigate, l/\u{2192} enter dir, / search, Enter select, ESC to normal)",
            );
            assert(buffer@ =~= history_box(*state).0);
            (from_chars(&buffer), BoxStyle::Cyan)
        };
        SearchBoxConfig { title, content: state.search_input.clone(), style }
    }

    /// Whether the right panel shows the help and not the preview.
    pub fn should_show_help(&self, state: &AppState) -> (r: bool)
        ensures
            r == history_shows_help(*state),
    {
        if state.is_searching {
            state.search_input.as_str().is_empty() || state.filtered_files.len() == 0
        } else {
            state.file_list_state.selected.is_none()
        }
    }

    /// Entering the mode selects the first entry, if there is one.
    pub fn on_enter(&mut self, state: &mut AppState)
        ensures
            final(state).file_list_state.selected == if old(state).total() > 0 {
                Some(0usize)
            } else {
                None
            },
            final(state).file_list_state.offset == old(state).file_list_state.offset,
            final(state).same_but_list_state(old(state)),
    {
        StateService::initialize_history_mode(state);
    }
}

/// The handler of a mode.
#[derive(Clone, Copy, Debug)]
pub enum ModeHandlerKind {
    Normal(NormalModeHandler),
    History(HistoryModeHandler),
}

/// The handler of `mode`.
pub fn create_mode_handler(mode: &AppMode) -> (handler: ModeHandlerKind)
    ensures
        match *mode {
            AppMode::Normal => handler is Normal,
            AppMode::History => handler is History,
        },
{
    match mode {
        AppMode::Normal => ModeHandlerKind::Normal(NormalModeHandler::new()),
        AppMode::History => ModeHandlerKind::History(HistoryModeHandler::new()),
    }
}

impl ModeManager {
    /// The list on the left, as the mode shows it.
    pub fn render_left_panel(&self, state: &AppState) -> (panel: Panel)
        ensures
            panel@.title == match self.current_mode {
                AppMode::Normal => file_list_title(*state),
                AppMode::History => history_list_title(*state),
            },
            state.wf() ==> panel@.lines == match self.current_mode {
                AppMode::Normal => file_list_lines(*state),
                AppMode::History => history_list_lines(*state),
            },
    {
        match create_mode_handler(&self.current_mode) {
            ModeHandlerKind::Normal(handler) => handler.render_left_panel(state),
            ModeHandlerKind::History(handler) => handler.render_left_panel(state),
        }
    }

    /// The panel on the right, as the mode shows it.
    pub fn render_right_panel(&self, state: &AppState, preview: &PreviewState, area: Rect) -> (panel:
        RightPanel)
        ensures
            panel is Help == match self.current_mode {
                AppMode::Normal => normal_shows_help(*state),
                AppMode::History => history_shows_help(*state),
            },
            panel matches RightPanel::Preview(shown) ==> shows_preview(shown, *preview, area),
            panel matches RightPanel::Help(help) ==> help@ == match self.current_mode {
                AppMode::Normal => PanelView { title: "Help"@, lines: plain_lines(NORMAL_HELP@) },
                AppMode::History => PanelView {
                    title: "Help - History Mode"@,
                    lines: plain_lines(HISTORY_HELP@),
                },
            },
    {
        match create_mode_handler(&self.current_mode) {
            ModeHandlerKind::Normal(handler) => handler.render_right_panel(state, preview, area),
            ModeHandlerKind::History(handler) => handler.render_right_panel(state, preview, area),
        }
    }

    /// What the box on top shows, as the mode shows it.
    pub fn get_search_box_config(&self, state: &AppState) -> (config: SearchBoxConfig)
        ensures
            (config.title@, config.style) == match self.current_mode {
                AppMode::Normal => normal_box(*state),
                AppMode::History => history_box(*state),
            },
            config.content@ == state.search_input@,
    {
        match create_mode_handler(&self.current_mode) {
            ModeHandlerKind::Normal(handler) => handler.get_search_box_config(state),
            ModeHandlerKind::History(handler) => handler.get_search_box_config(state),
        }
    }

    /// What entering the mode does once its list is loaded: the history
    /// selects its first entry; the listing keeps what is selected.
    pub fn on_enter(&self, state: &mut AppState)
        ensures
            final(state).same_but_list_state(old(state)),
            final(state).file_list_state.offset == old(state).file_list_state.offset,
            final(state).file_list_state.selected == match self.current_mode {
                AppMode::Normal => old(state).file_list_state.selected,
                AppMode::History => if old(state).total() > 0 {
                    Some(0usize)
                } else {
                    None
                },
            },
    {
        match create_mode_handler(&self.current_mode) {
            ModeHandlerKind::Normal(_) => {},
            ModeHandlerKind::History(mut handler) => handler.on_enter(state),
        }
    }
}

} // verus!
