//! What keys and the mouse do: one place for both modes.
//!
//! The caller turns the events of the terminal into [`KeyCode`] and
//! [`MouseEvent`], and says in [`DiskFacts`] what it found on disk; the
//! functions here change the state and say what comes next.

use vstd::prelude::*;
use crate::app_state::{filtered, half_page_step, AppState, DoubleClickState, ListState};
use crate::data_provider::{create_data_provider, entered, left, navigated};
use crate::layout::content_height;
use crate::models::{display_name_of, AppMode, DisplayItem, FileItem, FileItemView};
use crate::modes::{stay, ModeAction, ModeActionView, Reaction, ReactionView, Request, RequestView};
use crate::preview_state::{GlobalPreviewState, PreviewManager, PreviewStateView};

verus! {

/// A key, as far as the navigator tells keys apart.
#[derive(Clone, Copy, Debug, PartialEq, Eq)]
pub enum KeyCode {
    Backspace,
    Enter,
    Left,
    Right,
    Up,
    Down,
    PageUp,
    PageDown,
    Esc,
    /// A key that types a character.
    Char(char),
    /// Any other key.
    Other,
}

/// What the mouse did, as far as the navigator tells it apart.
#[derive(Clone, Copy, Debug, PartialEq, Eq)]
pub enum MouseEventKind {
    ScrollUp,
    ScrollDown,
    /// The left button was released.
    LeftUp,
    /// Anything else.
    Other,
}

/// An event of the mouse: what it did, at which cell, and when, in
/// milliseconds of the caller's clock.
#[derive(Clone, Copy, Debug)]
pub struct MouseEvent {
    pub kind: MouseEventKind,
    pub column: u16,
    pub row: u16,
    pub time_ms: u64,
}

/// What the caller found on disk before it handed an input over.
#[derive(Clone, Copy, Debug)]
pub struct DiskFacts {
    /// Whether the path of the selected item is a directory.
    pub selected_is_dir: bool,
    /// Whether the current directory is a directory.
    pub current_is_dir: bool,
    /// Whether the platform has drive letters.
    pub has_drive_letters: bool,
}

/// A step through a list, as keys ask for it.
#[derive(Clone, Copy, Debug, PartialEq, Eq, Structural)]
pub enum NavigationAction {
    Up,
    Down,
    Left,
    Right,
    Select,
    Cancel,
}

/// The step that `key` asks for, if it asks for one.
pub open spec fn navigation_action_of(key: KeyCode) -> Option<NavigationAction> {
    match key {
        KeyCode::Up => Some(NavigationAction::Up),
        KeyCode::Down => Some(NavigationAction::Down),
        KeyCode::Left => Some(NavigationAction::Left),
        KeyCode::Right => Some(NavigationAction::Right),
        KeyCode::Enter => Some(NavigationAction::Select),
        KeyCode::Esc => Some(NavigationAction::Cancel),
        KeyCode::Char(c) => if c == 'k' {
            Some(NavigationAction::Up)
        } else if c == 'j' {
            Some(NavigationAction::Down)
        } else if c == 'h' {
            Some(NavigationAction::Left)
        } else if c == 'l' {
            Some(NavigationAction::Right)
        } else {
            None
        },
        _ => None,
    }
}

/// The step that `key` asks for, if it asks for one.
pub fn key_to_navigation_action(key: KeyCode) -> (action: Option<NavigationAction>)
    ensures
        action == navigation_action_of(key),
{
    match key {
        KeyCode::Up => Some(NavigationAction::Up),
        KeyCode::Down => Some(NavigationAction::Down),
        KeyCode::Left => Some(NavigationAction::Left),
        KeyCode::Right => Some(NavigationAction::Right),
        KeyCode::Enter => Some(NavigationAction::Select),
        KeyCode::Esc => Some(NavigationAction::Cancel),
        KeyCode::Char(c) => {
            if c == 'k' {
                Some(NavigationAction::Up)
            } else if c == 'j' {
                Some(NavigationAction::Down)
            } else if c == 'h' {
                Some(NavigationAction::Left)
            } else if c == 'l' {
                Some(NavigationAction::Right)
            } else {
                None
            }
        },
        _ => None,
    }
}

/// The item with which the navigator leaves on Enter: the selected item, or
/// the current directory where nothing is selected.
pub open spec fn chosen(state: AppState, facts: DiskFacts) -> FileItemView {
    match state.selected_item() {
        Some(item) => item.as_file(facts.selected_is_dir),
        None => FileItemView {
            name: display_name_of(state.current_dir@),
            path: state.current_dir@,
            is_dir: facts.current_is_dir,
        },
    }
}

/// Whether `key` is one of the keys that leave or back out.
pub open spec fn is_exit_key(key: KeyCode) -> bool {
    key is Esc || key is Enter
}

/// What Esc and Enter do. Esc ends a search that is being typed; else, in the
/// listing, it leaves where nothing is selected and drops the selection and
/// the preview where something is; in the history it goes back to the
/// listing. Enter leaves with the item chosen.
pub open spec fn exit_key_handled(
    before: AppState,
    preview_before: PreviewStateView,
    key: KeyCode,
    mode: AppMode,
    facts: DiskFacts,
    after: AppState,
    preview_after: PreviewStateView,
    reaction: ReactionView,
) -> bool {
    match key {
        KeyCode::Esc => if before.is_searching {
            &&& after == (AppState { is_searching: false, ..before })
            &&& preview_after == preview_before
            &&& reaction == stay()
        } else if mode == AppMode::Normal {
            if before.selected_item() is None {
                &&& after == before
                &&& preview_after == preview_before
                &&& reaction == (ReactionView {
                    action: ModeActionView::Exit(None),
                    request: RequestView::Nothing,
                })
            } else {
                &&& after == (AppState {
                    file_list_state: ListState { selected: None, ..before.file_list_state },
                    ..before
                })
                &&& preview_after == preview_before.emptied()
                &&& reaction == stay()
            }
        } else {
            &&& after == before
            &&& preview_after == preview_before
            &&& reaction == (ReactionView {
                action: ModeActionView::Switch(AppMode::Normal),
                request: RequestView::Nothing,
            })
        },
        KeyCode::Enter => {
            &&& after == before
            &&& preview_after == preview_before
            &&& reaction == (ReactionView {
                action: ModeActionView::Exit(Some(chosen(before, facts))),
                request: RequestView::Nothing,
            })
        },
        _ => false,
    }
}

/// Whether `key` starts a search or goes to the history: `/` and `v`, while
/// no search is being typed, `v` in the listing only.
pub open spec fn is_switch_key(key: KeyCode, searching: bool, mode: AppMode) -> bool {
    match key {
        KeyCode::Char(c) => !searching && (c == '/' || (c == 'v' && mode != AppMode::History)),
        _ => false,
    }
}

/// What `/` and `v` do: `/` starts a search, `v` goes to the history.
pub open spec fn switch_key_handled(
    before: AppState,
    key: KeyCode,
    mode: AppMode,
    after: AppState,
    reaction: ReactionView,
) -> bool {
    match key {
        KeyCode::Char(c) => if c == '/' {
            after == (AppState { is_searching: true, ..before }) && reaction == stay()
        } else {
            after == before && reaction == (ReactionView {
                action: ModeActionView::Switch(AppMode::History),
                request: RequestView::Nothing,
            })
        },
        _ => false,
    }
}

/// The step through the list that `key` asks for while `searching` says
/// whether a search is being typed: the arrows always, the letters only
/// while none is.
pub open spec fn list_step_of(key: KeyCode, searching: bool) -> Option<NavigationAction> {
    match key {
        KeyCode::Up => Some(NavigationAction::Up),
        KeyCode::Down => Some(NavigationAction::Down),
        KeyCode::Left => Some(NavigationAction::Left),
        KeyCode::Right => Some(NavigationAction::Right),
        KeyCode::Char(_) => if searching {
            None
        } else {
            navigation_action_of(key)
        },
        _ => None,
    }
}

/// Whether `key` moves through the list or the preview.
pub open spec fn is_navigation_key(key: KeyCode, searching: bool) -> bool {
    ||| list_step_of(key, searching) is Some
    ||| key is PageUp
    ||| key is PageDown
    ||| (key matches KeyCode::Char(c) && !searching && (c == 'b' || c == 'f'))
}

/// What the keys that move through the list and the preview do. Up and down
/// move the selection by a row and keep it in the upper half of the list
/// panel; right enters, left leaves; the page keys scroll the preview by
/// half of its panel; `b` moves the selection half a panel down, `f` up.
pub open spec fn navigation_key_handled(
    before: AppState,
    preview_before: PreviewStateView,
    key: KeyCode,
    mode: AppMode,
    facts: DiskFacts,
    after: AppState,
    preview_after: PreviewStateView,
    reaction: ReactionView,
) -> bool {
    match list_step_of(key, before.is_searching) {
        Some(NavigationAction::Up) => navigated(
            before,
            preview_before,
            after,
            preview_after,
            true,
            1,
            before.list_height() / 2,
        ) && reaction == stay(),
        Some(NavigationAction::Down) => navigated(
            before,
            preview_before,
            after,
            preview_after,
            false,
            1,
            before.list_height() / 2,
        ) && reaction == stay(),
        Some(NavigationAction::Right) => entered(
            before,
            after,
            mode,
            facts.selected_is_dir,
            reaction,
        ) && preview_after == preview_before,
        Some(NavigationAction::Left) => left(
            before,
            after,
            mode,
            facts.has_drive_letters,
            reaction,
        ) && preview_after == preview_before,
        _ => match key {
            KeyCode::PageUp => after == before && reaction == stay() && preview_after
                == preview_before.paged_up(content_height(before.layout.right_area)),
            KeyCode::PageDown => after == before && reaction == stay() && preview_after
                == preview_before.paged_down(content_height(before.layout.right_area)),
            KeyCode::Char(c) => navigated(
                before,
                preview_before,
                after,
                preview_after,
                c == 'f',
                half_page_step(before.list_height()),
                before.list_height(),
            ) && reaction == stay(),
            _ => false,
        },
    }
}

/// The state after the search text became `text`: the filter follows it and
/// nothing is selected.
pub open spec fn searched(before: AppState, after: AppState, text: Seq<char>) -> bool {
    &&& after.search_input@ == text
    &&& after.filtered_files@ == filtered(
        before.files.deep_view(),
        text,
        before.show_hidden_files,
    )
    &&& after.file_list_state == (ListState { selected: None, ..before.file_list_state })
    &&& after.files == before.files
    &&& after.is_searching == before.is_searching
    &&& after.show_hidden_files == before.show_hidden_files
    &&& after.current_dir == before.current_dir
    &&& after.dir_positions == before.dir_positions
    &&& after.double_click_state == before.double_click_state
    &&& after.layout == before.layout
}

/// What the other keys do: while a search is being typed, a character is
/// added to the search text and backspace takes the last one back; else
/// nothing.
pub open spec fn search_key_handled(before: AppState, key: KeyCode, after: AppState) -> bool {
    if before.is_searching {
        match key {
            KeyCode::Char(c) => searched(before, after, before.search_input@.push(c)),
            KeyCode::Backspace => searched(
                before,
                after,
                if before.search_input@.len() > 0 {
                    before.search_input@.drop_last()
                } else {
                    before.search_input@
                },
            ),
            _ => after == before,
        }
    } else {
        after == before
    }
}

/// What a key does: the first that applies of leaving, switching, moving and
/// typing.
pub open spec fn key_handled(
    before: AppState,
    preview_before: PreviewStateView,
    key: KeyCode,
    mode: AppMode,
    facts: DiskFacts,
    after: AppState,
    preview_after: PreviewStateView,
    reaction: ReactionView,
) -> bool {
    if is_exit_key(key) {
        exit_key_handled(
            before,
            preview_before,
            key,
            mode,
            facts,
            after,
            preview_after,
            reaction,
        )
    } else if is_switch_key(key, before.is_searching, mode) {
        switch_key_handled(before, key, mode, after, reaction) && preview_after == preview_before
    } else if is_navigation_key(key, before.is_searching) {
        navigation_key_handled(
            before,
            preview_before,
            key,
            mode,
            facts,
            after,
            preview_after,
            reaction,
        )
    } else {
        search_key_handled(before, key, after) && preview_after == preview_before && reaction
            == stay()
    }
}

/// The row of the list that a click at the cell of `mouse` hits: the cell
/// lies in the list panel, below its upper border, on a row of the list.
pub open spec fn click_row(state: AppState, mouse: MouseEvent) -> Option<usize> {
    let area = state.layout.left_area;
    let row = (mouse.row - area.y - 1) + state.file_list_state.offset;
    if area.holds(mouse.column, mouse.row) && mouse.row > area.y && row < state.total() {
        Some(row as usize)
    } else {
        None
    }
}

/// The state after a click that hits row `index` was taken in: the row is
/// selected and the click is kept as the last one.
pub open spec fn click_taken(before: AppState, mouse: MouseEvent, index: usize) -> AppState {
    AppState {
        file_list_state: ListState { selected: Some(index), ..before.file_list_state },
        double_click_state: DoubleClickState {
            last_click_time: Some(mouse.time_ms),
            last_click_position: Some((mouse.column, mouse.row)),
            last_clicked_index: Some(index),
        },
        ..before
    }
}

/// What a click does. A click that hits no row does nothing. One that hits a
/// row selects it, starts the preview of its item and is kept as the last
/// click; where it makes a double click with the one before, a file's
/// directory is entered and a history entry is left with.
pub open spec fn clicked(
    before: AppState,
    preview_before: PreviewStateView,
    mouse: MouseEvent,
    mode: AppMode,
    facts: DiskFacts,
    after: AppState,
    preview_after: PreviewStateView,
    reaction: ReactionView,
) -> bool {
    match click_row(before, mouse) {
        None => after == before && preview_after == preview_before && reaction == stay(),
        Some(index) => {
            let taken = click_taken(before, mouse, index);
            let double = before.double_click_state.completes(
                mouse.time_ms,
                (mouse.column, mouse.row),
                index,
            );
            match taken.selected_item() {
                Some(item) => {
                    &&& preview_after == preview_before.began(item.display_name(), item.path())
                    &&& if !double {
                        after == taken && reaction == stay()
                    } else if item is File {
                        entered(taken, after, mode, facts.selected_is_dir, reaction)
                    } else {
                        after == taken && reaction == (ReactionView {
                            action: ModeActionView::Exit(
                                Some(item.as_file(facts.selected_is_dir)),
                            ),
                            request: RequestView::Nothing,
                        })
                    }
                },
                None => after == taken && preview_after == preview_before && reaction == stay(),
            }
        },
    }
}

/// What the wheel does: over the list it moves the selection by a row, over
/// the preview it scrolls the preview by a row, elsewhere nothing.
pub open spec fn wheel_turned(
    before: AppState,
    preview_before: PreviewStateView,
    mouse: MouseEvent,
    after: AppState,
    preview_after: PreviewStateView,
) -> bool {
    let up = mouse.kind is ScrollUp;
    if before.layout.left_area.holds(mouse.column, mouse.row) {
        navigated(before, preview_before, after, preview_after, up, 1, before.list_height() / 2)
    } else if before.layout.right_area.holds(mouse.column, mouse.row) {
        after == before && preview_after == if up {
            preview_before.scrolled_up()
        } else {
            preview_before.scrolled_down()
        }
    } else {
        after == before && preview_after == preview_before
    }
}

/// What an event of the mouse does.
pub open spec fn mouse_handled(
    before: AppState,
    preview_before: PreviewStateView,
    mouse: MouseEvent,
    mode: AppMode,
    facts: DiskFacts,
    after: AppState,
    preview_after: PreviewStateView,
    reaction: ReactionView,
) -> bool {
    match mouse.kind {
        MouseEventKind::ScrollUp => wheel_turned(
            before,
            preview_before,
            mouse,
            after,
            preview_after,
        ) && reaction == stay(),
        MouseEventKind::ScrollDown => wheel_turned(
            before,
            preview_before,
            mouse,
            after,
            preview_after,
        ) && reaction == stay(),
        MouseEventKind::LeftUp => clicked(
            before,
            preview_before,
            mouse,
            mode,
            facts,
            after,
            preview_after,
            reaction,
        ),
        MouseEventKind::Other => after == before && preview_after == preview_before && reaction
            == stay(),
    }
}

/// Handles the keys and the mouse, for both modes.
#[derive(Clone, Copy, Debug)]
pub struct InputDispatcher;

impl InputDispatcher {
    /// Handles a key.
    pub fn handle_key_event(
        state: &mut AppState,
        preview: &mut GlobalPreviewState,
        key: KeyCode,
        current_mode: &AppMode,
        facts: DiskFacts,
    ) -> (reaction: Reaction)
        ensures
            key_handled(
                *old(state),
                old(preview)@,
                key,
                *current_mode,
                facts,
                *final(state),
                final(preview)@,
                reaction@,
            ),
            old(state).wf() ==> final(state).wf(),
    {
        match Self::handle_exit_keys(state, preview, key, current_mode, facts) {
            Some(reaction) => {
                return reaction;
            },
            None => {},
        }
        match Self::handle_mode_switch_keys(state, key, current_mode) {
            Some(reaction) => {
                return reaction;
            },
            None => {},
        }
        match Self::handle_navigation_keys(state, preview, key, current_mode, facts) {
            Some(reaction) => {
                return reaction;
            },
            None => {},
        }
        Self::handle_mode_specific_keys(state, key, current_mode)
    }

    /// Handles Esc and Enter; other keys are passed over.
    pub fn handle_exit_keys(
        state: &mut AppState,
        preview: &mut GlobalPreviewState,
        key: KeyCode,
        current_mode: &AppMode,
        facts: DiskFacts,
    ) -> (reaction: Option<Reaction>)
        ensures
            reaction is Some == is_exit_key(key),
            reaction matches Some(r) ==> exit_key_handled(
                *old(state),
                old(preview)@,
                key,
                *current_mode,
                facts,
                *final(state),
                final(preview)@,
                r@,
            ),
            reaction is None ==> *final(state) == *old(state) && final(preview)@ == old(preview)@,
            old(state).wf() ==> final(state).wf(),
    {
        match key {
            KeyCode::Esc => {
                if state.is_searching {
                    state.is_searching = false;
                    Some(Reaction::stay())
                } else if *current_mode == AppMode::Normal {
                    if state.get_selected_item().is_none() {
                        return Some(
                            Reaction { action: ModeAction::Exit(None), request: Request::Nothing },
                        );
                    }
                    state.file_list_state.selected = None;
                    PreviewManager::clear_preview(preview);
                    Some(Reaction::stay())
                } else {
                    Some(
                        Reaction {
                            action: ModeAction::Switch(AppMode::Normal),
                            request: Request::Nothing,
                        },
                    )
                }
            },
            KeyCode::Enter => {
                let provider = create_data_provider(current_mode);
                let file = match state.get_selected_item() {
                    Some(item) => {
                        let chosen = provider.navigate_to_selected(state);
                        item.to_file_item(facts.selected_is_dir)
                    },
                    None => FileItem::from_path(state.current_dir.as_str(), facts.current_is_dir),
                };
                Some(Reaction { action: ModeAction::Exit(Some(file)), request: Request::Nothing })
            },
            _ => None,
        }
    }

    /// Handles `/` and `v`; other keys are passed over.
    pub fn handle_mode_switch_keys(state: &mut AppState, key: KeyCode, current_mode: &AppMode) -> (reaction:
        Option<Reaction>)
        ensures
            reaction is Some == is_switch_key(key, old(state).is_searching, *current_mode),
            reaction matches Some(r) ==> switch_key_handled(
                *old(state),
                key,
                *current_mode,
                *final(state),
                r@,
            ),
            reaction is None ==> *final(state) == *old(state),
            old(state).wf() ==> final(state).wf(),
    {
        match key {
            KeyCode::Char(c) => {
                if state.is_searching {
                    None
                } else if c == '/' {
                    state.is_searching = true;
                    Some(Reaction::stay())
                } else if c == 'v' && *current_mode != AppMode::History {
                    Some(
                        Reaction {
                            action: ModeAction::Switch(AppMode::History),
                            request: Request::Nothing,
                        },
                    )
                } else {
                    None
                }
            },
            _ => None,
        }
    }

    /// Handles the keys that move through the list and the preview; other
    /// keys are passed over.
    pub fn handle_navigation_keys(
        state: &mut AppState,
        preview: &mut GlobalPreviewState,
        key: KeyCode,
        current_mode: &AppMode,
        facts: DiskFacts,
    ) -> (reaction: Option<Reaction>)
        ensures
            reaction is Some == is_navigation_key(key, old(state).is_searching),
            reaction matches Some(r) ==> navigation_key_handled(
                *old(state),
                old(preview)@,
                key,
                *current_mode,
                facts,
                *final(state),
                final(preview)@,
                r@,
            ),
            reaction is None ==> *final(state) == *old(state) && final(preview)@ == old(preview)@,
            old(state).wf() ==> final(state).wf(),
    {
        let provider = create_data_provider(current_mode);
        let step = match key {
            KeyCode::Up => Some(NavigationAction::Up),
            KeyCode::Down => Some(NavigationAction::Down),
            KeyCode::Left => Some(NavigationAction::Left),
            KeyCode::Right => Some(NavigationAction::Right),
            KeyCode::Char(_) => {
                if state.is_searching {
                    None
                } else {
                    key_to_navigation_action(key)
                }
            },
            _ => None,
        };
        match step {
            Some(NavigationAction::Up) => {
                provider.navigate_up(state, preview);
                Some(Reaction::stay())
            },
            Some(NavigationAction::Down) => {
                provider.navigate_down(state, preview);
                Some(Reaction::stay())
            },
            Some(NavigationAction::Right) => {
                let outcome = provider.navigate_into_directory(state, facts.selected_is_dir);
                Some(Reaction::of(outcome))
            },
            Some(NavigationAction::Left) => {
                let outcome = provider.navigate_to_parent(state, facts.has_drive_letters);
                Some(Reaction::of(outcome))
            },
            _ => match key {
                KeyCode::PageUp => {
                    Self::handle_preview_navigation(state, preview, key);
                    Some(Reaction::stay())
                },
                KeyCode::PageDown => {
                    Self::handle_preview_navigation(state, preview, key);
                    Some(Reaction::stay())
                },
                KeyCode::Char(c) => {
                    if state.is_searching {
                        None
                    } else if c == 'b' {
                        let height = state.layout.get_left_content_height();
                        provider.navigate_half_page_down(state, preview, height);
                        Some(Reaction::stay())
                    } else if c == 'f' {
                        let height = state.layout.get_left_content_height();
                        provider.navigate_half_page_up(state, preview, height);
                        Some(Reaction::stay())
                    } else {
                        None
                    }
                },
                _ => None,
            },
        }
    }

    /// Handles what is left: the keys of the search.
    pub fn handle_mode_specific_keys(state: &mut AppState, key: KeyCode, current_mode: &AppMode) -> (reaction:
        Reaction)
        ensures
            search_key_handled(*old(state), key, *final(state)),
            reaction@ == stay(),
            old(state).wf() ==> final(state).wf(),
    {
        if state.is_searching {
            Self::handle_search_keys(state, key)
        } else {
            Reaction::stay()
        }
    }

    /// Handles a key while a search is being typed: a character is added to
    /// the search text, backspace takes the last one back, and the filter
    /// follows.
    pub fn handle_search_keys(state: &mut AppState, key: KeyCode) -> (reaction: Reaction)
        ensures
            match key {
                KeyCode::Char(c) => searched(
                    *old(state),
                    *final(state),
                    old(state).search_input@.push(c),
                ),
                KeyCode::Backspace => searched(
                    *old(state),
                    *final(state),
                    if old(state).search_input@.len() > 0 {
                        old(state).search_input@.drop_last()
                    } else {
                        old(state).search_input@
                    },
                ),
                _ => *final(state) == *old(state),
            },
            reaction@ == stay(),
            old(state).wf() ==> final(state).wf(),
    {
        match key {
            KeyCode::Char(c) => {
                state.search_input.push(c);
                state.apply_search_filter();
            },
            KeyCode::Backspace => {
                let last = state.search_input.pop();
                state.apply_search_filter();
            },
            _ => {},
        }
        Reaction::stay()
    }

    /// Scrolls the preview by half of its panel on a page key.
    pub fn handle_preview_navigation(state: &AppState, preview: &mut GlobalPreviewState, key: KeyCode)
        ensures
            final(preview)@ == match key {
                KeyCode::PageUp => old(preview)@.paged_up(content_height(state.layout.right_area)),
                KeyCode::PageDown => old(preview)@.paged_down(
                    content_height(state.layout.right_area),
                ),
                _ => old(preview)@,
            },
    {
        let visible_height = state.layout.get_right_content_height();
        match key {
            KeyCode::PageUp => {
                PreviewManager::scroll_preview_page_up(preview, visible_height);
            },
            KeyCode::PageDown => {
                PreviewManager::scroll_preview_page_down(preview, visible_height);
            },
            _ => {},
        }
    }

    /// Handles an event of the mouse.
    pub fn handle_mouse_event(
        state: &mut AppState,
        preview: &mut GlobalPreviewState,
        mouse: MouseEvent,
        current_mode: &AppMode,
        facts: DiskFacts,
    ) -> (reaction: Reaction)
        ensures
            mouse_handled(
                *old(state),
                old(preview)@,
                mouse,
                *current_mode,
                facts,
                *final(state),
                final(preview)@,
                reaction@,
            ),
            old(state).wf() ==> final(state).wf(),
    {
        match mouse.kind {
            MouseEventKind::ScrollUp => Self::handle_scroll_navigation(
                state,
                preview,
                mouse,
                current_mode,
            ),
            MouseEventKind::ScrollDown => Self::handle_scroll_navigation(
                state,
                preview,
                mouse,
                current_mode,
            ),
            MouseEventKind::LeftUp => Self::handle_left_click(
                state,
                preview,
                mouse,
                current_mode,
                facts,
            ),
            MouseEventKind::Other => Reaction::stay(),
        }
    }

    /// Handles a turn of the wheel: over the list it moves the selection,
    /// over the preview it scrolls the preview.
    pub fn handle_scroll_navigation(
        state: &mut AppState,
        preview: &mut GlobalPreviewState,
        mouse: MouseEvent,
        current_mode: &AppMode,
    ) -> (reaction: Reaction)
        ensures
            wheel_turned(*old(state), old(preview)@, mouse, *final(state), final(preview)@),
            reaction@ == stay(),
            old(state).wf() ==> final(state).wf(),
    {
        let up = match mouse.kind {
            MouseEventKind::ScrollUp => true,
            _ => false,
        };
        if state.is_point_in_left_panel(mouse.column, mouse.row) {
            let provider = create_data_provider(current_mode);
            if up {
                provider.navigate_up(state, preview);
            } else {
                provider.navigate_down(state, preview);
            }
        } else if state.is_point_in_right_panel(mouse.column, mouse.row) {
            if up {
                PreviewManager::scroll_preview_up(preview);
            } else {
                PreviewManager::scroll_preview_down(preview);
            }
        }
        Reaction::stay()
    }

    /// The row of the list that a click at the cell of `mouse` hits, if it
    /// hits one.
    pub fn resolve_click(state: &AppState, mouse: MouseEvent) -> (row: Option<usize>)
        ensures
            row == click_row(*state, mouse),
    {
        if !state.is_point_in_left_panel(mouse.column, mouse.row) {
            return None;
        }
        let area = state.layout.get_left_area();
        if mouse.row <= area.y {
            return None;
        }
        let visible_row = (mouse.row - area.y - 1) as usize;
        let offset = Self::get_scroll_offset(state);
        let total = state.filtered_files.len();
        if offset > usize::MAX - visible_row {
            return None;
        }
        let index = visible_row + offset;
        if index >= total {
            return None;
        }
        Some(index)
    }

    /// Handles a click of the left button.
    pub fn handle_left_click(
        state: &mut AppState,
        preview: &mut GlobalPreviewState,
        mouse: MouseEvent,
        current_mode: &AppMode,
        facts: DiskFacts,
    ) -> (reaction: Reaction)
        ensures
            clicked(
                *old(state),
                old(preview)@,
                mouse,
                *current_mode,
                facts,
                *final(state),
                final(preview)@,
                reaction@,
            ),
            old(state).wf() ==> final(state).wf(),
    {
        let index = match Self::resolve_click(state, mouse) {
            Some(index) => index,
            None => {
                return Reaction::stay();
            },
        };
        let provider = create_data_provider(current_mode);
        let position = (mouse.column, mouse.row);
        let double = Self::is_double_click(state, position, index, mouse.time_ms);
        provider.set_selected_index(state, Some(index));
        Self::update_double_click_state(state, position, index, mouse.time_ms);
        assert(*state == click_taken(*old(state), mouse, index));
        let item = match state.get_selected_item() {
            Some(item) => item,
            None => {
                return Reaction::stay();
            },
        };
        let request = PreviewManager::update_preview_for_item_async(preview, &item);
        if !double {
            return Reaction::stay();
        }
        match item {
            DisplayItem::File(_) => {
                let outcome = provider.navigate_into_directory(state, facts.selected_is_dir);
                Reaction::of(outcome)
            },
            DisplayItem::History(_) => Reaction {
                action: ModeAction::Exit(Some(item.to_file_item(facts.selected_is_dir))),
                request: Request::Nothing,
            },
        }
    }

    /// Whether a click at `now` on `mouse_position`, which hits row
    /// `clicked_index`, makes a double click with the last one.
    pub fn is_double_click(
        state: &AppState,
        mouse_position: (u16, u16),
        clicked_index: usize,
        now: u64,
    ) -> (r: bool)
        ensures
            r == state.double_click_state.completes(now, mouse_position, clicked_index),
    {
        state.double_click_state.is_double_click(now, mouse_position, clicked_index)
    }

    /// Keeps the click at `now` on `mouse_position`, which hits row
    /// `clicked_index`, as the last one.
    pub fn update_double_click_state(
        state: &mut AppState,
        mouse_position: (u16, u16),
        clicked_index: usize,
        now: u64,
    )
        ensures
            *final(state) == (AppState {
                double_click_state: DoubleClickState {
                    last_click_time: Some(now),
                    last_click_position: Some(mouse_position),
                    last_clicked_index: Some(clicked_index),
                },
                ..*old(state)
            }),
    {
        state.double_click_state.update(now, mouse_position, clicked_index);
    }

    /// The first row of the list that is shown.
    pub fn get_scroll_offset(state: &AppState) -> (offset: usize)
        ensures
            offset == state.file_list_state.offset,
    {
        state.file_list_state.offset
    }
}

} // verus!
