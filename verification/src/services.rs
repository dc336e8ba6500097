//! Shorthands for what the modes do to the state.

use vstd::prelude::*;
use crate::app_state::{AppState, DoubleClickState, ListState};
use crate::data_provider::FileListDataProvider;
use crate::input::{key_handled, mouse_handled, DiskFacts, InputDispatcher, KeyCode, MouseEvent};
use crate::models::AppMode;
use crate::modes::Reaction;
use crate::preview_state::GlobalPreviewState;

verus! {

/// Steps through a list that has no preview attached.
#[derive(Clone, Copy, Debug)]
pub struct NavigationHelper;

impl NavigationHelper {
    /// Selects the row above the selected one. Nothing happens at the first
    /// row and without a selection.
    pub fn navigate_up(state: &mut ListState, list_len: usize) -> (moved: bool)
        ensures
            moved == (old(state).selected matches Some(row) && row > 0),
            final(state).offset == old(state).offset,
            final(state).selected == if moved {
                Some((old(state).selected->0 - 1) as usize)
            } else {
                old(state).selected
            },
    {
        match state.selected {
            Some(row) => {
                if row > 0 {
                    state.selected = Some(row - 1);
                    return true;
                }
                false
            },
            None => false,
        }
    }

    /// Selects the row below the selected one, or the first row where none
    /// is selected. Nothing happens at the last row and in an empty list.
    pub fn navigate_down(state: &mut ListState, list_len: usize) -> (moved: bool)
        ensures
            moved == match old(state).selected {
                Some(row) => row + 1 < list_len,
                None => list_len > 0,
            },
            final(state).offset == old(state).offset,
            final(state).selected == if moved {
                match old(state).selected {
                    Some(row) => Some((row + 1) as usize),
                    None => Some(0usize),
                }
            } else {
                old(state).selected
            },
            old(state).wf(list_len as nat) ==> final(state).wf(list_len as nat),
    {
        match state.selected {
            Some(row) => {
                if list_len > 0 && row < list_len - 1 {
                    state.selected = Some(row + 1);
                    return true;
                }
                false
            },
            None => {
                if list_len > 0 {
                    state.selected = Some(0);
                    return true;
                }
                false
            },
        }
    }
}

/// What the modes have in common.
#[derive(Clone, Copy, Debug)]
pub struct CommonModeLogic;

impl CommonModeLogic {
    /// Forgets the last click.
    pub fn reset_double_click_state(state: &mut AppState)
        ensures
            *final(state) == (AppState {
                double_click_state: DoubleClickState {
                    last_click_time: None,
                    last_click_position: None,
                    last_clicked_index: None,
                },
                ..*old(state)
            }),
    {
        state.double_click_state.reset();
    }
}

/// Changes of the state that the modes ask for.
#[derive(Clone, Copy, Debug)]
pub struct StateService;

impl StateService {
    /// Recomputes the filter for the search text, and drops the selection.
    pub fn apply_search_filter(state: &mut AppState)
        ensures
            final(state).filter_is_current(),
            final(state).file_list_state.selected is None,
            final(state).file_list_state.offset == old(state).file_list_state.offset,
            final(state).files == old(state).files,
            final(state).search_input == old(state).search_input,
            final(state).is_searching == old(state).is_searching,
            final(state).show_hidden_files == old(state).show_hidden_files,
            final(state).current_dir == old(state).current_dir,
            final(state).dir_positions == old(state).dir_positions,
            final(state).double_click_state == old(state).double_click_state,
            final(state).layout == old(state).layout,
            final(state).wf(),
    {
        state.apply_search_filter();
    }

    /// Remembers the selected row for the current directory.
    pub fn save_current_position(state: &mut AppState)
        ensures
            final(state).dir_positions@ == match old(state).file_list_state.selected {
                Some(row) => old(state).dir_positions@.insert(old(state).current_dir@, row),
                None => old(state).dir_positions@,
            },
            final(state).same_list(old(state)),
            final(state).current_dir == old(state).current_dir,
    {
        FileListDataProvider.save_position(state);
    }

    /// Selects the row remembered for the current directory.
    pub fn restore_position(state: &mut AppState)
        ensures
            final(state).file_list_state.selected == old(state).restored_selection(),
            final(state).file_list_state.offset == old(state).file_list_state.offset,
            final(state).same_but_list_state(old(state)),
    {
        FileListDataProvider.restore_position(state);
    }

    /// Selects the first row of the history list, if it has one.
    pub fn initialize_history_mode(state: &mut AppState)
        ensures
            final(state).file_list_state.selected == if old(state).total() > 0 {
                Some(0usize)
            } else {
                None
            },
            final(state).file_list_state.offset == old(state).file_list_state.offset,
            final(state).same_but_list_state(old(state)),
            final(state).file_list_state.wf(final(state).total()),
    {
        if state.filtered_files.len() > 0 {
            state.file_list_state.selected = Some(0);
        } else {
            state.file_list_state.selected = None;
        }
    }
}

/// Hands inputs to the dispatcher.
#[derive(Clone, Copy, Debug)]
pub struct ActionDispatcher;

impl ActionDispatcher {
    /// Handles a key.
    pub fn handle_key_event(
        state: &mut AppState,
        preview: &mut GlobalPreviewState,
        key: KeyCode,
        current_mode: &AppMode,
        facts: DiskFacts,
    ) -> (reaction: Reaction)
        ensures
            key_handled(
                *old(state),
                old(preview)@,
                key,
                *current_mode,
                facts,
                *final(state),
                final(preview)@,
                reaction@,
            ),
    {
        InputDispatcher::handle_key_event(state, preview, key, current_mode, facts)
    }

    /// Handles an event of the mouse.
    pub fn handle_mouse_event(
        state: &mut AppState,
        preview: &mut GlobalPreviewState,
        mouse: MouseEvent,
        current_mode: &AppMode,
        facts: DiskFacts,
    ) -> (reaction: Reaction)
        ensures
            mouse_handled(
                *old(state),
                old(preview)@,
                mouse,
                *current_mode,
                facts,
                *final(state),
                final(preview)@,
                reaction@,
            ),
    {
        InputDispatcher::handle_mouse_event(state, preview, mouse, current_mode, facts)
    }
}

} // verus!
