//! The navigator as a whole: its state, its mode and its preview, and what
//! an input makes of them.

use vstd::prelude::*;
use crate::app_state::AppState;
use crate::data_provider::{create_data_provider, is_for, settled, Loaded};
use crate::input::{key_handled, mouse_handled, DiskFacts, InputDispatcher, KeyCode, MouseEvent};
use crate::models::{AppMode, FileItem, FileItemView};
use crate::modes::{ModeAction, ModeActionView, ModeManager, Reaction, ReactionView, Request, RequestView};
use crate::preview_state::{cleared, GlobalPreviewState, PreviewStateView};

verus! {

/// The navigator.
#[derive(Debug)]
pub struct App {
    pub state: AppState,
    pub mode_manager: ModeManager,
    pub preview: GlobalPreviewState,
}

/// What the caller does after an input.
#[derive(Debug, PartialEq)]
pub enum Step {
    /// Go on, after doing what `visit` and `load` ask for: record a visit to
    /// a path, then fetch a list and hand it to [`App::take_loaded`].
    /// `entering` says whether the list is that of a mode just entered, and
    /// not that of a directory just changed to.
    Continue { visit: Option<String>, load: Request, entering: bool },
    /// Leave, with the path chosen if one was: restore the terminal, record
    /// the visit and print the path.
    Leave { chosen: Option<String> },
}

/// The path that the navigator leaves with for the item `file`: the item
/// where it is a directory, else the current directory.
pub open spec fn exit_path(file: FileItemView, current_dir: Seq<char>) -> Seq<char> {
    if file.is_dir {
        file.path
    } else {
        current_dir
    }
}

/// The request to load the list of `mode` in the directory `current_dir`.
pub open spec fn load_request(mode: AppMode, current_dir: Seq<char>) -> RequestView {
    match mode {
        AppMode::Normal => RequestView::LoadDirectory { path: current_dir },
        AppMode::History => RequestView::LoadHistory,
    }
}

/// The path to record a visit to, if `request` asks for one.
pub open spec fn visit_of(request: RequestView) -> Option<Seq<char>> {
    match request {
        RequestView::RecordVisit { path } => Some(path),
        _ => None,
    }
}

impl App {
    /// The navigator at its start in `current_dir`, in the mode
    /// `initial_mode`, and the request to load the list of that mode.
    pub fn new(initial_mode: AppMode, current_dir: String) -> (out: (App, Request))
        ensures
            out.0.mode_manager.current_mode == initial_mode,
            out.0.state.current_dir@ == current_dir@,
            out.0.state.files@.len() == 0,
            out.0.state.search_input@.len() == 0,
            out.0.state.filtered_files@.len() == 0,
            out.0.state.file_list_state.selected is None,
            out.0.state.file_list_state.offset == 0,
            !out.0.state.is_searching,
            !out.0.state.show_hidden_files,
            out.0.state.dir_positions@ == Map::<Seq<char>, usize>::empty(),
            !out.0.state.layout.is_set(),
            out.0.state.wf(),
            out.0.preview@ == cleared(),
            out.1@ == load_request(initial_mode, current_dir@),
    {
        let state = AppState::new(current_dir);
        let request = match initial_mode {
            AppMode::Normal => Request::LoadDirectory { path: state.current_dir.clone() },
            AppMode::History => Request::LoadHistory,
        };
        (
            App {
                state,
                mode_manager: ModeManager::new(&initial_mode),
                preview: GlobalPreviewState::new(),
            },
            request,
        )
    }

    /// The path that the navigator leaves with for `file`.
    pub fn exit_path(&self, file: &FileItem) -> (path: String)
        ensures
            path@ == exit_path(file@, self.state.current_dir@),
    {
        if file.is_dir {
            file.path.clone()
        } else {
            self.state.current_dir.clone()
        }
    }

    /// Takes in the list that was fetched for a request. Where `entering`,
    /// it is the list of the mode just entered: it becomes the items, and the
    /// mode selects what it selects on entry, the history its first entry,
    /// the listing nothing. Else, in the listing, it is the list of the
    /// directory just changed to, be that a directory or the drive list: the
    /// search is cleared, the list becomes the items, the row remembered for
    /// the directory is selected and the preview is cleared. Else it becomes
    /// the items and nothing more. The result says whether the list was for
    /// the mode; where it was not, nothing changes.
    pub fn take_loaded(&mut self, loaded: &Loaded, entering: bool) -> (done: bool)
        ensures
            done == is_for(old(self).mode_manager.current_mode, *loaded),
            final(self).mode_manager == old(self).mode_manager,
            !done ==> final(self).state == old(self).state && final(self).preview@ == old(
                self,
            ).preview@,
            done ==> taken(
                old(self).state,
                old(self).preview@,
                old(self).mode_manager.current_mode,
                *loaded,
                entering,
                final(self).state,
                final(self).preview@,
            ),
    {
        let mode = self.mode_manager.current_mode;
        let provider = create_data_provider(&mode);
        if !provider.accepts(loaded) {
            return false;
        }
        if entering {
            provider.load_data(&mut self.state, loaded);
            self.mode_manager.on_enter(&mut self.state);
        } else {
            match mode {
                AppMode::Normal => {
                    self.state.search_input.clear();
                    self.state.is_searching = false;
                    provider.load_data(&mut self.state, loaded);
                    provider.restore_position(&mut self.state);
                    self.preview.clear_preview();
                },
                AppMode::History => {
                    provider.load_data(&mut self.state, loaded);
                },
            }
        }
        true
    }

    /// Handles a key, and acts on what it asks for.
    pub fn handle_key_event(&mut self, key: KeyCode, facts: DiskFacts) -> (step: Step)
        ensures
            exists|between: AppState, reaction: ReactionView|
                key_handled(
                    old(self).state,
                    old(self).preview@,
                    key,
                    old(self).mode_manager.current_mode,
                    facts,
                    between,
                    final(self).preview@,
                    reaction,
                ) && acted(
                    between,
                    old(self).mode_manager.current_mode,
                    reaction,
                    final(self).state,
                    final(self).mode_manager.current_mode,
                    step,
                ),
    {
        let mode = self.mode_manager.current_mode;
        let reaction = InputDispatcher::handle_key_event(
            &mut self.state,
            &mut self.preview,
            key,
            &mode,
            facts,
        );
        let ghost between = self.state;
        let ghost asked = reaction@;
        let step = self.handle_action(reaction);
        proof {
            assert(key_handled(
                old(self).state,
                old(self).preview@,
                key,
                old(self).mode_manager.current_mode,
                facts,
                between,
                self.preview@,
                asked,
            ) && acted(
                between,
                old(self).mode_manager.current_mode,
                asked,
                self.state,
                self.mode_manager.current_mode,
                step,
            ));
        }
        step
    }

    /// Handles an event of the mouse, and acts on what it asks for.
    pub fn handle_mouse_event(&mut self, mouse: MouseEvent, facts: DiskFacts) -> (step: Step)
        ensures
            exists|between: AppState, reaction: ReactionView|
                mouse_handled(
                    old(self).state,
                    old(self).preview@,
                    mouse,
                    old(self).mode_manager.current_mode,
                    facts,
                    between,
                    final(self).preview@,
                    reaction,
                ) && acted(
                    between,
                    old(self).mode_manager.current_mode,
                    reaction,
                    final(self).state,
                    final(self).mode_manager.current_mode,
                    step,
                ),
    {
        let mode = self.mode_manager.current_mode;
        let reaction = InputDispatcher::handle_mouse_event(
            &mut self.state,
            &mut self.preview,
            mouse,
            &mode,
            facts,
        );
        let ghost between = self.state;
        let ghost asked = reaction@;
        let step = self.handle_action(reaction);
        proof {
            assert(mouse_handled(
                old(self).state,
                old(self).preview@,
                mouse,
                old(self).mode_manager.current_mode,
                facts,
                between,
                self.preview@,
                asked,
            ) && acted(
                between,
                old(self).mode_manager.current_mode,
                asked,
                self.state,
                self.mode_manager.current_mode,
                step,
            ));
        }
        step
    }

    /// Acts on what an input asks for: stays, or goes to another mode, whose
    /// list is then to be loaded, or leaves.
    pub fn handle_action(&mut self, reaction: Reaction) -> (step: Step)
        ensures
            acted(
                old(self).state,
                old(self).mode_manager.current_mode,
                reaction@,
                final(self).state,
                final(self).mode_manager.current_mode,
                step,
            ),
            final(self).preview@ == old(self).preview@,
    {
        match reaction.action {
            ModeAction::Stay => {
                match reaction.request {
                    Request::RecordVisit { path } => Step::Continue {
                        visit: Some(path),
                        load: Request::Nothing,
                        entering: false,
                    },
                    other => Step::Continue { visit: None, load: other, entering: false },
                }
            },
            ModeAction::Switch(new_mode) => {
                let visit = match reaction.request {
                    Request::RecordVisit { path } => Some(path),
                    _ => None,
                };
                let load = self.mode_manager.switch_mode(&mut self.state, &new_mode);
                Step::Continue { visit, load, entering: true }
            },
            ModeAction::Exit(Some(file)) => Step::Leave { chosen: Some(self.exit_path(&file)) },
            ModeAction::Exit(None) => Step::Leave { chosen: None },
        }
    }
}

/// What taking in the list `loaded` makes of the state and the preview in
/// the mode `mode`. On entering the mode the list becomes the items and the
/// history selects its first entry. On a change of directory in the listing
/// the search is cleared, the list becomes the items, the row remembered
/// for the directory is selected and the preview is cleared. Else the list
/// becomes the items and nothing is selected.
pub open spec fn taken(
    before: AppState,
    preview_before: PreviewStateView,
    mode: AppMode,
    loaded: Loaded,
    entering: bool,
    after: AppState,
    preview_after: PreviewStateView,
) -> bool {
    if entering {
        &&& settled(
            before,
            after,
            loaded,
            false,
            if mode == AppMode::History && after.total() > 0 {
                Some(0usize)
            } else {
                None
            },
        )
        &&& preview_after == preview_before
    } else if mode == AppMode::Normal {
        &&& settled(before, after, loaded, true, after.restored_selection())
        &&& preview_after == preview_before.emptied()
    } else {
        &&& settled(before, after, loaded, false, None)
        &&& preview_after == preview_before
    }
}

/// What acting on `reaction` makes of the state `before` in the mode `mode`.
/// To stay changes nothing and hands the request on. To go to another mode
/// clears the search and asks for the list of that mode. To leave changes
/// nothing and gives the path to leave with.
pub open spec fn acted(
    before: AppState,
    mode: AppMode,
    reaction: ReactionView,
    after: AppState,
    mode_after: AppMode,
    step: Step,
) -> bool {
    match reaction.action {
        ModeActionView::Stay => {
            &&& after == before
            &&& mode_after == mode
            &&& step matches Step::Continue { visit, load, entering }
            &&& !entering
            &&& visit.is_some() == visit_of(reaction.request).is_some()
            &&& (visit matches Some(path) ==> visit_of(reaction.request) == Some(path@))
            &&& load@ == if visit_of(reaction.request).is_some() {
                RequestView::Nothing
            } else {
                reaction.request
            }
        },
        ModeActionView::Switch(new_mode) => {
            &&& mode_after == new_mode
            &&& after.search_input@.len() == 0
            &&& !after.is_searching
            &&& after.files == before.files
            &&& after.filtered_files == before.filtered_files
            &&& after.file_list_state == before.file_list_state
            &&& after.current_dir == before.current_dir
            &&& after.show_hidden_files == before.show_hidden_files
            &&& after.dir_positions == before.dir_positions
            &&& after.double_click_state == before.double_click_state
            &&& after.layout == before.layout
            &&& step matches Step::Continue { visit, load, entering }
            &&& entering
            &&& visit.is_some() == visit_of(reaction.request).is_some()
            &&& (visit matches Some(path) ==> visit_of(reaction.request) == Some(path@))
            &&& load@ == load_request(new_mode, before.current_dir@)
        },
        ModeActionView::Exit(file) => {
            &&& after == before
            &&& mode_after == mode
            &&& step matches Step::Leave { chosen }
            &&& chosen.is_some() == file.is_some()
            &&& (chosen matches Some(path) ==> path@ == exit_path(file->0, before.current_dir@))
        },
    }
}

} // verus!
