//! The two list modes, and what an input asks the navigator to do next.

use vstd::prelude::*;
use crate::app_state::AppState;
use crate::models::{AppMode, FileItem, FileItemView};

verus! {

/// What the navigator does after an input.
#[derive(Debug, PartialEq)]
pub enum ModeAction {
    /// Stay in the mode.
    Stay,
    /// Go to another mode.
    Switch(AppMode),
    /// Leave, with the item chosen if one was.
    Exit(Option<FileItem>),
}

/// What a [`ModeAction`] is to contracts.
pub enum ModeActionView {
    Stay,
    Switch(AppMode),
    Exit(Option<FileItemView>),
}

impl View for ModeAction {
    type V = ModeActionView;

    open spec fn view(&self) -> ModeActionView {
        match self {
            ModeAction::Stay => ModeActionView::Stay,
            ModeAction::Switch(mode) => ModeActionView::Switch(*mode),
            ModeAction::Exit(Some(file)) => ModeActionView::Exit(Some(file@)),
            ModeAction::Exit(None) => ModeActionView::Exit(None),
        }
    }
}

impl Clone for ModeAction {
    fn clone(&self) -> (copy: Self)
        ensures
            copy@ == self@,
    {
        match self {
            ModeAction::Stay => ModeAction::Stay,
            ModeAction::Switch(mode) => ModeAction::Switch(*mode),
            ModeAction::Exit(Some(file)) => ModeAction::Exit(Some(file.clone())),
            ModeAction::Exit(None) => ModeAction::Exit(None),
        }
    }
}

/// What the caller has to fetch or store after an operation, before it hands
/// the next input to the navigator.
#[derive(Debug, PartialEq)]
pub enum Request {
    /// Nothing.
    Nothing,
    /// List the directory at `path`, or the drives where it is the drive
    /// list's pseudo-path, and hand the listing to `on_directory_changed`.
    LoadDirectory { path: String },
    /// Load the history and hand it to `load_data`.
    LoadHistory,
    /// Record a visit to `path` in the history.
    RecordVisit { path: String },
}

/// What a [`Request`] is to contracts.
pub enum RequestView {
    Nothing,
    LoadDirectory { path: Seq<char> },
    LoadHistory,
    RecordVisit { path: Seq<char> },
}

impl View for Request {
    type V = RequestView;

    open spec fn view(&self) -> RequestView {
        match self {
            Request::Nothing => RequestView::Nothing,
            Request::LoadDirectory { path } => RequestView::LoadDirectory { path: path@ },
            Request::LoadHistory => RequestView::LoadHistory,
            Request::RecordVisit { path } => RequestView::RecordVisit { path: path@ },
        }
    }
}

/// What an input came to: what the navigator does next, and what the caller
/// has to do before.
#[derive(Debug, PartialEq)]
pub struct Reaction {
    pub action: ModeAction,
    pub request: Request,
}

/// What a [`Reaction`] is to contracts.
pub struct ReactionView {
    pub action: ModeActionView,
    pub request: RequestView,
}

impl View for Reaction {
    type V = ReactionView;

    open spec fn view(&self) -> ReactionView {
        ReactionView { action: self.action@, request: self.request@ }
    }
}

/// The reaction that stays in the mode and asks for nothing.
pub open spec fn stay() -> ReactionView {
    ReactionView { action: ModeActionView::Stay, request: RequestView::Nothing }
}

impl Reaction {
    /// The reaction that stays in the mode and asks for nothing.
    pub fn stay() -> (reaction: Reaction)
        ensures
            reaction@ == stay(),
    {
        Reaction { action: ModeAction::Stay, request: Request::Nothing }
    }

    /// The reaction to what an operation of a data provider came to: its
    /// action, or to stay where it has none, and its request.
    pub fn of(outcome: Outcome) -> (reaction: Reaction)
        ensures
            reaction@ == outcome.reaction(),
    {
        match outcome.action {
            Some(action) => Reaction { action, request: outcome.request },
            None => Reaction { action: ModeAction::Stay, request: outcome.request },
        }
    }
}

/// What an operation of a data provider came to.
#[derive(Debug, PartialEq)]
pub struct Outcome {
    /// The mode to go to, if the operation asks for another.
    pub action: Option<ModeAction>,
    /// What the caller has to do.
    pub request: Request,
}

impl Outcome {
    /// The reaction to the outcome: its action, or to stay where it has none,
    /// and its request.
    pub open spec fn reaction(self) -> ReactionView {
        ReactionView {
            action: match self.action {
                Some(action) => action@,
                None => ModeActionView::Stay,
            },
            request: self.request@,
        }
    }

    /// Nothing happened.
    pub fn nothing() -> (outcome: Outcome)
        ensures
            outcome.action is None,
            outcome.request is Nothing,
    {
        Outcome { action: None, request: Request::Nothing }
    }
}

/// Keeps the mode that the navigator is in.
#[derive(Clone, Copy, Debug)]
pub struct ModeManager {
    pub current_mode: AppMode,
}

impl ModeManager {
    /// A manager that starts in `initial_mode`.
    pub fn new(initial_mode: &AppMode) -> (manager: ModeManager)
        ensures
            manager.current_mode == *initial_mode,
    {
        ModeManager { current_mode: *initial_mode }
    }

    /// Goes to `new_mode`: the search is cleared, and the result says what
    /// has to be loaded for the list of the new mode.
    pub fn switch_mode(&mut self, state: &mut AppState, new_mode: &AppMode) -> (request: Request)
        ensures
            final(self).current_mode == *new_mode,
            final(state).search_input@.len() == 0,
            !final(state).is_searching,
            final(state).files == old(state).files,
            final(state).filtered_files == old(state).filtered_files,
            final(state).file_list_state == old(state).file_list_state,
            final(state).current_dir == old(state).current_dir,
            final(state).show_hidden_files == old(state).show_hidden_files,
            final(state).dir_positions == old(state).dir_positions,
            final(state).double_click_state == old(state).double_click_state,
            final(state).layout == old(state).layout,
            match *new_mode {
                AppMode::Normal => request matches Request::LoadDirectory { path } && path@
                    == old(state).current_dir@,
                AppMode::History => request is LoadHistory,
            },
    {
        state.search_input.clear();
        state.is_searching = false;
        self.current_mode = *new_mode;
        match new_mode {
            AppMode::Normal => Request::LoadDirectory { path: state.current_dir.clone() },
            AppMode::History => Request::LoadHistory,
        }
    }

    /// The mode that the navigator is in.
    pub fn get_current_mode(&self) -> (mode: &AppMode)
        ensures
            *mode == self.current_mode,
    {
        &self.current_mode
    }

    /// Whether the navigator is in `mode`.
    pub fn is_mode(&self, mode: &AppMode) -> (r: bool)
        ensures
            r == (self.current_mode == *mode),
    {
        self.current_mode == *mode
    }
}

} // verus!
