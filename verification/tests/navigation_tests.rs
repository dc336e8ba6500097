use quickswitch::app_state::{AppState, DoubleClickState, ListState};
use quickswitch::data_provider::{
    create_data_provider, DataProviderType, FileListDataProvider, HistoryDataProvider, Loaded,
};
use quickswitch::history::HistoryEntry;
use quickswitch::input::{
    key_to_navigation_action, DiskFacts, InputDispatcher, KeyCode, MouseEvent, MouseEventKind,
    NavigationAction,
};
use quickswitch::layout::Rect;
use quickswitch::models::{AppMode, DisplayItem, FileItem, Timestamp};
use quickswitch::modes::{ModeAction, ModeManager, Reaction, Request};
use quickswitch::positions::DirPositions;
use quickswitch::preview_state::GlobalPreviewState;

fn entry(name: &str, is_dir: bool) -> FileItem {
    FileItem { name: name.to_string(), path: format!("/work/{}", name), is_dir }
}

fn facts() -> DiskFacts {
    DiskFacts { selected_is_dir: true, current_is_dir: true, has_drive_letters: false }
}

fn listing() -> Vec<FileItem> {
    vec![entry("c.txt", false), entry("b", true), entry("a", true)]
}

fn loaded_state(entries: Vec<FileItem>) -> AppState {
    let mut state = AppState::new("/work".to_string());
    state.update_layout(Rect::new(0, 0, 100, 50));
    let provider = create_data_provider(&AppMode::Normal);
    assert!(provider.load_data(&mut state, &Loaded::Directory { entries }));
    state
}

fn selected_name(state: &AppState) -> Option<String> {
    state.get_selected_item().map(|item| item.get_display_name())
}

fn shown_names(state: &AppState) -> Vec<String> {
    let provider = create_data_provider(&AppMode::Normal);
    provider.get_items(state).iter().map(|item| item.get_display_name()).collect()
}

fn key(state: &mut AppState, preview: &mut GlobalPreviewState, code: KeyCode, mode: AppMode) -> Reaction {
    InputDispatcher::handle_key_event(state, preview, code, &mode, facts())
}

#[test]
fn three_steps_down_reach_the_last_entry_and_stay() {
    let mut state = loaded_state(listing());
    let mut preview = GlobalPreviewState::new();
    let provider = create_data_provider(&AppMode::Normal);
    assert_eq!(shown_names(&state), vec!["a", "b", "c.txt"]);
    assert_eq!(provider.get_total_count(&state), 3);
    assert_eq!(selected_name(&state), None);

    assert!(provider.navigate_down(&mut state, &mut preview));
    assert_eq!(selected_name(&state), Some("a".to_string()));
    assert_eq!(preview.get_identity(), Some("/work/a".to_string()));
    assert!(provider.navigate_down(&mut state, &mut preview));
    assert_eq!(selected_name(&state), Some("b".to_string()));
    assert!(provider.navigate_down(&mut state, &mut preview));
    assert_eq!(selected_name(&state), Some("c.txt".to_string()));
    assert_eq!(preview.get_identity(), Some("/work/c.txt".to_string()));
    assert_eq!(preview.get_title(), "\u{1F4C4} c.txt");

    assert!(!provider.navigate_down(&mut state, &mut preview));
    assert_eq!(selected_name(&state), Some("c.txt".to_string()));
    assert_eq!(provider.get_selected_index(&state), Some(2));
}

#[test]
fn going_up_stops_at_the_first_entry() {
    let mut state = loaded_state(listing());
    let mut preview = GlobalPreviewState::new();
    let provider = create_data_provider(&AppMode::Normal);
    assert!(provider.navigate_up(&mut state, &mut preview));
    assert_eq!(selected_name(&state), Some("c.txt".to_string()));
    assert!(provider.navigate_up(&mut state, &mut preview));
    assert!(provider.navigate_up(&mut state, &mut preview));
    assert_eq!(selected_name(&state), Some("a".to_string()));
    let identity = preview.get_identity();
    assert!(!provider.navigate_up(&mut state, &mut preview));
    assert_eq!(state.file_list_state.selected, Some(0));
    assert_eq!(preview.get_identity(), identity);
}

#[test]
fn an_empty_list_cannot_be_walked() {
    let mut state = AppState::new("/work".to_string());
    let mut preview = GlobalPreviewState::new();
    let provider = create_data_provider(&AppMode::History);
    assert!(!provider.navigate_down(&mut state, &mut preview));
    assert!(!provider.navigate_up(&mut state, &mut preview));
    assert!(!provider.navigate_half_page_down(&mut state, &mut preview, 10));
    assert!(!provider.navigate_half_page_up(&mut state, &mut preview, 10));
    assert_eq!(state.file_list_state.selected, None);
    assert_eq!(preview.get_identity(), None);
}

#[test]
fn half_pages_move_by_half_the_panel_within_the_list() {
    let entries: Vec<FileItem> = (0..40).map(|i| entry(&format!("f{:02}", i), false)).collect();
    let mut state = loaded_state(entries);
    let mut preview = GlobalPreviewState::new();
    let provider = create_data_provider(&AppMode::Normal);
    assert!(provider.navigate_half_page_down(&mut state, &mut preview, 10));
    assert_eq!(state.file_list_state.selected, Some(0));
    assert!(provider.navigate_half_page_down(&mut state, &mut preview, 10));
    assert_eq!(state.file_list_state.selected, Some(5));
    assert!(provider.navigate_half_page_down(&mut state, &mut preview, 10));
    assert_eq!(state.file_list_state.selected, Some(10));
    assert_eq!(state.file_list_state.offset, 1);
    for _ in 0..10 {
        provider.navigate_half_page_down(&mut state, &mut preview, 10);
    }
    assert_eq!(state.file_list_state.selected, Some(39));
    assert_eq!(state.file_list_state.offset, 30);
    assert!(!provider.navigate_half_page_down(&mut state, &mut preview, 10));
    assert!(provider.navigate_half_page_up(&mut state, &mut preview, 10));
    assert_eq!(state.file_list_state.selected, Some(34));
    assert_eq!(state.file_list_state.offset, 30);
    assert!(provider.navigate_half_page_up(&mut state, &mut preview, 1));
    assert_eq!(state.file_list_state.selected, Some(33));
    for _ in 0..10 {
        provider.navigate_half_page_up(&mut state, &mut preview, 10);
    }
    assert_eq!(state.file_list_state.selected, Some(0));
    assert_eq!(state.file_list_state.offset, 0);
    assert!(!provider.navigate_half_page_up(&mut state, &mut preview, 10));
}

#[test]
fn the_list_state_keeps_the_selection_in_view() {
    let mut list = ListState { selected: Some(12), offset: 3 };
    list.scroll_into_view(5);
    assert_eq!(list.offset, 8);
    let mut list = ListState { selected: Some(2), offset: 3 };
    list.scroll_into_view(5);
    assert_eq!(list.offset, 2);
    let mut list = ListState { selected: Some(7), offset: 3 };
    list.scroll_into_view(5);
    assert_eq!(list.offset, 3);
    list.scroll_into_view(0);
    assert_eq!(list.offset, 3);
    let mut list = ListState::new();
    assert!(list.go_down(3, 1, 10));
    assert!(list.go_down(3, 5, 10));
    assert_eq!(list.selected, Some(2));
    assert!(!list.go_down(3, 1, 10));
    assert!(list.go_up(3, 7, 10));
    assert_eq!(list.selected, Some(0));
    assert!(!list.go_up(3, 1, 10));
}

#[test]
fn typing_filters_and_backspace_restores() {
    let entries = vec![
        entry("Test.md", false),
        entry("notes.txt", false),
        entry("TEMPLATE", true),
        entry("late.rs", false),
        entry("other", false),
    ];
    let mut state = loaded_state(entries);
    let mut preview = GlobalPreviewState::new();
    assert_eq!(key(&mut state, &mut preview, KeyCode::Char('/'), AppMode::Normal), Reaction::stay());
    assert!(state.is_searching);
    let all = shown_names(&state);
    assert_eq!(all, vec!["TEMPLATE", "Test.md", "late.rs", "notes.txt", "other"]);

    key(&mut state, &mut preview, KeyCode::Char('t'), AppMode::Normal);
    let after_t = state.filtered_files.clone();
    assert_eq!(shown_names(&state), vec!["TEMPLATE", "Test.md", "late.rs", "notes.txt", "other"]);
    key(&mut state, &mut preview, KeyCode::Char('e'), AppMode::Normal);
    assert_eq!(state.search_input, "te");
    assert_eq!(shown_names(&state), vec!["TEMPLATE", "Test.md", "late.rs", "notes.txt"]);
    assert_eq!(state.file_list_state.selected, None);

    key(&mut state, &mut preview, KeyCode::Backspace, AppMode::Normal);
    assert_eq!(state.search_input, "t");
    assert_eq!(state.filtered_files, after_t);
    key(&mut state, &mut preview, KeyCode::Backspace, AppMode::Normal);
    key(&mut state, &mut preview, KeyCode::Backspace, AppMode::Normal);
    assert_eq!(state.search_input, "");
    assert_eq!(shown_names(&state), all);
}

#[test]
fn the_search_matches_upper_case_text_too() {
    let mut state = loaded_state(vec![entry("Readme.MD", false), entry("main.rs", false)]);
    state.search_input = "EADME.m".to_string();
    state.apply_search_filter();
    assert_eq!(shown_names(&state), vec!["Readme.MD"]);
    state.search_input = "zzz".to_string();
    state.apply_search_filter();
    assert!(shown_names(&state).is_empty());
    state.reset_filter();
    assert_eq!(shown_names(&state), vec!["Readme.MD", "main.rs"]);
}

#[test]
fn hidden_files_are_shown_on_demand() {
    let mut state = loaded_state(vec![entry(".git", true), entry("src", true)]);
    assert_eq!(shown_names(&state), vec!["src"]);
    state.toggle_hidden_files();
    assert_eq!(shown_names(&state), vec![".", "..", ".git", "src"]);
    state.toggle_hidden_files();
    assert_eq!(shown_names(&state), vec!["src"]);
    assert_eq!(state.files.len(), 4);
}

#[test]
fn letters_go_to_the_search_while_it_is_typed() {
    let mut state = loaded_state(listing());
    let mut preview = GlobalPreviewState::new();
    key(&mut state, &mut preview, KeyCode::Char('/'), AppMode::Normal);
    for c in ['j', 'k', 'v', '/', 'b'] {
        assert_eq!(key(&mut state, &mut preview, KeyCode::Char(c), AppMode::Normal), Reaction::stay());
    }
    assert_eq!(state.search_input, "jkv/b");
    assert_eq!(state.file_list_state.selected, None);
    assert_eq!(key(&mut state, &mut preview, KeyCode::Esc, AppMode::Normal), Reaction::stay());
    assert!(!state.is_searching);
    assert_eq!(state.search_input, "jkv/b");
}

#[test]
fn keys_walk_the_list_and_leave() {
    let mut state = loaded_state(listing());
    let mut preview = GlobalPreviewState::new();
    assert_eq!(key(&mut state, &mut preview, KeyCode::Char('j'), AppMode::Normal), Reaction::stay());
    assert_eq!(key(&mut state, &mut preview, KeyCode::Down, AppMode::Normal), Reaction::stay());
    assert_eq!(selected_name(&state), Some("b".to_string()));
    key(&mut state, &mut preview, KeyCode::Char('k'), AppMode::Normal);
    assert_eq!(selected_name(&state), Some("a".to_string()));
    key(&mut state, &mut preview, KeyCode::Char('b'), AppMode::Normal);
    assert_eq!(selected_name(&state), Some("c.txt".to_string()));
    key(&mut state, &mut preview, KeyCode::Char('f'), AppMode::Normal);
    assert_eq!(selected_name(&state), Some("a".to_string()));
    key(&mut state, &mut preview, KeyCode::Other, AppMode::Normal);
    assert_eq!(selected_name(&state), Some("a".to_string()));

    let reaction = key(&mut state, &mut preview, KeyCode::Enter, AppMode::Normal);
    assert_eq!(
        reaction,
        Reaction { action: ModeAction::Exit(Some(entry("a", true))), request: Request::Nothing }
    );

    assert_eq!(key(&mut state, &mut preview, KeyCode::Esc, AppMode::Normal), Reaction::stay());
    assert_eq!(state.file_list_state.selected, None);
    assert_eq!(preview.get_identity(), None);
    assert_eq!(preview.get_title(), "Preview");
    let reaction = key(&mut state, &mut preview, KeyCode::Esc, AppMode::Normal);
    assert_eq!(reaction, Reaction { action: ModeAction::Exit(None), request: Request::Nothing });

    let reaction = key(&mut state, &mut preview, KeyCode::Enter, AppMode::Normal);
    let here = FileItem { name: "work".to_string(), path: "/work".to_string(), is_dir: true };
    assert_eq!(
        reaction,
        Reaction { action: ModeAction::Exit(Some(here)), request: Request::Nothing }
    );
}

#[test]
fn mode_keys_switch_modes() {
    let mut state = loaded_state(listing());
    let mut preview = GlobalPreviewState::new();
    let to_history =
        Reaction { action: ModeAction::Switch(AppMode::History), request: Request::Nothing };
    let to_normal =
        Reaction { action: ModeAction::Switch(AppMode::Normal), request: Request::Nothing };
    assert_eq!(key(&mut state, &mut preview, KeyCode::Char('v'), AppMode::Normal), to_history);
    assert_eq!(key(&mut state, &mut preview, KeyCode::Char('v'), AppMode::History), Reaction::stay());
    assert_eq!(key(&mut state, &mut preview, KeyCode::Esc, AppMode::History), to_normal);
    assert_eq!(key(&mut state, &mut preview, KeyCode::Left, AppMode::History), to_normal);
    assert_eq!(key(&mut state, &mut preview, KeyCode::Char('h'), AppMode::History), to_normal);
}

#[test]
fn keys_name_their_steps() {
    assert_eq!(key_to_navigation_action(KeyCode::Up), Some(NavigationAction::Up));
    assert_eq!(key_to_navigation_action(KeyCode::Char('k')), Some(NavigationAction::Up));
    assert_eq!(key_to_navigation_action(KeyCode::Char('j')), Some(NavigationAction::Down));
    assert_eq!(key_to_navigation_action(KeyCode::Char('h')), Some(NavigationAction::Left));
    assert_eq!(key_to_navigation_action(KeyCode::Right), Some(NavigationAction::Right));
    assert_eq!(key_to_navigation_action(KeyCode::Enter), Some(NavigationAction::Select));
    assert_eq!(key_to_navigation_action(KeyCode::Esc), Some(NavigationAction::Cancel));
    assert_eq!(key_to_navigation_action(KeyCode::Char('x')), None);
    assert_eq!(key_to_navigation_action(KeyCode::PageUp), None);
}

#[test]
fn entering_a_directory_asks_for_its_listing_and_remembers_the_row() {
    let mut state = loaded_state(listing());
    let mut preview = GlobalPreviewState::new();
    key(&mut state, &mut preview, KeyCode::Down, AppMode::Normal);
    key(&mut state, &mut preview, KeyCode::Down, AppMode::Normal);
    state.search_input = "x".to_string();
    let reaction = key(&mut state, &mut preview, KeyCode::Right, AppMode::Normal);
    assert_eq!(
        reaction,
        Reaction {
            action: ModeAction::Stay,
            request: Request::LoadDirectory { path: "/work/b".to_string() },
        }
    );
    assert_eq!(state.current_dir, "/work/b");
    assert_eq!(state.dir_positions.get("/work"), Some(1));

    FileListDataProvider.on_directory_changed(&mut state, &mut preview, &vec![entry("x", false)]);
    assert_eq!(state.search_input, "");
    assert!(!state.is_searching);
    assert_eq!(shown_names(&state), vec!["x"]);
    assert_eq!(state.file_list_state.selected, None);
    assert_eq!(preview.get_identity(), None);

    let reaction = key(&mut state, &mut preview, KeyCode::Left, AppMode::Normal);
    assert_eq!(
        reaction,
        Reaction {
            action: ModeAction::Stay,
            request: Request::LoadDirectory { path: "/work".to_string() },
        }
    );
    assert_eq!(state.current_dir, "/work");
    FileListDataProvider.on_directory_changed(&mut state, &mut preview, &listing());
    assert_eq!(selected_name(&state), Some("b".to_string()));

    key(&mut state, &mut preview, KeyCode::Down, AppMode::Normal);
    let reaction = key(&mut state, &mut preview, KeyCode::Char('l'), AppMode::Normal);
    assert_eq!(reaction, Reaction::stay());
    assert_eq!(state.current_dir, "/work");
}

#[test]
fn a_remembered_row_beyond_the_list_becomes_the_last_row() {
    let mut state = loaded_state(listing());
    state.dir_positions.insert("/work".to_string(), 7);
    FileListDataProvider.restore_position(&mut state);
    assert_eq!(state.file_list_state.selected, Some(2));
    state.dir_positions.insert("/work".to_string(), 1);
    FileListDataProvider.restore_position(&mut state);
    assert_eq!(state.file_list_state.selected, Some(1));
    let mut empty = AppState::new("/work".to_string());
    empty.dir_positions.insert("/work".to_string(), 1);
    FileListDataProvider.restore_position(&mut empty);
    assert_eq!(empty.file_list_state.selected, None);
    let mut other = loaded_state(listing());
    other.file_list_state.selected = Some(1);
    other.current_dir = "/elsewhere".to_string();
    FileListDataProvider.restore_position(&mut other);
    assert_eq!(other.file_list_state.selected, None);
}

#[test]
fn positions_are_kept_by_directory() {
    let mut positions = DirPositions::new();
    assert_eq!(positions.get("/a"), None);
    positions.insert("/a".to_string(), 3);
    positions.insert("/b".to_string(), 5);
    positions.insert("/a".to_string(), 4);
    assert_eq!(positions.get("/a"), Some(4));
    assert_eq!(positions.get("/b"), Some(5));
    assert_eq!(positions.get("/c"), None);
    let mut state = loaded_state(listing());
    FileListDataProvider.save_position(&mut state);
    assert_eq!(state.dir_positions.get("/work"), None);
    state.file_list_state.selected = Some(2);
    FileListDataProvider.save_position(&mut state);
    assert_eq!(state.dir_positions.get("/work"), Some(2));
}

#[test]
fn the_way_up_ends_at_the_root() {
    let mut state = AppState::new("/".to_string());
    let outcome = FileListDataProvider.navigate_to_parent(&mut state, false);
    assert_eq!(outcome.action, None);
    assert_eq!(outcome.request, Request::Nothing);
    assert_eq!(state.current_dir, "/");

    assert!(FileListDataProvider.is_windows_drive_root("C:\\"));
    assert!(FileListDataProvider.is_windows_drive_root("z:\\"));
    assert!(!FileListDataProvider.is_windows_drive_root("C:\\x"));
    assert!(!FileListDataProvider.is_windows_drive_root("1:\\"));
    assert!(!FileListDataProvider.is_windows_drive_root("C:/"));
    assert!(!FileListDataProvider.is_windows_drive_root("/"));
    let mut drives = AppState::new("DRIVES:".to_string());
    let outcome = FileListDataProvider.navigate_to_parent(&mut drives, true);
    assert_eq!(outcome.request, Request::Nothing);
    assert_eq!(drives.current_dir, "DRIVES:");
    let mut nested = AppState::new("/home/user".to_string());
    nested.file_list_state.selected = Some(4);
    let outcome = FileListDataProvider.navigate_to_parent(&mut nested, true);
    assert_eq!(outcome.request, Request::LoadDirectory { path: "/home".to_string() });
    assert_eq!(nested.current_dir, "/home");
    assert_eq!(nested.dir_positions.get("/home/user"), Some(4));
}

#[test]
fn the_history_list_leads_back_to_the_listing() {
    let mut state = AppState::new("/work".to_string());
    let mut preview = GlobalPreviewState::new();
    let provider = create_data_provider(&AppMode::History);
    let history = vec![
        HistoryEntry::at("/home/x".to_string(), Timestamp { secs: 10, nanos: 0 }),
        HistoryEntry::at("/home/y".to_string(), Timestamp { secs: 20, nanos: 0 }),
    ];
    let loaded = Loaded::History {
        history,
        exists: vec![true, true],
        now: Timestamp { secs: 30, nanos: 0 },
    };
    assert!(provider.load_data(&mut state, &loaded));
    assert!(!create_data_provider(&AppMode::Normal).load_data(&mut state, &loaded));
    assert!(!provider.load_data(&mut state, &Loaded::Directory { entries: vec![] }));
    assert_eq!(state.files.len(), 2);
    assert!(matches!(state.files[0], DisplayItem::History(_)));

    let outcome = provider.navigate_into_directory(&mut state, true);
    assert_eq!(outcome.action, None);
    assert_eq!(outcome.request, Request::Nothing);

    provider.navigate_down(&mut state, &mut preview);
    let outcome = provider.navigate_into_directory(&mut state, false);
    assert_eq!(outcome.action, None);
    assert_eq!(state.current_dir, "/work");
    let outcome = provider.navigate_into_directory(&mut state, true);
    assert_eq!(outcome.action, Some(ModeAction::Switch(AppMode::Normal)));
    assert_eq!(outcome.request, Request::RecordVisit { path: "/home/x".to_string() });
    assert_eq!(state.current_dir, "/home/x");

    let outcome = HistoryDataProvider.navigate_to_parent(&mut state);
    assert_eq!(outcome.action, Some(ModeAction::Switch(AppMode::Normal)));
    assert!(provider.navigate_to_selected(&mut state));
    assert!(matches!(provider, DataProviderType::History(_)));
}

#[test]
fn switching_to_the_history_and_back_restores_the_listing() {
    let mut state = loaded_state(listing());
    let mut manager = ModeManager::new(&AppMode::Normal);
    let before = state.files.clone();
    state.search_input = "b".to_string();
    state.is_searching = true;
    state.apply_search_filter();

    let request = manager.switch_mode(&mut state, &AppMode::History);
    assert_eq!(request, Request::LoadHistory);
    assert!(manager.is_mode(&AppMode::History));
    assert_eq!(state.search_input, "");
    let history = Loaded::History {
        history: vec![HistoryEntry::at("/home/x".to_string(), Timestamp { secs: 1, nanos: 0 })],
        exists: vec![true],
        now: Timestamp { secs: 2, nanos: 0 },
    };
    assert!(create_data_provider(manager.get_current_mode()).load_data(&mut state, &history));
    assert_eq!(state.files.len(), 1);

    let request = manager.switch_mode(&mut state, &AppMode::Normal);
    assert_eq!(request, Request::LoadDirectory { path: "/work".to_string() });
    assert_eq!(*manager.get_current_mode(), AppMode::Normal);
    let again = Loaded::Directory { entries: listing() };
    assert!(create_data_provider(manager.get_current_mode()).load_data(&mut state, &again));
    assert_eq!(state.search_input, "");
    assert!(!state.is_searching);
    assert_eq!(state.files, before);
    assert_eq!(shown_names(&state), vec!["a", "b", "c.txt"]);
}

#[test]
fn two_quick_clicks_on_one_row_are_a_double_click() {
    let mut tracker = DoubleClickState::new();
    assert!(!tracker.is_double_click(1000, (5, 7), 2));
    tracker.update(1000, (5, 7), 2);
    assert!(tracker.is_double_click(1150, (5, 7), 2));
    assert!(tracker.is_double_click(1100, (5, 7), 2));
    assert!(!tracker.is_double_click(1151, (5, 7), 2));
    assert!(!tracker.is_double_click(1200, (5, 7), 2));
    assert!(!tracker.is_double_click(1100, (6, 7), 2));
    assert!(!tracker.is_double_click(1100, (5, 8), 2));
    assert!(!tracker.is_double_click(1100, (5, 7), 3));
    tracker.reset();
    assert!(!tracker.is_double_click(1100, (5, 7), 2));
}

fn click(column: u16, row: u16, time_ms: u64) -> MouseEvent {
    MouseEvent { kind: MouseEventKind::LeftUp, column, row, time_ms }
}

#[test]
fn a_double_click_enters_the_directory() {
    let mut state = loaded_state(listing());
    let mut preview = GlobalPreviewState::new();
    let mode = AppMode::Normal;
    assert_eq!(state.layout.get_left_area(), Rect::new(0, 3, 50, 47));

    let first = InputDispatcher::handle_mouse_event(&mut state, &mut preview, click(4, 5, 1000), &mode, facts());
    assert_eq!(first, Reaction::stay());
    assert_eq!(selected_name(&state), Some("b".to_string()));
    assert_eq!(preview.get_identity(), Some("/work/b".to_string()));

    let late = InputDispatcher::handle_mouse_event(&mut state, &mut preview, click(4, 5, 1200), &mode, facts());
    assert_eq!(late, Reaction::stay());
    assert_eq!(state.current_dir, "/work");

    let second = InputDispatcher::handle_mouse_event(&mut state, &mut preview, click(4, 5, 1350), &mode, facts());
    assert_eq!(
        second,
        Reaction {
            action: ModeAction::Stay,
            request: Request::LoadDirectory { path: "/work/b".to_string() },
        }
    );
    assert_eq!(state.current_dir, "/work/b");
}

#[test]
fn clicks_outside_the_rows_do_nothing() {
    let mut state = loaded_state(listing());
    let mut preview = GlobalPreviewState::new();
    let mode = AppMode::Normal;
    for event in [click(4, 3, 10), click(4, 7, 20), click(60, 5, 30), click(4, 1, 40)] {
        let reaction = InputDispatcher::handle_mouse_event(&mut state, &mut preview, event, &mode, facts());
        assert_eq!(reaction, Reaction::stay());
        assert_eq!(state.file_list_state.selected, None);
        assert_eq!(state.double_click_state.last_click_time, None);
    }
    assert_eq!(InputDispatcher::resolve_click(&state, click(4, 4, 0)), Some(0));
    assert_eq!(InputDispatcher::resolve_click(&state, click(4, 6, 0)), Some(2));
    state.file_list_state.offset = 1;
    assert_eq!(InputDispatcher::resolve_click(&state, click(4, 4, 0)), Some(1));
    assert_eq!(InputDispatcher::resolve_click(&state, click(4, 6, 0)), None);
}

#[test]
fn a_double_click_on_a_history_entry_leaves_with_it() {
    let mut state = AppState::new("/work".to_string());
    state.update_layout(Rect::new(0, 0, 100, 50));
    let mut preview = GlobalPreviewState::new();
    let mode = AppMode::History;
    let loaded = Loaded::History {
        history: vec![HistoryEntry::at("/home/x".to_string(), Timestamp { secs: 1, nanos: 0 })],
        exists: vec![true],
        now: Timestamp { secs: 2, nanos: 0 },
    };
    create_data_provider(&mode).load_data(&mut state, &loaded);
    InputDispatcher::handle_mouse_event(&mut state, &mut preview, click(4, 4, 500), &mode, facts());
    let reaction =
        InputDispatcher::handle_mouse_event(&mut state, &mut preview, click(4, 4, 600), &mode, facts());
    let chosen = FileItem { name: "x".to_string(), path: "/home/x".to_string(), is_dir: true };
    assert_eq!(
        reaction,
        Reaction { action: ModeAction::Exit(Some(chosen)), request: Request::Nothing }
    );
}

#[test]
fn the_wheel_moves_the_list_or_the_preview() {
    let mut state = loaded_state(listing());
    let mut preview = GlobalPreviewState::new();
    let mode = AppMode::Normal;
    let wheel = |kind, column| MouseEvent { kind, column, row: 10, time_ms: 0 };
    InputDispatcher::handle_mouse_event(&mut state, &mut preview, wheel(MouseEventKind::ScrollDown, 4), &mode, facts());
    InputDispatcher::handle_mouse_event(&mut state, &mut preview, wheel(MouseEventKind::ScrollDown, 4), &mode, facts());
    assert_eq!(selected_name(&state), Some("b".to_string()));
    InputDispatcher::handle_mouse_event(&mut state, &mut preview, wheel(MouseEventKind::ScrollUp, 4), &mode, facts());
    assert_eq!(selected_name(&state), Some("a".to_string()));
    assert_eq!(preview.get_scroll_offset(), 0);
    InputDispatcher::handle_mouse_event(&mut state, &mut preview, wheel(MouseEventKind::ScrollDown, 70), &mode, facts());
    assert_eq!(selected_name(&state), Some("a".to_string()));
    assert_eq!(preview.get_scroll_offset(), 1);
    InputDispatcher::handle_mouse_event(&mut state, &mut preview, wheel(MouseEventKind::ScrollUp, 70), &mode, facts());
    assert_eq!(preview.get_scroll_offset(), 0);
    let other = InputDispatcher::handle_mouse_event(&mut state, &mut preview, wheel(MouseEventKind::Other, 4), &mode, facts());
    assert_eq!(other, Reaction::stay());
}

#[test]
fn page_keys_scroll_the_preview() {
    let mut state = loaded_state(listing());
    let mut preview = GlobalPreviewState::new();
    let lines = (0..100)
        .map(|i| quickswitch::preview_content::Line::single(i.to_string(), quickswitch::preview_content::Tone::Plain))
        .collect();
    preview.update_preview("T".to_string(), quickswitch::preview_content::PreviewContent::text(lines));
    key(&mut state, &mut preview, KeyCode::PageDown, AppMode::Normal);
    assert_eq!(preview.get_scroll_offset(), 22);
    key(&mut state, &mut preview, KeyCode::PageUp, AppMode::Normal);
    assert_eq!(preview.get_scroll_offset(), 0);
}

#[test]
fn both_modes_offer_the_same_operations() {
    let mut state = loaded_state(listing());
    let mut preview = GlobalPreviewState::new();
    let normal = create_data_provider(&AppMode::Normal);
    let history = create_data_provider(&AppMode::History);
    normal.navigate_down(&mut state, &mut preview);
    normal.navigate_down(&mut state, &mut preview);
    assert_eq!(normal.get_preview_path(&state), Some("/work/b".to_string()));
    assert_eq!(history.get_preview_path(&state), Some("/work/b".to_string()));

    history.save_position(&mut state);
    assert_eq!(state.dir_positions.get("/work"), None);
    normal.save_position(&mut state);
    assert_eq!(state.dir_positions.get("/work"), Some(1));
    normal.set_selected_index(&mut state, Some(0));
    history.restore_position(&mut state);
    assert_eq!(state.file_list_state.selected, Some(0));
    normal.restore_position(&mut state);
    assert_eq!(state.file_list_state.selected, Some(1));

    state.search_input = "b".to_string();
    history.on_directory_changed(&mut state, &mut preview, &vec![entry("z", false)]);
    assert_eq!(state.search_input, "b");
    assert_eq!(shown_names(&state), vec!["a", "b", "c.txt"]);
    normal.on_directory_changed(&mut state, &mut preview, &vec![entry("z", false)]);
    assert_eq!(state.search_input, "");
    assert_eq!(shown_names(&state), vec!["z"]);
    assert_eq!(state.file_list_state.selected, Some(0));
    assert_eq!(preview.get_identity(), None);

    let mut visited = AppState::new("/work".to_string());
    let loaded = Loaded::History {
        history: vec![HistoryEntry::at("/home/x".to_string(), Timestamp { secs: 1, nanos: 0 })],
        exists: vec![true],
        now: Timestamp { secs: 2, nanos: 0 },
    };
    history.load_data(&mut visited, &loaded);
    history.navigate_down(&mut visited, &mut preview);
    assert_eq!(history.get_preview_path(&visited), Some("/home/x".to_string()));
    assert_eq!(normal.get_preview_path(&visited), None);
}
