use quickswitch::app::{App, Step};
use quickswitch::app_state::{AppState, ListState};
use quickswitch::config::{
    data_file_path, get_data_dir, get_default_data_dir, Environment, HISTORY_FILE,
    LEGACY_BACKUP_FILE, LEGACY_HISTORY_FILE,
};
use quickswitch::data_provider::{create_data_provider, Loaded};
use quickswitch::handlers::{
    create_mode_handler, BoxStyle, HistoryModeHandler, ModeHandlerKind, NormalModeHandler,
    RightPanel,
};
use quickswitch::history::HistoryEntry;
use quickswitch::image_preview::{ImageFacts, ImagePreview};
use quickswitch::input::{DiskFacts, KeyCode};
use quickswitch::layout::Rect;
use quickswitch::models::{AppMode, DisplayItem, FileItem, Timestamp};
use quickswitch::modes::{ModeAction, ModeManager, Reaction, Request};
use quickswitch::preview_content::{Line, PreviewContent, Span, Tone};
use quickswitch::preview_state::{GlobalPreviewState, PreviewState};
use quickswitch::renderers::{
    create_display_item_list_item, create_file_list_item, create_history_list_item,
    create_renderer, highlight_search_term, AnyRenderer, FileListRenderer, HistoryHelpRenderer,
    HistoryListRenderer, NormalHelpRenderer, PreviewRenderer, RendererType, SearchHelpRenderer,
};
use quickswitch::services::{CommonModeLogic, NavigationHelper, StateService};
use quickswitch::shell::{init_script_for, qs_init, ShellType};

fn entry(name: &str, is_dir: bool) -> FileItem {
    FileItem { name: name.to_string(), path: format!("/work/{}", name), is_dir }
}

fn facts() -> DiskFacts {
    DiskFacts { selected_is_dir: true, current_is_dir: true, has_drive_letters: false }
}

fn span(text: &str, tone: Tone) -> Span {
    Span::styled(text.to_string(), tone)
}

fn loaded_state() -> AppState {
    let mut state = AppState::new("/work".to_string());
    state.update_layout(Rect::new(0, 0, 100, 50));
    let entries = vec![entry("Notes.txt", false), entry("src", true), entry("test", true)];
    create_data_provider(&AppMode::Normal).load_data(&mut state, &Loaded::Directory { entries });
    state
}

fn history_state() -> AppState {
    let mut state = AppState::new("/work".to_string());
    let history = vec![
        HistoryEntry {
            path: "/home/x/Project".to_string(),
            frequency: 3,
            last_accessed: Timestamp { secs: 20, nanos: 0 },
            first_accessed: Timestamp { secs: 1, nanos: 0 },
        },
        HistoryEntry::at("/tmp".to_string(), Timestamp { secs: 10, nanos: 0 }),
    ];
    let loaded =
        Loaded::History { history, exists: vec![true, true], now: Timestamp { secs: 30, nanos: 0 } };
    create_data_provider(&AppMode::History).load_data(&mut state, &loaded);
    state
}

#[test]
fn the_search_text_is_highlighted_in_names() {
    assert_eq!(highlight_search_term("readme.md", ""), vec![span("readme.md", Tone::Plain)]);
    assert_eq!(
        highlight_search_term("Readme.md", "me"),
        vec![span("Read", Tone::Plain), span("me", Tone::Highlight), span(".md", Tone::Plain)]
    );
    assert_eq!(
        highlight_search_term("TeSt_test", "TE"),
        vec![
            span("Te", Tone::Highlight),
            span("St_", Tone::Plain),
            span("te", Tone::Highlight),
            span("st", Tone::Plain),
        ]
    );
    assert_eq!(
        highlight_search_term("aaaa", "aa"),
        vec![span("aa", Tone::Highlight), span("aa", Tone::Highlight)]
    );
    assert_eq!(highlight_search_term("abc", "x"), vec![span("abc", Tone::Plain)]);
    assert_eq!(highlight_search_term("abc", "abcd"), vec![span("abc", Tone::Plain)]);
    assert_eq!(highlight_search_term("", "x"), Vec::<Span>::new());
    assert_eq!(
        highlight_search_term("x\u{e9}y", "\u{c9}"),
        vec![span("x", Tone::Plain), span("\u{e9}", Tone::Highlight), span("y", Tone::Plain)]
    );
}

#[test]
fn rows_of_the_file_list() {
    assert_eq!(
        create_file_list_item(&entry("src", true), ""),
        Line::from(vec![span("\u{1F4C1}", Tone::Plain), span(" ", Tone::Plain), span("src", Tone::Cyan)])
    );
    assert_eq!(
        create_file_list_item(&entry("a.txt", false), ""),
        Line::from(vec![
            span("\u{1F4C4}", Tone::Plain),
            span(" ", Tone::Plain),
            span("a.txt", Tone::Plain),
        ])
    );
    assert_eq!(
        create_file_list_item(&entry("a.txt", false), "TX"),
        Line::from(vec![
            span("\u{1F4C4}", Tone::Plain),
            span(" ", Tone::Plain),
            span("a.", Tone::Plain),
            span("tx", Tone::Highlight),
            span("t", Tone::Plain),
        ])
    );
    let visited =
        DisplayItem::History(HistoryEntry::at("/home/x".to_string(), Timestamp { secs: 0, nanos: 0 }));
    assert_eq!(
        create_display_item_list_item(&visited, ""),
        Line::from(vec![span("\u{1F4C1}", Tone::Plain), span(" ", Tone::Plain), span("x", Tone::Cyan)])
    );
}

#[test]
fn rows_of_the_history_list() {
    let state = history_state();
    let row = create_history_list_item(&state.files[0], "");
    assert_eq!(
        row,
        Line::from(vec![
            span("\u{1F4C1}", Tone::Cyan),
            span(" ", Tone::Plain),
            span("Project", Tone::Cyan),
            span(" (3\u{d7})", Tone::Yellow),
            span(" ", Tone::Plain),
            span("(/home/x/Project)", Tone::DarkGray),
        ])
    );
    let row = create_history_list_item(&state.files[0], "JE");
    assert_eq!(
        row.spans[2..5],
        [span("Pro", Tone::Cyan), span("je", Tone::Match), span("ct", Tone::Cyan)]
    );
    let row = create_history_list_item(&state.files[0], "zz");
    assert_eq!(row.spans[2], span("Project", Tone::Cyan));
    assert_eq!(
        create_history_list_item(&DisplayItem::File(entry("a", false)), ""),
        Line::single("Invalid history entry".to_string(), Tone::Plain)
    );
}

#[test]
fn the_file_list_panel() {
    let mut state = loaded_state();
    let panel = FileListRenderer::new().render(&state);
    assert_eq!(panel.title, "Files - /work (3/5)");
    assert_eq!(panel.lines.len(), 3);
    assert_eq!(panel.lines[0], create_file_list_item(&entry("src", true), ""));
    assert_eq!(panel.lines[2], create_file_list_item(&entry("Notes.txt", false), ""));
    state.search_input = "t".to_string();
    state.apply_search_filter();
    let panel = NormalModeHandler::new().render_left_panel(&state);
    assert_eq!(panel.title, "Files - /work (2/5)");
    assert_eq!(panel.lines[0], create_file_list_item(&entry("test", true), "t"));
}

#[test]
fn the_history_list_panel() {
    let mut state = history_state();
    let panel = HistoryListRenderer::new().render(&state);
    assert_eq!(panel.title, "History - 2 entries");
    assert_eq!(panel.lines.len(), 2);
    assert_eq!(panel.lines[0], create_history_list_item(&state.files[0], ""));
    state.search_input = "pro".to_string();
    state.is_searching = true;
    state.apply_search_filter();
    let panel = HistoryModeHandler::new().render_left_panel(&state);
    assert_eq!(panel.title, "History - 1 matches (1/2)");
    state.search_input = "zzz".to_string();
    state.apply_search_filter();
    let panel = HistoryListRenderer::new().render(&state);
    assert_eq!(
        panel.lines,
        vec![Line::single("No matching history entries".to_string(), Tone::Plain)]
    );
    let empty = AppState::new("/".to_string());
    let panel = HistoryListRenderer::new().render(&empty);
    assert_eq!(panel.title, "History - 0 entries");
    assert_eq!(panel.lines, vec![Line::single("No history available".to_string(), Tone::Plain)]);
}

#[test]
fn the_help_panels() {
    let normal = NormalHelpRenderer::new().render();
    assert_eq!(normal.title, "Help");
    assert_eq!(normal.lines.len(), 19);
    assert_eq!(normal.lines[0], Line::single("Normal Mode Navigation:".to_string(), Tone::Plain));
    assert_eq!(normal.lines[1], Line::single(String::new(), Tone::Plain));
    assert_eq!(
        normal.lines[2],
        Line::single("h/\u{2190}        - Go to parent directory".to_string(), Tone::Plain)
    );
    assert_eq!(
        normal.lines[18],
        Line::single("PageUp/Down - Scroll preview".to_string(), Tone::Plain)
    );
    let search = SearchHelpRenderer::new().render();
    assert_eq!(search.title, "Search Help");
    assert_eq!(search.lines.len(), 23);
    assert_eq!(search.lines[22], Line::single("Scroll     - Navigate results".to_string(), Tone::Plain));
    let history = HistoryHelpRenderer::new().render();
    assert_eq!(history.title, "Help - History Mode");
    assert_eq!(history.lines.len(), 13);
    assert_eq!(
        history.lines[12],
        Line::single("      moved to top of history".to_string(), Tone::Plain)
    );
}

#[test]
fn the_preview_panel_shows_the_lines_in_view() {
    let lines: Vec<Line> = (0..10).map(|i| Line::single(i.to_string(), Tone::Plain)).collect();
    let mut preview = PreviewState {
        content: PreviewContent::text(lines.clone()),
        title: "T".to_string(),
        scroll_offset: 3,
        identity: None,
        selections: 0,
    };
    let panel = PreviewRenderer::new().render(&preview, Rect::new(0, 0, 20, 6));
    assert_eq!(panel.title, "T");
    assert!(!panel.picture);
    assert_eq!(panel.lines, lines[3..7].to_vec());
    preview.scroll_offset = 8;
    let panel = PreviewRenderer::new().render(&preview, Rect::new(0, 0, 20, 6));
    assert_eq!(panel.lines, lines[8..10].to_vec());
    preview.scroll_offset = 10;
    assert!(PreviewRenderer::new().render(&preview, Rect::new(0, 0, 20, 6)).lines.is_empty());
    preview.scroll_offset = 0;
    assert!(PreviewRenderer::new().render(&preview, Rect::new(0, 0, 20, 1)).lines.is_empty());
    preview.content = PreviewContent::image();
    let panel = PreviewRenderer::new().render(&preview, Rect::new(0, 0, 20, 6));
    assert!(panel.picture);
    assert!(panel.lines.is_empty());
}

#[test]
fn renderers_are_made_by_kind() {
    assert!(matches!(create_renderer(RendererType::FileList), AnyRenderer::FileList(_)));
    assert!(matches!(create_renderer(RendererType::HistoryList), AnyRenderer::HistoryList(_)));
    assert!(matches!(create_renderer(RendererType::Preview), AnyRenderer::Preview(_)));
    assert!(matches!(create_renderer(RendererType::NormalHelp), AnyRenderer::NormalHelp(_)));
    assert!(matches!(create_renderer(RendererType::SearchHelp), AnyRenderer::SearchHelp(_)));
    assert!(matches!(create_renderer(RendererType::HistoryHelp), AnyRenderer::HistoryHelp(_)));
    assert!(matches!(create_mode_handler(&AppMode::Normal), ModeHandlerKind::Normal(_)));
    assert!(matches!(create_mode_handler(&AppMode::History), ModeHandlerKind::History(_)));
}

#[test]
fn the_box_on_top_in_the_listing() {
    let handler = NormalModeHandler::new();
    let mut state = loaded_state();
    let config = handler.get_search_box_config(&state);
    assert_eq!(
        config.title,
        "NORMAL - hjkl navigate, b/f half page, /f search, v history, Enter exit"
    );
    assert_eq!(config.content, "");
    assert_eq!(config.style, BoxStyle::Yellow);
    assert!(handler.should_show_help(&state));

    state.is_searching = true;
    let config = handler.get_search_box_config(&state);
    assert_eq!(config.title, "SEARCH - Type to search, ESC to exit search");
    assert_eq!(config.style, BoxStyle::BlackOnYellow);
    assert!(handler.should_show_help(&state));

    state.search_input = "t".to_string();
    state.apply_search_filter();
    let config = handler.get_search_box_config(&state);
    assert_eq!(config.title, "SEARCH - 't' - 2 matches (ESC to exit)");
    assert_eq!(config.content, "t");
    assert!(!handler.should_show_help(&state));

    state.is_searching = false;
    let config = handler.get_search_box_config(&state);
    assert_eq!(config.title, "FILTERED - 't' - 2 matches (/f to search again)");
    assert_eq!(config.style, BoxStyle::BlackOnGreen);
    assert!(handler.should_show_help(&state));
    state.file_list_state = ListState { selected: Some(0), offset: 0 };
    assert!(!handler.should_show_help(&state));
}

#[test]
fn the_box_on_top_in_the_history() {
    let mut handler = HistoryModeHandler::new();
    let mut state = history_state();
    let config = handler.get_search_box_config(&state);
    assert_eq!(
        config.title,
        "HISTORY - 2 entries (jk navigate, l/\u{2192} enter dir, / search, Enter select, ESC to normal)"
    );
    assert_eq!(config.style, BoxStyle::Cyan);
    assert!(handler.should_show_help(&state));
    handler.on_enter(&mut state);
    assert_eq!(state.file_list_state.selected, Some(0));
    assert!(!handler.should_show_help(&state));

    state.is_searching = true;
    assert_eq!(
        handler.get_search_box_config(&state).title,
        "SEARCH - Type to search history, ESC to exit search"
    );
    state.search_input = "tm".to_string();
    state.apply_search_filter();
    assert_eq!(
        handler.get_search_box_config(&state).title,
        "SEARCH - 'tm' - 1 matches (ESC to exit)"
    );
    state.is_searching = false;
    let config = handler.get_search_box_config(&state);
    assert_eq!(
        config.title,
        "FILTERED HISTORY - 'tm' - 1 matches (l/\u{2192} enter dir, / to search again, ESC to normal)"
    );
    assert_eq!(config.style, BoxStyle::BlackOnGreen);
}

#[test]
fn the_right_panel_is_help_or_preview() {
    let mut state = loaded_state();
    let preview = GlobalPreviewState::new().get_state();
    let manager = ModeManager::new(&AppMode::Normal);
    let area = Rect::new(50, 3, 50, 47);
    match manager.render_right_panel(&state, &preview, area) {
        RightPanel::Help(panel) => assert_eq!(panel.title, "Help"),
        other => panic!("unexpected panel {:?}", other),
    }
    state.file_list_state.selected = Some(1);
    match manager.render_right_panel(&state, &preview, area) {
        RightPanel::Preview(panel) => {
            assert_eq!(panel.title, "Preview");
            assert_eq!(panel.lines.len(), 1);
        }
        other => panic!("unexpected panel {:?}", other),
    }
    assert_eq!(manager.render_left_panel(&state).title, "Files - /work (3/5)");
    assert_eq!(manager.get_search_box_config(&state).style, BoxStyle::Yellow);
    let history = ModeManager::new(&AppMode::History);
    let mut listed = history_state();
    history.on_enter(&mut listed);
    assert_eq!(listed.file_list_state.selected, Some(0));
    assert_eq!(history.render_left_panel(&listed).title, "History - 2 entries");
    manager.on_enter(&mut listed);
    assert_eq!(listed.file_list_state.selected, Some(0));
}

#[test]
fn the_data_directory_is_found_in_the_environment() {
    let mut environment = Environment {
        data_dir_override: Some("/custom/dir".to_string()),
        home: Some("/home/u".to_string()),
        data_home: Some("/xdg".to_string()),
        temp_dir: "/tmp".to_string(),
    };
    assert_eq!(get_data_dir(&environment), "/custom/dir");
    environment.data_dir_override = Some("   ".to_string());
    assert_eq!(get_data_dir(&environment), "/home/u/.local/share/quickswitch");
    environment.data_dir_override = None;
    assert_eq!(get_data_dir(&environment), "/home/u/.local/share/quickswitch");
    environment.home = None;
    assert_eq!(get_data_dir(&environment), "/xdg/quickswitch");
    environment.data_home = None;
    assert_eq!(get_default_data_dir(&environment), "/tmp/quickswitch");
    assert_eq!(
        data_file_path(Some("/data"), "/tmp", HISTORY_FILE),
        "/data/quickswitch.history.bin"
    );
    assert_eq!(data_file_path(None, "/tmp", LEGACY_HISTORY_FILE), "/tmp/quickswitch.history");
    assert_eq!(
        data_file_path(Some("/data/"), "/tmp", LEGACY_BACKUP_FILE),
        "/data/quickswitch.history.bak"
    );
}

#[test]
fn shells_get_their_functions() {
    assert!(qs_init(ShellType::Bash).contains("qs() {"));
    assert_eq!(qs_init(ShellType::Bash), qs_init(ShellType::Zsh));
    assert!(qs_init(ShellType::Fish).contains("function qs\n"));
    assert!(qs_init(ShellType::Fish).contains("quickswitch --mode history 2>&1 >/dev/tty"));
    assert!(qs_init(ShellType::Powershell).contains("Start-Process -FilePath \"quickswitch.exe\""));
    assert!(qs_init(ShellType::Bash).starts_with("\nqs() {\n    local dir\n"));
    assert!(qs_init(ShellType::Bash).ends_with("fi\n}\n    "));
    assert_eq!(init_script_for(ShellType::Cmd), None);
    assert_eq!(init_script_for(ShellType::Fish), Some(qs_init(ShellType::Fish)));
}

#[test]
fn a_picture_is_described_in_text() {
    let facts = ImageFacts { file_size: 2048, width: 640, height: 480 };
    let file = FileItem { name: "cat.png".to_string(), path: "/p/cat.png".to_string(), is_dir: false };
    let (title, lines) = ImagePreview::generate_image_preview(&file, Ok(facts));
    assert_eq!(title, "\u{1F5BC}\u{FE0F} cat.png");
    assert_eq!(lines.len(), 9);
    assert_eq!(lines[0], Line::single("File size: 2048 bytes".to_string(), Tone::Gray));
    assert_eq!(lines[1], Line::single("Dimensions: 640x480 pixels".to_string(), Tone::Gray));
    assert_eq!(lines[2], Line::single("Format: PNG".to_string(), Tone::Gray));
    assert_eq!(lines[3], Line::single("\u{2500}".repeat(50), Tone::Gray));
    assert_eq!(lines[4], Line::single("\u{1F5BC}\u{FE0F} Image Preview".to_string(), Tone::Cyan));
    assert_eq!(
        lines[8],
        Line::single(
            "Note: Full image rendering requires widget integration".to_string(),
            Tone::Yellow
        )
    );
    assert_eq!(ImagePreview::get_image_format("/p/noext"), "Unknown");
    assert_eq!(ImagePreview::get_image_format("/p/a.jpeg"), "JPEG");
    assert!(ImagePreview::supports_image_display());
    let (_, lines) = ImagePreview::generate_image_preview(&file, Err("broken".to_string()));
    assert_eq!(lines.len(), 5);
    assert_eq!(lines[0], Line::single("Image Preview Error".to_string(), Tone::Red));
    assert_eq!(lines[2], Line::single("Error: broken".to_string(), Tone::Gray));
}

#[test]
fn list_helpers_step_without_wrapping() {
    let mut list = ListState::new();
    assert!(!NavigationHelper::navigate_up(&mut list, 3));
    assert!(NavigationHelper::navigate_down(&mut list, 3));
    assert!(NavigationHelper::navigate_down(&mut list, 3));
    assert!(NavigationHelper::navigate_down(&mut list, 3));
    assert_eq!(list.selected, Some(2));
    assert!(!NavigationHelper::navigate_down(&mut list, 3));
    assert!(NavigationHelper::navigate_up(&mut list, 3));
    assert_eq!(list.selected, Some(1));
    let mut empty = ListState::new();
    assert!(!NavigationHelper::navigate_down(&mut empty, 0));

    let mut state = history_state();
    StateService::initialize_history_mode(&mut state);
    assert_eq!(state.file_list_state.selected, Some(0));
    StateService::save_current_position(&mut state);
    state.file_list_state.selected = None;
    StateService::restore_position(&mut state);
    assert_eq!(state.file_list_state.selected, Some(0));
    StateService::apply_search_filter(&mut state);
    assert_eq!(state.file_list_state.selected, None);
    state.double_click_state.update(5, (1, 2), 0);
    CommonModeLogic::reset_double_click_state(&mut state);
    assert_eq!(state.double_click_state.last_click_time, None);
}

#[test]
fn the_navigator_acts_on_what_inputs_ask_for() {
    let (mut app, request) = App::new(AppMode::Normal, "/work".to_string());
    assert_eq!(request, Request::LoadDirectory { path: "/work".to_string() });
    app.state.update_layout(Rect::new(0, 0, 100, 50));
    let entries = vec![entry("b.txt", false), entry("a", true)];
    create_data_provider(app.mode_manager.get_current_mode())
        .load_data(&mut app.state, &Loaded::Directory { entries });

    let step = app.handle_key_event(KeyCode::Down, facts());
    assert_eq!(step, Step::Continue { visit: None, load: Request::Nothing, entering: false });
    assert_eq!(app.preview.get_identity(), Some("/work/a".to_string()));

    let step = app.handle_key_event(KeyCode::Char('v'), facts());
    assert_eq!(step, Step::Continue { visit: None, load: Request::LoadHistory, entering: true });
    assert!(app.mode_manager.is_mode(&AppMode::History));

    let history = vec![HistoryEntry::at("/home/x".to_string(), Timestamp { secs: 1, nanos: 0 })];
    let loaded = Loaded::History { history, exists: vec![true], now: Timestamp { secs: 2, nanos: 0 } };
    create_data_provider(app.mode_manager.get_current_mode()).load_data(&mut app.state, &loaded);
    app.mode_manager.on_enter(&mut app.state);
    let step = app.handle_key_event(KeyCode::Right, facts());
    assert_eq!(
        step,
        Step::Continue {
            visit: Some("/home/x".to_string()),
            load: Request::LoadDirectory { path: "/home/x".to_string() },
            entering: true,
        }
    );
    assert!(app.mode_manager.is_mode(&AppMode::Normal));

    let entries = vec![entry("b.txt", false), entry("a", true)];
    create_data_provider(app.mode_manager.get_current_mode())
        .load_data(&mut app.state, &Loaded::Directory { entries });
    app.handle_key_event(KeyCode::Down, facts());
    app.handle_key_event(KeyCode::Down, facts());
    let step = app.handle_key_event(KeyCode::Enter, facts());
    assert_eq!(step, Step::Leave { chosen: Some("/home/x".to_string()) });
    app.handle_key_event(KeyCode::Up, facts());
    let step = app.handle_key_event(KeyCode::Enter, facts());
    assert_eq!(step, Step::Leave { chosen: Some("/work/a".to_string()) });
    let leave = Reaction { action: ModeAction::Exit(None), request: Request::Nothing };
    assert_eq!(app.handle_action(leave), Step::Leave { chosen: None });
}

#[test]
fn a_fetched_list_is_taken_in_as_the_step_says() {
    let (mut app, request) = App::new(AppMode::Normal, "/work".to_string());
    assert_eq!(request, Request::LoadDirectory { path: "/work".to_string() });
    let listing = || Loaded::Directory { entries: vec![entry("b.txt", false), entry("a", true)] };
    let history = || Loaded::History {
        history: vec![HistoryEntry::at("/home/x".to_string(), Timestamp { secs: 1, nanos: 0 })],
        exists: vec![true],
        now: Timestamp { secs: 2, nanos: 0 },
    };

    assert!(!app.take_loaded(&history(), true));
    assert!(app.state.files.is_empty());
    assert!(app.take_loaded(&listing(), true));
    assert_eq!(app.state.files.len(), 4);
    assert_eq!(app.state.file_list_state.selected, None);

    app.handle_key_event(KeyCode::Down, facts());
    app.handle_key_event(KeyCode::Down, facts());
    assert_eq!(app.preview.get_identity(), Some("/work/b.txt".to_string()));
    app.state.dir_positions.insert("/work".to_string(), 1);
    app.state.search_input = "b".to_string();
    app.state.is_searching = true;
    assert!(app.take_loaded(&listing(), false));
    assert_eq!(app.state.search_input, "");
    assert!(!app.state.is_searching);
    assert_eq!(app.state.file_list_state.selected, Some(1));
    assert_eq!(app.preview.get_identity(), None);
    assert_eq!(app.preview.get_title(), "Preview");

    app.state.search_input = "c".to_string();
    app.handle_key_event(KeyCode::Down, facts());
    let drives = Loaded::Drives {
        drives: vec![FileItem { name: "C:\\".to_string(), path: "C:\\".to_string(), is_dir: true }],
    };
    app.state.current_dir = "DRIVES:".to_string();
    app.state.dir_positions.insert("DRIVES:".to_string(), 5);
    assert!(app.take_loaded(&drives, false));
    assert_eq!(app.state.search_input, "");
    assert_eq!(app.state.files.len(), 1);
    assert_eq!(app.state.file_list_state.selected, Some(0));
    assert_eq!(app.preview.get_identity(), None);

    let step = app.handle_key_event(KeyCode::Char('v'), facts());
    assert_eq!(step, Step::Continue { visit: None, load: Request::LoadHistory, entering: true });
    assert!(!app.take_loaded(&listing(), true));
    assert!(app.take_loaded(&history(), true));
    assert_eq!(app.state.file_list_state.selected, Some(0));
    assert!(app.take_loaded(&history(), false));
    assert_eq!(app.state.file_list_state.selected, None);
}
