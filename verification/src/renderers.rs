//! What the panels show, as titles and lines of coloured text. Drawing them
//! is left to the caller.

use vstd::prelude::*;
use crate::app_state::AppState;
use crate::layout::{content_height, Rect};
use crate::models::{display_name, display_name_of, DisplayItem, DisplayItemView, FileItem, FileItemView};
use crate::preview::text_line;
use crate::preview_content::{line_of, styled, ContentView, Line, PreviewContent, Span, SpanView, Tone};
use crate::preview_state::PreviewState;
use crate::text::{
    decimal,
    find_run,
    from_chars,
    lines_of,
    lowercase_of,
    next_match,
    push_decimal,
    push_str,
    slice_to_string,
    split_lines,
    to_chars,
    to_lowercase,
};

verus! {

/// What a panel shows.
#[derive(Debug, PartialEq)]
pub struct Panel {
    pub title: String,
    pub lines: Vec<Line>,
}

/// What a [`Panel`] is to contracts.
pub struct PanelView {
    pub title: Seq<char>,
    pub lines: Seq<Seq<SpanView>>,
}

impl View for Panel {
    type V = PanelView;

    open spec fn view(&self) -> PanelView {
        PanelView { title: self.title@, lines: self.lines.deep_view() }
    }
}

/// The help of the listing mode.
pub const NORMAL_HELP: &'static str =
    "Normal Mode Navigation:\n\nh/\u{2190}        - Go to parent directory\nj/\u{2193}        - Move down\nk/\u{2191}        - Move up\nl/\u{2192}        - Enter directory\n\n/          - Enter search mode\nv          - Enter history mode\nEnter      - Select and exit\nEsc        - Exit application\n\nMouse:\nClick      - Select item\nDouble-click - Select and exit\nScroll     - Navigate list\n\nPreview:\nPageUp/Down - Scroll preview";

/// The help of the search.
pub const SEARCH_HELP: &'static str =
    "Search Mode:\n\nType to search files and directories\n\nNavigation:\nj/\u{2193}        - Move down in results\nk/\u{2191}        - Move up in results\nh/\u{2190}        - Go to parent directory\nl/\u{2192}        - Enter directory\n\nText Input:\nBackspace  - Delete character\nAny char   - Add to search\n\nMode Switch:\nv          - Enter history mode\nEnter      - Select and exit\nEsc        - Return to normal mode\n\nMouse:\nClick      - Select item\nDouble-click - Select and exit\nScroll     - Navigate results";

/// The help of the history mode.
pub const HISTORY_HELP: &'static str =
    "History Mode Navigation:\n\nj/k or \u{2191}\u{2193}  - Navigate history\nl/\u{2192}        - Enter directory & return to normal\nb          - Move up half page\nf          - Move down half page\n/f          - Search history\nESC        - Exit search (when searching)\nEnter      - Select directory & exit app\nESC        - Return to normal mode\n\nNote: Selected directory will be\n      moved to top of history";

/// The lines of `text`, each a line of the panel in the terminal's colour.
pub open spec fn plain_lines(text: Seq<char>) -> Seq<Seq<SpanView>> {
    Seq::new(lines_of(text).len(), |i: int| line_of(lines_of(text)[i], Tone::Plain))
}

/// The panel titled `title` that shows the lines of `text`.
pub fn text_panel(title: &str, text: &str) -> (panel: Panel)
    ensures
        panel@ == (PanelView { title: title@, lines: plain_lines(text@) }),
{
    let cut = split_lines(text);
    let mut lines: Vec<Line> = Vec::new();
    let mut i: usize = 0;
    while i < cut.len()
        invariant
            i <= cut.len(),
            lines.len() == i,
            forall|k: int| 0 <= k < i ==> (#[trigger] lines@[k])@ == line_of(cut@[k]@, Tone::Plain),
        decreases cut.len() - i,
    {
        lines.push(Line::single(cut[i].clone(), Tone::Plain));
        i += 1;
    }
    assert(lines.deep_view() =~= plain_lines(text@));
    Panel { title: title.to_string(), lines }
}

/// Shows the help of the listing mode.
#[derive(Clone, Copy, Debug)]
pub struct NormalHelpRenderer;

impl NormalHelpRenderer {
    pub fn new() -> Self {
        NormalHelpRenderer
    }

    /// The help of the listing mode.
    pub fn render(&self) -> (panel: Panel)
        ensures
            panel@ == (PanelView { title: "Help"@, lines: plain_lines(NORMAL_HELP@) }),
    {
        text_panel("Help", NORMAL_HELP)
    }
}

/// Shows the help of the search.
#[derive(Clone, Copy, Debug)]
pub struct SearchHelpRenderer;

impl SearchHelpRenderer {
    pub fn new() -> Self {
        SearchHelpRenderer
    }

    /// The help of the search.
    pub fn render(&self) -> (panel: Panel)
        ensures
            panel@ == (PanelView { title: "Search Help"@, lines: plain_lines(SEARCH_HELP@) }),
    {
        text_panel("Search Help", SEARCH_HELP)
    }
}

/// Shows the help of the history mode.
#[derive(Clone, Copy, Debug)]
pub struct HistoryHelpRenderer;

impl HistoryHelpRenderer {
    pub fn new() -> Self {
        HistoryHelpRenderer
    }

    /// The help of the history mode.
    pub fn render(&self) -> (panel: Panel)
        ensures
            panel@ == (PanelView {
                title: "Help - History Mode"@,
                lines: plain_lines(HISTORY_HELP@),
            }),
    {
        text_panel("Help - History Mode", HISTORY_HELP)
    }
}

/// The characters of `text` from `from` up to `to`, both kept inside `text`.
pub open spec fn clipped(text: Seq<char>, from: int, to: int) -> Seq<char> {
    let start = if from < 0 {
        0
    } else if from > text.len() {
        text.len() as int
    } else {
        from
    };
    let end = if to < start {
        start
    } else if to > text.len() {
        text.len() as int
    } else {
        to
    };
    text.subrange(start, end)
}

/// What is left of `text` from `from` on, as a span in the terminal's colour;
/// nothing where nothing is left.
pub open spec fn rest_of(text: Seq<char>, from: int) -> Seq<SpanView> {
    if 0 <= from < text.len() {
        seq![styled(clipped(text, from, text.len() as int), Tone::Plain)]
    } else {
        Seq::empty()
    }
}

/// `text` from `from` on, cut into spans: each place at which `needle`
/// stands in `lower`, the text in lower case, gives a highlighted span
/// `width` characters wide, and what lies between gives spans in the
/// terminal's colour.
pub open spec fn highlighted_from(
    text: Seq<char>,
    lower: Seq<char>,
    needle: Seq<char>,
    width: nat,
    from: int,
) -> Seq<SpanView>
    decreases lower.len() - from,
{
    let at = next_match(lower, needle, from);
    if width == 0 || from < 0 || at < from || at > lower.len() {
        rest_of(text, from)
    } else {
        let before = if at > from {
            seq![styled(clipped(text, from, at), Tone::Plain)]
        } else {
            Seq::<SpanView>::empty()
        };
        let found = seq![styled(clipped(text, at, at + width), Tone::Highlight)];
        if at + width <= lower.len() {
            before + found + highlighted_from(text, lower, needle, width, at + width)
        } else {
            before + found + rest_of(text, at + width)
        }
    }
}

/// `text` cut into spans that highlight where the search text `search`
/// stands in it, upper and lower case taken as the same.
pub open spec fn highlighted(text: Seq<char>, search: Seq<char>) -> Seq<SpanView> {
    if search.len() == 0 {
        seq![styled(text, Tone::Plain)]
    } else {
        highlighted_from(text, lowercase_of(text), lowercase_of(search), search.len(), 0)
    }
}

/// The characters of `chars` from `from` up to `to`, both kept inside.
fn clip(chars: &Vec<char>, from: usize, to: usize) -> (out: String)
    ensures
        out@ == clipped(chars@, from as int, to as int),
{
    let start = if from > chars.len() {
        chars.len()
    } else {
        from
    };
    let end = if to < start {
        start
    } else if to > chars.len() {
        chars.len()
    } else {
        to
    };
    slice_to_string(chars, start, end)
}

/// `text` cut into spans that highlight where `search` stands in it.
pub fn highlight_search_term(text: &str, search: &str) -> (spans: Vec<Span>)
    ensures
        spans.deep_view() == highlighted(text@, search@),
{
    let mut spans: Vec<Span> = Vec::new();
    if search.is_empty() {
        spans.push(Span::raw(text.to_string()));
        assert(spans.deep_view() =~= highlighted(text@, search@));
        return spans;
    }
    let chars = to_chars(text);
    let lower = to_chars(to_lowercase(text).as_str());
    let needle = to_chars(to_lowercase(search).as_str());
    let width = to_chars(search).len();
    let mut from: usize = 0;
    let ghost whole = highlighted(text@, search@);
    loop
        invariant_except_break
            chars@ == text@,
            lower@ == lowercase_of(text@),
            needle@ == lowercase_of(search@),
            width == search@.len(),
            width > 0,
            whole == highlighted(text@, search@),
            from <= lower.len(),
            whole == spans.deep_view() + highlighted_from(
                chars@,
                lower@,
                needle@,
                width as nat,
                from as int,
            ),
        ensures
            spans.deep_view() == whole,
        decreases lower.len() - from,
    {
        let ghost so_far = spans.deep_view();
        match find_run(&lower, &needle, from) {
            None => {
                if from < chars.len() {
                    spans.push(Span::raw(clip(&chars, from, chars.len())));
                }
                assert(spans.deep_view() =~= so_far + rest_of(chars@, from as int));
                break ;
            },
            Some(at) => {
                if at > from {
                    spans.push(Span::raw(clip(&chars, from, at)));
                }
                let fits = width <= usize::MAX - at;
                let end = if fits {
                    at + width
                } else {
                    usize::MAX
                };
                let total = chars.len();
                spans.push(Span::styled(clip(&chars, at, end), Tone::Highlight));
                proof {
                    assert(total <= usize::MAX);
                    assert(clipped(chars@, at as int, end as int) == clipped(
                        chars@,
                        at as int,
                        at + width,
                    ));
                }
                if fits && end <= lower.len() {
                    let ghost cut = if at > from {
                        seq![styled(clipped(chars@, from as int, at as int), Tone::Plain)]
                    } else {
                        Seq::<SpanView>::empty()
                    };
                    assert(spans.deep_view() =~= so_far + cut + seq![
                        styled(clipped(chars@, at as int, at + width), Tone::Highlight),
                    ]);
                    from = end;
                } else {
                    if end < chars.len() {
                        spans.push(Span::raw(clip(&chars, end, chars.len())));
                    }
                    let ghost cut = if at > from {
                        seq![styled(clipped(chars@, from as int, at as int), Tone::Plain)]
                    } else {
                        Seq::<SpanView>::empty()
                    };
                    assert(spans.deep_view() =~= so_far + (cut + seq![
                        styled(clipped(chars@, at as int, at + width), Tone::Highlight),
                    ] + rest_of(chars@, at + width)));
                    break ;
                }
            },
        }
    }
    spans
}

/// The icon of a directory or of a file.
pub open spec fn icon_of(is_dir: bool) -> Seq<char> {
    if is_dir {
        "\u{1F4C1}"@
    } else {
        "\u{1F4C4}"@
    }
}

/// The name `name` as a row shows it: with the search text highlighted where
/// there is one, else in the colour `tone`.
pub open spec fn name_spans(name: Seq<char>, search: Seq<char>, tone: Tone) -> Seq<SpanView> {
    if search.len() > 0 {
        highlighted(name, search)
    } else {
        seq![styled(name, tone)]
    }
}

/// The row of the list for the file `file`: its icon, a space, its name.
pub open spec fn file_row(file: FileItemView, search: Seq<char>) -> Seq<SpanView> {
    seq![styled(icon_of(file.is_dir), Tone::Plain), styled(" "@, Tone::Plain)] + name_spans(
        file.name,
        search,
        if file.is_dir {
            Tone::Cyan
        } else {
            Tone::Plain
        },
    )
}

/// The row of the list for `item`: a file as [`file_row`] gives it, a
/// history entry as a directory named by the final component of its path.
pub open spec fn item_row(item: DisplayItemView, search: Seq<char>) -> Seq<SpanView> {
    match item {
        DisplayItemView::File(file) => file_row(file, search),
        DisplayItemView::History(entry) => seq![
            styled(icon_of(true), Tone::Plain),
            styled(" "@, Tone::Plain),
        ] + name_spans(display_name_of(entry.path), search, Tone::Cyan),
    }
}

/// The name of a history entry as its row shows it: where the search text
/// stands in it, what lies before, the match, and what lies after; else the
/// name.
pub open spec fn history_name_spans(name: Seq<char>, search: Seq<char>) -> Seq<SpanView> {
    let at = next_match(lowercase_of(name), lowercase_of(search), 0);
    if search.len() > 0 && 0 <= at <= lowercase_of(name).len() {
        seq![
            styled(clipped(name, 0, at), Tone::Cyan),
            styled(clipped(name, at, at + search.len()), Tone::Match),
            styled(clipped(name, at + search.len(), name.len() as int), Tone::Cyan),
        ]
    } else {
        seq![styled(name, Tone::Cyan)]
    }
}

/// The row of the history list for `item`: the icon, the name, the number of
/// visits and the path.
pub open spec fn history_row(item: DisplayItemView, search: Seq<char>) -> Seq<SpanView> {
    match item {
        DisplayItemView::History(entry) => seq![
            styled(icon_of(true), Tone::Cyan),
            styled(" "@, Tone::Plain),
        ] + history_name_spans(display_name_of(entry.path), search) + seq![
            styled(" ("@ + decimal(entry.frequency as nat) + "\u{d7})"@, Tone::Yellow),
            styled(" "@, Tone::Plain),
            styled("("@ + entry.path + ")"@, Tone::DarkGray),
        ],
        DisplayItemView::File(_) => line_of("Invalid history entry"@, Tone::Plain),
    }
}

/// Appends every span of `tail` to `out`.
fn push_spans(out: &mut Vec<Span>, tail: Vec<Span>)
    ensures
        final(out).deep_view() == old(out).deep_view() + tail.deep_view(),
{
    let ghost start = out.deep_view();
    let mut i: usize = 0;
    while i < tail.len()
        invariant
            i <= tail.len(),
            out.len() == start.len() + i,
            forall|k: int| 0 <= k < start.len() ==> (#[trigger] out@[k])@ == start[k],
            forall|k: int|
                start.len() <= k < start.len() + i ==> (#[trigger] out@[k])@ == tail@[k
                    - start.len()]@,
        decreases tail.len() - i,
    {
        out.push(tail[i].clone());
        i += 1;
    }
    assert(out.deep_view() =~= start + tail.deep_view());
}

/// The spans of `name` as a row shows it.
fn name_spans_of(name: &str, search: &str, tone: Tone) -> (spans: Vec<Span>)
    ensures
        spans.deep_view() == name_spans(name@, search@, tone),
{
    if !search.is_empty() {
        highlight_search_term(name, search)
    } else {
        let mut spans: Vec<Span> = Vec::new();
        spans.push(Span::styled(name.to_string(), tone));
        assert(spans.deep_view() =~= name_spans(name@, search@, tone));
        spans
    }
}

/// The row of the list for `file`.
pub fn create_file_list_item(file: &FileItem, search_input: &str) -> (row: Line)
    ensures
        row@ == file_row(file@, search_input@),
{
    let mut spans: Vec<Span> = Vec::new();
    if file.is_dir {
        spans.push(Span::raw("\u{1F4C1}".to_string()));
    } else {
        spans.push(Span::raw("\u{1F4C4}".to_string()));
    }
    spans.push(Span::raw(" ".to_string()));
    let tone = if file.is_dir {
        Tone::Cyan
    } else {
        Tone::Plain
    };
    assert(spans.deep_view() =~= seq![
        styled(icon_of(file.is_dir), Tone::Plain),
        styled(" "@, Tone::Plain),
    ]);
    push_spans(&mut spans, name_spans_of(file.name.as_str(), search_input, tone));
    Line::from(spans)
}

/// The row of the list for `item`.
pub fn create_display_item_list_item(item: &DisplayItem, search_input: &str) -> (row: Line)
    ensures
        row@ == item_row(item@, search_input@),
{
    match item {
        DisplayItem::File(file) => create_file_list_item(file, search_input),
        DisplayItem::History(entry) => {
            let name = display_name(entry.path.as_str());
            let mut spans: Vec<Span> = Vec::new();
            spans.push(Span::raw("\u{1F4C1}".to_string()));
            spans.push(Span::raw(" ".to_string()));
            assert(spans.deep_view() =~= seq![
                styled(icon_of(true), Tone::Plain),
                styled(" "@, Tone::Plain),
            ]);
            push_spans(&mut spans, name_spans_of(name.as_str(), search_input, Tone::Cyan));
            Line::from(spans)
        },
    }
}

/// The name of a history entry as its row shows it.
fn history_name_spans_of(name: &str, search: &str) -> (spans: Vec<Span>)
    ensures
        spans.deep_view() == history_name_spans(name@, search@),
{
    let mut spans: Vec<Span> = Vec::new();
    if !search.is_empty() {
        let chars = to_chars(name);
        let lower = to_chars(to_lowercase(name).as_str());
        let needle = to_chars(to_lowercase(search).as_str());
        let width = to_chars(search).len();
        match find_run(&lower, &needle, 0) {
            Some(at) => {
                let total = chars.len();
                let end = if width <= usize::MAX - at {
                    at + width
                } else {
                    usize::MAX
                };
                spans.push(Span::styled(clip(&chars, 0, at), Tone::Cyan));
                spans.push(Span::styled(clip(&chars, at, end), Tone::Match));
                spans.push(Span::styled(clip(&chars, end, total), Tone::Cyan));
                proof {
                    assert(total <= usize::MAX);
                    assert(clipped(chars@, at as int, end as int) == clipped(
                        chars@,
                        at as int,
                        at + width,
                    ));
                    assert(clipped(chars@, end as int, total as int) == clipped(
                        chars@,
                        at + width,
                        total as int,
                    ));
                    assert(spans.deep_view() =~= history_name_spans(name@, search@));
                }
                return spans;
            },
            None => {},
        }
    }
    spans.push(Span::styled(name.to_string(), Tone::Cyan));
    assert(spans.deep_view() =~= history_name_spans(name@, search@));
    spans
}

/// The row of the history list for `item`.
pub fn create_history_list_item(item: &DisplayItem, search_input: &str) -> (row: Line)
    ensures
        row@ == history_row(item@, search_input@),
{
    match item {
        DisplayItem::History(entry) => {
            let name = display_name(entry.path.as_str());
            let mut spans: Vec<Span> = Vec::new();
            spans.push(Span::styled("\u{1F4C1}".to_string(), Tone::Cyan));
            spans.push(Span::raw(" ".to_string()));
            let ghost head = spans.deep_view();
            assert(head =~= seq![styled(icon_of(true), Tone::Cyan), styled(" "@, Tone::Plain)]);
            push_spans(&mut spans, history_name_spans_of(name.as_str(), search_input));
            let ghost named = spans.deep_view();
            let mut visits: Vec<char> = Vec::new();
            push_str(&mut visits, " (");
            push_decimal(&mut visits, entry.frequency as u64);
            push_str(&mut visits, "\u{d7})");
            assert(visits@ =~= " ("@ + decimal(entry.frequency as nat) + "\u{d7})"@);
            let mut path: Vec<char> = Vec::new();
            push_str(&mut path, "(");
            push_str(&mut path, entry.path.as_str());
            push_str(&mut path, ")");
            assert(path@ =~= "("@ + entry.path@ + ")"@);
            spans.push(Span::styled(from_chars(&visits), Tone::Yellow));
            spans.push(Span::raw(" ".to_string()));
            spans.push(Span::styled(from_chars(&path), Tone::DarkGray));
            assert(spans.deep_view() =~= named + seq![
                styled(" ("@ + decimal(entry.frequency as nat) + "\u{d7})"@, Tone::Yellow),
                styled(" "@, Tone::Plain),
                styled("("@ + entry.path@ + ")"@, Tone::DarkGray),
            ]);
            Line::from(spans)
        },
        DisplayItem::File(_) => text_line("Invalid history entry", Tone::Plain),
    }
}

/// The title of the file list.
pub open spec fn file_list_title(state: AppState) -> Seq<char> {
    "Files - "@ + state.current_dir@ + " ("@ + decimal(state.filtered_files@.len()) + "/"@
        + decimal(state.files@.len()) + ")"@
}

/// The title of the history list.
pub open spec fn history_list_title(state: AppState) -> Seq<char> {
    if state.is_searching && state.search_input@.len() > 0 {
        "History - "@ + decimal(state.filtered_files@.len()) + " matches ("@ + decimal(
            state.filtered_files@.len(),
        ) + "/"@ + decimal(state.files@.len()) + ")"@
    } else {
        "History - "@ + decimal(state.files@.len()) + " entries"@
    }
}

/// The rows of the file list: one for each item that passes the search.
pub open spec fn file_list_lines(state: AppState) -> Seq<Seq<SpanView>> {
    Seq::new(
        state.filtered_files@.len(),
        |k: int|
            item_row(
                state.files.deep_view()[state.filtered_files@[k] as int],
                state.search_input@,
            ),
    )
}

/// The rows of the history list: one for each entry that passes the search,
/// or a notice that there is none.
pub open spec fn history_list_lines(state: AppState) -> Seq<Seq<SpanView>> {
    if state.filtered_files@.len() > 0 {
        Seq::new(
            state.filtered_files@.len(),
            |k: int|
                history_row(
                    state.files.deep_view()[state.filtered_files@[k] as int],
                    state.search_input@,
                ),
        )
    } else if state.files@.len() == 0 {
        seq![line_of("No history available"@, Tone::Plain)]
    } else {
        seq![line_of("No matching history entries"@, Tone::Plain)]
    }
}

/// Shows the items of the listing that pass the search.
#[derive(Clone, Copy, Debug)]
pub struct FileListRenderer;

impl FileListRenderer {
    pub fn new() -> Self {
        FileListRenderer
    }

    /// The file list: the directory and the counts in the title, a row for
    /// each item that passes the search.
    pub fn render(&self, state: &AppState) -> (panel: Panel)
        ensures
            panel@.title == file_list_title(*state),
            state.wf() ==> panel@.lines == file_list_lines(*state),
    {
        let mut title: Vec<char> = Vec::new();
        push_str(&mut title, "Files - ");
        push_str(&mut title, state.current_dir.as_str());
        push_str(&mut title, " (");
        push_decimal(&mut title, state.filtered_files.len() as u64);
        push_str(&mut title, "/");
        push_decimal(&mut title, state.files.len() as u64);
        push_str(&mut title, ")");
        assert(title@ =~= file_list_title(*state));
        let mut lines: Vec<Line> = Vec::new();
        let mut k: usize = 0;
        while k < state.filtered_files.len()
            invariant
                k <= state.filtered_files.len(),
                state.wf() ==> lines.len() == k,
                state.wf() ==> forall|j: int|
                    0 <= j < k ==> (#[trigger] lines@[j])@ == item_row(
                        state.files.deep_view()[state.filtered_files@[j] as int],
                        state.search_input@,
                    ),
            decreases state.filtered_files.len() - k,
        {
            let index = state.filtered_files[k];
            if index < state.files.len() {
                lines.push(
                    create_display_item_list_item(&state.files[index], state.search_input.as_str()),
                );
            }
            k += 1;
        }
        proof {
            if state.wf() {
                assert(lines.deep_view() =~= file_list_lines(*state));
            }
        }
        Panel { title: from_chars(&title), lines }
    }
}

/// Shows the entries of the history that pass the search.
#[derive(Clone, Copy, Debug)]
pub struct HistoryListRenderer;

impl HistoryListRenderer {
    pub fn new() -> Self {
        HistoryListRenderer
    }

    /// The history list: the counts in the title, a row for each entry that
    /// passes the search, or a notice that there is none.
    pub fn render(&self, state: &AppState) -> (panel: Panel)
        ensures
            panel@.title == history_list_title(*state),
            state.wf() ==> panel@.lines == history_list_lines(*state),
    {
        let mut title: Vec<char> = Vec::new();
        push_str(&mut title, "History - ");
        if state.is_searching && !state.search_input.as_str().is_empty() {
            push_decimal(&mut title, state.filtered_files.len() as u64);
            push_str(&mut title, " matches (");
            push_decimal(&mut title, state.filtered_files.len() as u64);
            push_str(&mut title, "/");
            push_decimal(&mut title, state.files.len() as u64);
            push_str(&mut title, ")");
        } else {
            push_decimal(&mut title, state.files.len() as u64);
            push_str(&mut title, " entries");
        }
        assert(title@ =~= history_list_title(*state));
        let mut lines: Vec<Line> = Vec::new();
        if state.filtered_files.len() == 0 {
            if state.files.len() == 0 {
                lines.push(text_line("No history available", Tone::Plain));
                assert(lines.deep_view() =~= seq![line_of("No history available"@, Tone::Plain)]);
            } else {
                lines.push(text_line("No matching history entries", Tone::Plain));
                assert(lines.deep_view() =~= seq![
                    line_of("No matching history entries"@, Tone::Plain),
                ]);
            }
            return Panel { title: from_chars(&title), lines };
        }
        let mut k: usize = 0;
        while k < state.filtered_files.len()
            invariant
                k <= state.filtered_files.len(),
                state.wf() ==> lines.len() == k,
                state.wf() ==> forall|j: int|
                    0 <= j < k ==> (#[trigger] lines@[j])@ == history_row(
                        state.files.deep_view()[state.filtered_files@[j] as int],
                        state.search_input@,
                    ),
            decreases state.filtered_files.len() - k,
        {
            let index = state.filtered_files[k];
            if index < state.files.len() {
                lines.push(
                    create_history_list_item(&state.files[index], state.search_input.as_str()),
                );
            }
            k += 1;
        }
        proof {
            if state.wf() {
                assert(lines.deep_view() =~= history_list_lines(*state));
            }
        }
        Panel { title: from_chars(&title), lines }
    }
}

/// What the preview panel shows: the title, the lines in view, or a picture.
#[derive(Debug, PartialEq)]
pub struct PreviewPanel {
    pub title: String,
    pub lines: Vec<Line>,
    /// Whether the panel shows the picture that the caller holds.
    pub picture: bool,
}

/// The lines of `lines` that a panel of `height` rows shows from row
/// `offset` on.
pub open spec fn lines_in_view(lines: Seq<Seq<SpanView>>, offset: nat, height: nat) -> Seq<
    Seq<SpanView>,
> {
    if offset < lines.len() {
        lines.subrange(
            offset as int,
            if offset + height < lines.len() {
                (offset + height) as int
            } else {
                lines.len() as int
            },
        )
    } else {
        Seq::empty()
    }
}

/// Shows the preview.
#[derive(Clone, Copy, Debug)]
pub struct PreviewRenderer;

impl PreviewRenderer {
    pub fn new() -> Self {
        PreviewRenderer
    }

    /// The preview in the panel `area`: the title, and the lines of a text
    /// that are in view, or the picture.
    pub fn render(&self, preview: &PreviewState, area: Rect) -> (panel: PreviewPanel)
        ensures
            panel.title@ == preview@.title,
            match preview@.content {
                ContentView::Text(lines) => !panel.picture && panel.lines.deep_view()
                    == lines_in_view(lines, preview@.scroll_offset as nat, content_height(area)),
                ContentView::Image => panel.picture && panel.lines@.len() == 0,
            },
    {
        let title = preview.title.clone();
        match &preview.content {
            PreviewContent::Image => PreviewPanel { title, lines: Vec::new(), picture: true },
            PreviewContent::Text(lines) => {
                let height: usize = if area.height >= 2 {
                    (area.height - 2) as usize
                } else {
                    0
                };
                let start = preview.scroll_offset;
                let mut shown: Vec<Line> = Vec::new();
                if start < lines.len() {
                    let end = if height < lines.len() - start {
                        start + height
                    } else {
                        lines.len()
                    };
                    let mut i: usize = start;
                    while i < end
                        invariant
                            start <= i <= end <= lines.len(),
                            shown.len() == i - start,
                            forall|k: int|
                                0 <= k < i - start ==> (#[trigger] shown@[k])@ == lines@[start
                                    + k]@,
                        decreases end - i,
                    {
                        shown.push(lines[i].clone());
                        i += 1;
                    }
                    assert(shown.deep_view() =~= lines_in_view(
                        lines.deep_view(),
                        start as nat,
                        height as nat,
                    ));
                } else {
                    assert(shown.deep_view() =~= lines_in_view(
                        lines.deep_view(),
                        start as nat,
                        height as nat,
                    ));
                }
                PreviewPanel { title, lines: shown, picture: false }
            },
        }
    }
}

/// The kinds of renderer.
#[derive(Clone, Copy, Debug, PartialEq, Eq, Structural)]
pub enum RendererType {
    FileList,
    HistoryList,
    Preview,
    NormalHelp,
    SearchHelp,
    HistoryHelp,
}

/// A renderer of one of the kinds.
#[derive(Clone, Copy, Debug)]
pub enum AnyRenderer {
    FileList(FileListRenderer),
    HistoryList(HistoryListRenderer),
    Preview(PreviewRenderer),
    NormalHelp(NormalHelpRenderer),
    SearchHelp(SearchHelpRenderer),
    HistoryHelp(HistoryHelpRenderer),
}

impl AnyRenderer {
    /// The kind of the renderer.
    pub open spec fn kind(self) -> RendererType {
        match self {
            AnyRenderer::FileList(_) => RendererType::FileList,
            AnyRenderer::HistoryList(_) => RendererType::HistoryList,
            AnyRenderer::Preview(_) => RendererType::Preview,
            AnyRenderer::NormalHelp(_) => RendererType::NormalHelp,
            AnyRenderer::SearchHelp(_) => RendererType::SearchHelp,
            AnyRenderer::HistoryHelp(_) => RendererType::HistoryHelp,
        }
    }
}

/// The renderer of the kind `renderer_type`.
pub fn create_renderer(renderer_type: RendererType) -> (renderer: AnyRenderer)
    ensures
        renderer.kind() == renderer_type,
{
    match renderer_type {
        RendererType::FileList => AnyRenderer::FileList(FileListRenderer::new()),
        RendererType::HistoryList => AnyRenderer::HistoryList(HistoryListRenderer::new()),
        RendererType::Preview => AnyRenderer::Preview(PreviewRenderer::new()),
        RendererType::NormalHelp => AnyRenderer::NormalHelp(NormalHelpRenderer::new()),
        RendererType::SearchHelp => AnyRenderer::SearchHelp(SearchHelpRenderer::new()),
        RendererType::HistoryHelp => AnyRenderer::HistoryHelp(HistoryHelpRenderer::new()),
    }
}

} // verus!
