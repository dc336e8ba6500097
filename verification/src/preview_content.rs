//! What the preview panel shows: lines of coloured text, or a picture.

use vstd::prelude::*;

verus! {

/// The colour in which a piece of preview text is drawn.
#[derive(Clone, Copy, Debug, PartialEq, Eq, Structural)]
pub enum Tone {
    /// The terminal's own foreground.
    Plain,
    Red,
    Yellow,
    Gray,
    DarkGray,
    Cyan,
    Green,
    /// Dark on yellow: the part of a name that matches the search text.
    Highlight,
    /// Yellow on dark gray: the match in the name of a history entry.
    Match,
}

/// A piece of text in one colour.
#[derive(Debug, PartialEq)]
pub struct Span {
    pub text: String,
    pub tone: Tone,
}

/// What a [`Span`] is to contracts.
pub struct SpanView {
    pub text: Seq<char>,
    pub tone: Tone,
}

impl View for Span {
    type V = SpanView;

    open spec fn view(&self) -> SpanView {
        SpanView { text: self.text@, tone: self.tone }
    }
}

impl DeepView for Span {
    type V = SpanView;

    open spec fn deep_view(&self) -> SpanView {
        self@
    }
}

impl Clone for Span {
    fn clone(&self) -> (copy: Self)
        ensures
            copy@ == self@,
    {
        Span { text: self.text.clone(), tone: self.tone }
    }
}

/// The span of `text` in the colour `tone`.
pub open spec fn styled(text: Seq<char>, tone: Tone) -> SpanView {
    SpanView { text, tone }
}

/// The line that holds `text` alone, in the colour `tone`.
pub open spec fn line_of(text: Seq<char>, tone: Tone) -> Seq<SpanView> {
    seq![styled(text, tone)]
}

/// The line that holds nothing.
pub open spec fn blank_line() -> Seq<SpanView> {
    line_of(Seq::<char>::empty(), Tone::Plain)
}

impl Span {
    /// A span of `text` in the colour `tone`.
    pub fn styled(text: String, tone: Tone) -> (span: Span)
        ensures
            span@ == styled(text@, tone),
    {
        Span { text, tone }
    }

    /// A span of `text` in the terminal's own colour.
    pub fn raw(text: String) -> (span: Span)
        ensures
            span@ == styled(text@, Tone::Plain),
    {
        Span { text, tone: Tone::Plain }
    }
}

/// One line of the preview: spans side by side.
#[derive(Debug, PartialEq)]
pub struct Line {
    pub spans: Vec<Span>,
}

impl View for Line {
    type V = Seq<SpanView>;

    open spec fn view(&self) -> Seq<SpanView> {
        self.spans.deep_view()
    }
}

impl DeepView for Line {
    type V = Seq<SpanView>;

    open spec fn deep_view(&self) -> Seq<SpanView> {
        self@
    }
}

impl Clone for Line {
    fn clone(&self) -> (copy: Self)
        ensures
            copy@ == self@,
    {
        let mut spans: Vec<Span> = Vec::new();
        let mut i: usize = 0;
        while i < self.spans.len()
            invariant
                i <= self.spans.len(),
                spans.len() == i,
                forall|k: int| 0 <= k < i ==> (#[trigger] spans@[k])@ == self.spans@[k]@,
            decreases self.spans.len() - i,
        {
            spans.push(self.spans[i].clone());
            i += 1;
        }
        assert(spans.deep_view() =~= self.spans.deep_view());
        Line { spans }
    }
}

impl Line {
    /// The line made of `spans`.
    pub fn from(spans: Vec<Span>) -> (line: Line)
        ensures
            line@ == spans.deep_view(),
    {
        Line { spans }
    }

    /// The line that holds `text` alone, in the colour `tone`.
    pub fn single(text: String, tone: Tone) -> (line: Line)
        ensures
            line@ == line_of(text@, tone),
    {
        let mut spans: Vec<Span> = Vec::new();
        spans.push(Span::styled(text, tone));
        assert(spans.deep_view() =~= line_of(text@, tone));
        Line { spans }
    }

    /// The line that holds nothing.
    pub fn blank() -> (line: Line)
        ensures
            line@ == blank_line(),
    {
        Line::single(String::new(), Tone::Plain)
    }
}

/// What the preview panel holds: text, or a picture that the caller keeps.
#[derive(Debug, PartialEq)]
pub enum PreviewContent {
    /// Lines of text.
    Text(Vec<Line>),
    /// A decoded picture, drawn over the whole panel.
    Image,
}

/// What a [`PreviewContent`] is to contracts.
pub enum ContentView {
    Text(Seq<Seq<SpanView>>),
    Image,
}

impl ContentView {
    /// The number of rows that scrolling goes by: the lines of a text, one for
    /// a picture.
    pub open spec fn len(self) -> nat {
        match self {
            ContentView::Text(lines) => lines.len(),
            ContentView::Image => 1,
        }
    }
}

impl View for PreviewContent {
    type V = ContentView;

    open spec fn view(&self) -> ContentView {
        match self {
            PreviewContent::Text(lines) => ContentView::Text(lines.deep_view()),
            PreviewContent::Image => ContentView::Image,
        }
    }
}

impl Clone for PreviewContent {
    fn clone(&self) -> (copy: Self)
        ensures
            copy@ == self@,
    {
        match self {
            PreviewContent::Text(lines) => {
                let mut out: Vec<Line> = Vec::new();
                let mut i: usize = 0;
                while i < lines.len()
                    invariant
                        i <= lines.len(),
                        out.len() == i,
                        forall|k: int| 0 <= k < i ==> (#[trigger] out@[k])@ == lines@[k]@,
                    decreases lines.len() - i,
                {
                    out.push(lines[i].clone());
                    i += 1;
                }
                assert(out.deep_view() =~= lines.deep_view());
                PreviewContent::Text(out)
            },
            PreviewContent::Image => PreviewContent::Image,
        }
    }
}

impl Default for PreviewContent {
    fn default() -> (content: Self)
        ensures
            content@ == ContentView::Text(Seq::empty()),
    {
        let lines: Vec<Line> = Vec::new();
        assert(lines.deep_view() =~= Seq::empty());
        PreviewContent::Text(lines)
    }
}

impl PreviewContent {
    /// Text content made of `lines`.
    pub fn text(lines: Vec<Line>) -> (content: PreviewContent)
        ensures
            content@ == ContentView::Text(lines.deep_view()),
    {
        PreviewContent::Text(lines)
    }

    /// Picture content.
    pub fn image() -> (content: PreviewContent)
        ensures
            content@ == ContentView::Image,
    {
        PreviewContent::Image
    }

    /// Whether this is text.
    pub fn is_text(&self) -> (r: bool)
        ensures
            r == (self@ is Text),
    {
        match self {
            PreviewContent::Text(_) => true,
            PreviewContent::Image => false,
        }
    }

    /// Whether this is a picture.
    pub fn is_image(&self) -> (r: bool)
        ensures
            r == (self@ is Image),
    {
        match self {
            PreviewContent::Text(_) => false,
            PreviewContent::Image => true,
        }
    }

    /// The lines, if this is text.
    pub fn as_text(&self) -> (lines: Option<&Vec<Line>>)
        ensures
            match lines {
                Some(l) => self@ == ContentView::Text(l.deep_view()),
                None => self@ is Image,
            },
    {
        match self {
            PreviewContent::Text(lines) => Some(lines),
            PreviewContent::Image => None,
        }
    }

    /// The number of rows that scrolling goes by: the lines of a text, one for
    /// a picture.
    pub fn len(&self) -> (n: usize)
        ensures
            n == self@.len(),
    {
        match self {
            PreviewContent::Text(lines) => lines.len(),
            PreviewContent::Image => 1,
        }
    }

    /// Whether there is nothing to show: a text without lines.
    pub fn is_empty(&self) -> (r: bool)
        ensures
            r == (self@.len() == 0),
    {
        match self {
            PreviewContent::Text(lines) => lines.len() == 0,
            PreviewContent::Image => false,
        }
    }
}

} // verus!
