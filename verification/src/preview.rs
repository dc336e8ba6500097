//! What the preview panel shows for an item, worked out from what the file
//! system gave for it.
//!
//! Nothing here reads a file. The caller learns from [`PreviewGenerator::plan`]
//! what to fetch for an item, fetches it in the background, and hands the
//! outcome to [`PreviewGenerator::generate_preview_content`].

use vstd::prelude::*;
use crate::listing::{is_drives_path, is_listing_order, listing_order};
use crate::models::{FileItem, FileItemView};
use crate::preview_content::{
    blank_line,
    line_of,
    styled,
    ContentView,
    Line,
    PreviewContent,
    Span,
    SpanView,
    Tone,
};
use crate::text::{
    decimal,
    escaped,
    from_chars,
    hex_digit,
    hex_digit_char,
    lines_of,
    process_special_characters,
    push_decimal,
    push_decimal_aligned,
    push_repeated,
    push_str,
    repeated,
    right_aligned,
    split_lines,
    str_equals,
};

verus! {

/// Files above this size, in bytes, are described and not shown.
pub const MAX_PREVIEW_SIZE: u64 = 5 * 1024 * 1024;

/// A directory preview lists this many entries at most.
pub const MAX_LISTED_ENTRIES: usize = 100;

/// The width of the rule under a preview's first line.
pub const SEPARATOR_WIDTH: usize = 50;

/// The title of a file's preview.
pub open spec fn file_title(name: Seq<char>) -> Seq<char> {
    "\u{1F4C4} "@ + name
}

/// The title of a directory's preview.
pub open spec fn directory_title(name: Seq<char>) -> Seq<char> {
    "\u{1F4C1} "@ + name
}

/// The title of a picture's preview.
pub open spec fn image_title(name: Seq<char>) -> Seq<char> {
    "\u{1F5BC}\u{FE0F} "@ + name
}

/// The title of the drive list.
pub open spec fn drives_title() -> Seq<char> {
    "\u{1F4BE} Available Drives"@
}

/// The rule under a preview's first line.
pub open spec fn separator() -> Seq<SpanView> {
    line_of(repeated('\u{2500}', SEPARATOR_WIDTH as nat), Tone::Gray)
}

/// Line `index`, counted from zero, of a previewed text: its number, counted
/// from one, flush right in three columns, a space, and the line with its
/// control characters made visible.
pub open spec fn numbered(index: int, line: Seq<char>) -> Seq<SpanView> {
    seq![
        styled(right_aligned(decimal((index + 1) as nat), 3).push(' '), Tone::DarkGray),
        styled(escaped(line), Tone::Plain),
    ]
}

/// The numbered lines of a previewed text.
pub open spec fn numbered_lines(lines: Seq<Seq<char>>) -> Seq<Seq<SpanView>> {
    Seq::new(lines.len(), |i: int| numbered(i, lines[i]))
}

/// `size` bytes in hundredths of a mebibyte, rounded to the nearest, a tie to
/// the even one.
pub open spec fn megabyte_hundredths(size: nat) -> nat {
    let q = size * 100 / 1048576;
    let r = size * 100 % 1048576;
    if r > 524288 || (r == 524288 && q % 2 == 1) {
        q + 1
    } else {
        q
    }
}

/// `size` bytes in mebibytes, with two decimals.
pub open spec fn megabytes(size: nat) -> Seq<char> {
    let h = megabyte_hundredths(size);
    decimal(h / 100).push('.').push(hex_digit((h % 100) as int / 10)).push(
        hex_digit((h % 10) as int),
    )
}

/// What reading a file as text gave, for a file that can be read so.
#[derive(Debug)]
pub enum TextRead {
    /// The size that the file system reports, and the text.
    Content { size: u64, text: String },
    /// The file could no longer be read as text; its size.
    Unreadable { size: u64 },
    /// The size could not be had; the error in words.
    MetadataFailed { message: String },
}

/// What the file system gave for a file that cannot be read as text.
#[derive(Debug)]
pub enum BinaryRead {
    /// The size that the file system reports.
    Size { size: u64 },
    /// The size could not be had; the error in words.
    MetadataFailed { message: String },
}

/// What reading a PDF document and extracting its text gave.
#[derive(Debug)]
pub enum PdfRead {
    /// The text of the document.
    Extracted { text: String },
    /// The document was read, its text could not be had; the error in words.
    ExtractionFailed { message: String },
    /// The document could not be read; the error in words.
    ReadFailed { message: String },
}

/// What decoding a picture gave.
#[derive(Debug)]
pub enum ImageLoad {
    /// The picture is decoded; the caller holds it.
    Decoded,
    /// It could not be decoded; the error in words.
    Failed { message: String },
}

/// What reading a directory gave.
#[derive(Debug)]
pub enum DirectoryRead {
    /// The entries, in the order the file system gave them.
    Entries { entries: Vec<FileItem> },
    /// The directory could not be read; the error in words.
    Failed { message: String },
    /// The drives of the machine.
    Drives { drives: Vec<FileItem> },
    /// The drives could not be listed; the error in words.
    DrivesFailed { message: String },
    /// The platform has no drive letters.
    DrivesUnavailable,
}

/// What was fetched for an item, by the kind of preview it is for.
#[derive(Debug)]
pub enum Fetched {
    Directory(DirectoryRead),
    Image(ImageLoad),
    Pdf(PdfRead),
    Text(TextRead),
    Binary(BinaryRead),
}

/// The one line shown when a file's size cannot be had.
pub open spec fn metadata_error_lines(message: Seq<char>) -> Seq<Seq<SpanView>> {
    seq![line_of("Error reading file metadata: "@ + message, Tone::Red)]
}

/// What is shown for a file of `size` bytes that is too large to show.
pub open spec fn large_file_lines(size: nat) -> Seq<Seq<SpanView>> {
    seq![
        line_of("Large File"@, Tone::Yellow),
        blank_line(),
        line_of(
            "Size: "@ + decimal(size) + " bytes ("@ + megabytes(size) + " MB)"@,
            Tone::Gray,
        ),
        line_of("File too large for preview (>5MB)"@, Tone::Gray),
        blank_line(),
        line_of("Basic file information:"@, Tone::Cyan),
    ]
}

/// What is shown for the text `text`: its size in bytes and its number of
/// lines, a rule, and the lines, numbered.
pub open spec fn text_lines(text: Seq<char>) -> Seq<Seq<SpanView>> {
    seq![
        line_of(
            "Size: "@ + decimal(vstd::utf8::encode_utf8(text).len()) + " bytes, "@ + decimal(
                lines_of(text).len(),
            ) + " lines"@,
            Tone::Gray,
        ),
        separator(),
    ] + numbered_lines(lines_of(text))
}

/// What is shown for a file of `size` bytes that could no longer be read.
pub open spec fn unreadable_lines(size: nat) -> Seq<Seq<SpanView>> {
    seq![
        line_of("Text Read Error"@, Tone::Red),
        blank_line(),
        line_of("Size: "@ + decimal(size) + " bytes"@, Tone::Gray),
        line_of("Cannot read as text"@, Tone::Gray),
    ]
}

/// What is shown for a binary file of `size` bytes.
pub open spec fn binary_lines(size: nat) -> Seq<Seq<SpanView>> {
    seq![
        line_of("Binary File"@, Tone::Yellow),
        blank_line(),
        line_of("Size: "@ + decimal(size) + " bytes"@, Tone::Gray),
        line_of("Cannot preview binary content"@, Tone::Gray),
        blank_line(),
        line_of("File type: Binary/Unknown"@, Tone::Cyan),
    ]
}

/// What is shown for a PDF document with the text `text`.
pub open spec fn pdf_lines(text: Seq<char>) -> Seq<Seq<SpanView>> {
    seq![
        line_of(
            "PDF Document - "@ + decimal(lines_of(text).len()) + " lines extracted"@,
            Tone::Cyan,
        ),
        separator(),
    ] + numbered_lines(lines_of(text))
}

/// What is shown for a PDF document whose text could not be had.
pub open spec fn pdf_extraction_error_lines(message: Seq<char>) -> Seq<Seq<SpanView>> {
    seq![
        line_of("PDF Processing Error"@, Tone::Red),
        blank_line(),
        line_of("Failed to extract text from PDF: "@ + message, Tone::Gray),
        blank_line(),
        line_of("This might be a scanned PDF or contain only images."@, Tone::Gray),
    ]
}

/// What is shown for a PDF document that could not be read.
pub open spec fn pdf_read_error_lines(message: Seq<char>) -> Seq<Seq<SpanView>> {
    seq![
        line_of("PDF Read Error"@, Tone::Red),
        blank_line(),
        line_of("Failed to read PDF file: "@ + message, Tone::Gray),
    ]
}

/// What is shown for a picture that could not be decoded.
pub open spec fn image_error_lines(message: Seq<char>) -> Seq<Seq<SpanView>> {
    seq![
        line_of("Image Load Error"@, Tone::Red),
        blank_line(),
        line_of("Failed to load image: "@ + message, Tone::Gray),
    ]
}

/// The line of a directory preview for the entry `entry`.
pub open spec fn entry_line(entry: FileItemView) -> Seq<SpanView> {
    seq![
        styled(
            if entry.is_dir {
                "\u{1F4C1}"@
            } else {
                "\u{1F4C4}"@
            },
            Tone::Plain,
        ),
        styled(" "@, Tone::Plain),
        styled(
            entry.name,
            if entry.is_dir {
                Tone::Cyan
            } else {
                Tone::Plain
            },
        ),
    ]
}

/// What is shown for a directory with the entries `entries`, read in `order`:
/// a line for each of the first hundred, then the number of those left out;
/// or a notice that there are none.
pub open spec fn directory_lines(entries: Seq<FileItemView>, order: Seq<usize>) -> Seq<
    Seq<SpanView>,
> {
    if entries.len() == 0 {
        seq![line_of("Empty directory"@, Tone::Gray)]
    } else if entries.len() <= MAX_LISTED_ENTRIES {
        Seq::new(entries.len(), |k: int| entry_line(entries[order[k] as int]))
    } else {
        Seq::new(MAX_LISTED_ENTRIES as nat, |k: int| entry_line(entries[order[k] as int])).push(
            line_of(
                "... and "@ + decimal((entries.len() - MAX_LISTED_ENTRIES) as nat)
                    + " more items"@,
                Tone::Gray,
            ),
        )
    }
}

/// The line of the drive list for the drive `drive`.
pub open spec fn drive_line(drive: FileItemView) -> Seq<SpanView> {
    seq![styled("\u{1F4BE} "@, Tone::Plain), styled(drive.name, Tone::Cyan)]
}

/// What is shown for the drives `drives`.
pub open spec fn drive_lines(drives: Seq<FileItemView>) -> Seq<Seq<SpanView>> {
    if drives.len() == 0 {
        seq![line_of("No drives found"@, Tone::Gray)]
    } else {
        Seq::new(drives.len(), |k: int| drive_line(drives[k]))
    }
}

/// `a` followed by `b`.
pub fn concat(a: &str, b: &str) -> (s: String)
    ensures
        s@ == a@ + b@,
{
    let mut buffer: Vec<char> = Vec::new();
    push_str(&mut buffer, a);
    push_str(&mut buffer, b);
    assert(buffer@ =~= a@ + b@);
    from_chars(&buffer)
}

/// `prefix`, the decimal digits of `n`, and `suffix`.
pub fn labelled(prefix: &str, n: u64, suffix: &str) -> (s: String)
    ensures
        s@ == prefix@ + decimal(n as nat) + suffix@,
{
    let mut buffer: Vec<char> = Vec::new();
    push_str(&mut buffer, prefix);
    push_decimal(&mut buffer, n);
    push_str(&mut buffer, suffix);
    assert(buffer@ =~= prefix@ + decimal(n as nat) + suffix@);
    from_chars(&buffer)
}

/// The line that holds `text` alone, in the colour `tone`.
pub fn text_line(text: &str, tone: Tone) -> (line: Line)
    ensures
        line@ == line_of(text@, tone),
{
    Line::single(text.to_string(), tone)
}

/// The rule under a preview's first line.
pub fn separator_line() -> (line: Line)
    ensures
        line@ == separator(),
{
    let mut buffer: Vec<char> = Vec::new();
    push_repeated(&mut buffer, '\u{2500}', SEPARATOR_WIDTH);
    assert(buffer@ =~= repeated('\u{2500}', SEPARATOR_WIDTH as nat));
    Line::single(from_chars(&buffer), Tone::Gray)
}

/// Appends the numbered lines of a previewed text to `out`.
pub fn push_numbered_lines(out: &mut Vec<Line>, lines: &Vec<String>)
    ensures
        final(out).deep_view() == old(out).deep_view() + numbered_lines(lines.deep_view()),
{
    let ghost start = out.deep_view();
    let mut i: usize = 0;
    while i < lines.len()
        invariant
            i <= lines.len(),
            out.len() == start.len() + i,
            forall|k: int| 0 <= k < start.len() ==> (#[trigger] out@[k])@ == start[k],
            forall|k: int|
                start.len() <= k < start.len() + i ==> (#[trigger] out@[k])@ == numbered(
                    k - start.len(),
                    lines@[k - start.len()]@,
                ),
        decreases lines.len() - i,
    {
        let mut number: Vec<char> = Vec::new();
        push_decimal_aligned(&mut number, (i as u64) + 1, 3);
        number.push(' ');
        assert(number@ =~= right_aligned(decimal((i + 1) as nat), 3).push(' '));
        let mut spans: Vec<Span> = Vec::new();
        spans.push(Span::styled(from_chars(&number), Tone::DarkGray));
        spans.push(Span::raw(process_special_characters(lines[i].as_str())));
        assert(spans.deep_view() =~= numbered(i as int, lines@[i as int]@));
        out.push(Line::from(spans));
        i += 1;
    }
    assert(out.deep_view() =~= start + numbered_lines(lines.deep_view()));
}

/// `size` bytes in mebibytes, with two decimals.
pub fn format_megabytes(size: u64) -> (s: String)
    ensures
        s@ == megabytes(size as nat),
{
    let scaled: u128 = (size as u128) * 100;
    let q: u128 = scaled / 1048576;
    let r: u128 = scaled % 1048576;
    let h: u128 = if r > 524288 || (r == 524288 && q % 2 == 1) {
        q + 1
    } else {
        q
    };
    assert(h == megabyte_hundredths(size as nat));
    let whole: u64 = (h / 100) as u64;
    let tens: u32 = ((h % 100) / 10) as u32;
    let ones: u32 = (h % 10) as u32;
    let mut buffer: Vec<char> = Vec::new();
    push_decimal(&mut buffer, whole);
    buffer.push('.');
    buffer.push(hex_digit_char(tens));
    buffer.push(hex_digit_char(ones));
    assert(buffer@ =~= megabytes(size as nat));
    from_chars(&buffer)
}

/// Shows files whose content is not text.
#[derive(Clone, Copy, Debug)]
pub struct BinaryPreviewGenerator;

/// What [`BinaryPreviewGenerator`] shows for `read`.
pub open spec fn binary_preview(read: BinaryRead) -> ContentView {
    match read {
        BinaryRead::Size { size } => ContentView::Text(binary_lines(size as nat)),
        BinaryRead::MetadataFailed { message } => ContentView::Text(
            metadata_error_lines(message@),
        ),
    }
}

impl BinaryPreviewGenerator {
    /// Any file can be shown as a binary file.
    pub fn can_handle(&self, file: &FileItem) -> (r: bool)
        ensures
            r,
    {
        true
    }

    /// The notice for a binary file: its kind and its size in bytes.
    pub fn generate_preview(&self, file: &FileItem, read: &BinaryRead) -> (out: (
        String,
        PreviewContent,
    ))
        ensures
            out.0@ == file_title(file@.name),
            out.1@ == binary_preview(*read),
    {
        let title = concat("\u{1F4C4} ", file.name.as_str());
        let mut lines: Vec<Line> = Vec::new();
        match read {
            BinaryRead::MetadataFailed { message } => {
                lines.push(
                    Line::single(
                        concat("Error reading file metadata: ", message.as_str()),
                        Tone::Red,
                    ),
                );
                assert(lines.deep_view() =~= metadata_error_lines(message@));
            },
            BinaryRead::Size { size } => {
                lines.push(text_line("Binary File", Tone::Yellow));
                lines.push(Line::blank());
                lines.push(Line::single(labelled("Size: ", *size, " bytes"), Tone::Gray));
                lines.push(text_line("Cannot preview binary content", Tone::Gray));
                lines.push(Line::blank());
                lines.push(text_line("File type: Binary/Unknown", Tone::Cyan));
                assert(lines.deep_view() =~= binary_lines(*size as nat));
            },
        }
        (title, PreviewContent::text(lines))
    }
}

/// Shows files that can be read as text.
#[derive(Clone, Copy, Debug)]
pub struct TextPreviewGenerator;

/// What [`TextPreviewGenerator`] shows for `read`.
pub open spec fn text_preview(read: TextRead) -> ContentView {
    match read {
        TextRead::MetadataFailed { message } => ContentView::Text(metadata_error_lines(message@)),
        TextRead::Unreadable { size } => if size > MAX_PREVIEW_SIZE {
            ContentView::Text(large_file_lines(size as nat))
        } else {
            ContentView::Text(unreadable_lines(size as nat))
        },
        TextRead::Content { size, text } => if size > MAX_PREVIEW_SIZE {
            ContentView::Text(large_file_lines(size as nat))
        } else {
            ContentView::Text(text_lines(text@))
        },
    }
}

/// The description of a file of `size` bytes that is too large to show.
fn large_file(size: u64) -> (lines: Vec<Line>)
    ensures
        lines.deep_view() == large_file_lines(size as nat),
{
    let mut buffer: Vec<char> = Vec::new();
    push_str(&mut buffer, "Size: ");
    push_decimal(&mut buffer, size);
    push_str(&mut buffer, " bytes (");
    let mb = format_megabytes(size);
    push_str(&mut buffer, mb.as_str());
    push_str(&mut buffer, " MB)");
    assert(buffer@ =~= "Size: "@ + decimal(size as nat) + " bytes ("@ + megabytes(size as nat)
        + " MB)"@);
    let mut lines: Vec<Line> = Vec::new();
    lines.push(text_line("Large File", Tone::Yellow));
    lines.push(Line::blank());
    lines.push(Line::single(from_chars(&buffer), Tone::Gray));
    lines.push(text_line("File too large for preview (>5MB)", Tone::Gray));
    lines.push(Line::blank());
    lines.push(text_line("Basic file information:", Tone::Cyan));
    assert(lines.deep_view() =~= large_file_lines(size as nat));
    lines
}

impl TextPreviewGenerator {
    /// A file can be shown as text where it can be read as text.
    pub fn can_handle(&self, file: &FileItem, readable_as_text: bool) -> (r: bool)
        ensures
            r == readable_as_text,
    {
        readable_as_text
    }

    /// The text of a file with its lines numbered, under a line that gives its
    /// size; for a file above the size cap, its size alone.
    pub fn generate_preview(&self, file: &FileItem, read: &TextRead) -> (out: (
        String,
        PreviewContent,
    ))
        ensures
            out.0@ == file_title(file@.name),
            out.1@ == text_preview(*read),
    {
        let title = concat("\u{1F4C4} ", file.name.as_str());
        match read {
            TextRead::MetadataFailed { message } => {
                let mut lines: Vec<Line> = Vec::new();
                lines.push(
                    Line::single(
                        concat("Error reading file metadata: ", message.as_str()),
                        Tone::Red,
                    ),
                );
                assert(lines.deep_view() =~= metadata_error_lines(message@));
                (title, PreviewContent::text(lines))
            },
            TextRead::Unreadable { size } => {
                if *size > MAX_PREVIEW_SIZE {
                    return (title, PreviewContent::text(large_file(*size)));
                }
                let mut lines: Vec<Line> = Vec::new();
                lines.push(text_line("Text Read Error", Tone::Red));
                lines.push(Line::blank());
                lines.push(Line::single(labelled("Size: ", *size, " bytes"), Tone::Gray));
                lines.push(text_line("Cannot read as text", Tone::Gray));
                assert(lines.deep_view() =~= unreadable_lines(*size as nat));
                (title, PreviewContent::text(lines))
            },
            TextRead::Content { size, text } => {
                if *size > MAX_PREVIEW_SIZE {
                    return (title, PreviewContent::text(large_file(*size)));
                }
                let body = split_lines(text.as_str());
                let mut buffer: Vec<char> = Vec::new();
                push_str(&mut buffer, "Size: ");
                let bytes = text.as_str().as_bytes();
                push_decimal(&mut buffer, bytes.len() as u64);
                push_str(&mut buffer, " bytes, ");
                push_decimal(&mut buffer, body.len() as u64);
                push_str(&mut buffer, " lines");
                assert(buffer@ =~= "Size: "@ + decimal(vstd::utf8::encode_utf8(text@).len())
                    + " bytes, "@ + decimal(lines_of(text@).len()) + " lines"@);
                let mut lines: Vec<Line> = Vec::new();
                lines.push(Line::single(from_chars(&buffer), Tone::Gray));
                lines.push(separator_line());
                push_numbered_lines(&mut lines, &body);
                assert(lines.deep_view() =~= text_lines(text@));
                (title, PreviewContent::text(lines))
            },
        }
    }
}

/// Shows PDF documents by their text.
#[derive(Clone, Copy, Debug)]
pub struct PdfPreviewGenerator;

/// What [`PdfPreviewGenerator`] shows for `read`.
pub open spec fn pdf_preview(read: PdfRead) -> ContentView {
    match read {
        PdfRead::Extracted { text } => ContentView::Text(pdf_lines(text@)),
        PdfRead::ExtractionFailed { message } => ContentView::Text(
            pdf_extraction_error_lines(message@),
        ),
        PdfRead::ReadFailed { message } => ContentView::Text(pdf_read_error_lines(message@)),
    }
}

impl PdfPreviewGenerator {
    /// A file is shown as a PDF document where its extension says so.
    pub fn can_handle(&self, file: &FileItem) -> (r: bool)
        ensures
            r == file@.is_pdf(),
    {
        file.is_pdf()
    }

    /// The text of a PDF document with its lines numbered; where the text
    /// could not be had, the failure in words.
    pub fn generate_preview(&self, file: &FileItem, read: &PdfRead) -> (out: (
        String,
        PreviewContent,
    ))
        ensures
            out.0@ == file_title(file@.name),
            out.1@ == pdf_preview(*read),
    {
        let title = concat("\u{1F4C4} ", file.name.as_str());
        let mut lines: Vec<Line> = Vec::new();
        match read {
            PdfRead::Extracted { text } => {
                let body = split_lines(text.as_str());
                lines.push(
                    Line::single(
                        labelled("PDF Document - ", body.len() as u64, " lines extracted"),
                        Tone::Cyan,
                    ),
                );
                lines.push(separator_line());
                push_numbered_lines(&mut lines, &body);
                assert(lines.deep_view() =~= pdf_lines(text@));
            },
            PdfRead::ExtractionFailed { message } => {
                lines.push(text_line("PDF Processing Error", Tone::Red));
                lines.push(Line::blank());
                lines.push(
                    Line::single(
                        concat("Failed to extract text from PDF: ", message.as_str()),
                        Tone::Gray,
                    ),
                );
                lines.push(Line::blank());
                lines.push(
                    text_line(
                        "This might be a scanned PDF or contain only images.",
                        Tone::Gray,
                    ),
                );
                assert(lines.deep_view() =~= pdf_extraction_error_lines(message@));
            },
            PdfRead::ReadFailed { message } => {
                lines.push(text_line("PDF Read Error", Tone::Red));
                lines.push(Line::blank());
                lines.push(
                    Line::single(concat("Failed to read PDF file: ", message.as_str()), Tone::Gray),
                );
                assert(lines.deep_view() =~= pdf_read_error_lines(message@));
            },
        }
        (title, PreviewContent::text(lines))
    }
}

/// Shows pictures.
#[derive(Clone, Copy, Debug)]
pub struct ImagePreviewGenerator;

/// What [`ImagePreviewGenerator`] shows for `load`.
pub open spec fn image_preview(load: ImageLoad) -> ContentView {
    match load {
        ImageLoad::Decoded => ContentView::Image,
        ImageLoad::Failed { message } => ContentView::Text(image_error_lines(message@)),
    }
}

impl ImagePreviewGenerator {
    /// A file is shown as a picture where its extension names an image format.
    pub fn can_handle(&self, file: &FileItem) -> (r: bool)
        ensures
            r == file@.is_image(),
    {
        file.is_image()
    }

    /// The picture; where it could not be decoded, the failure in words.
    pub fn generate_preview(&self, file: &FileItem, load: &ImageLoad) -> (out: (
        String,
        PreviewContent,
    ))
        ensures
            out.0@ == image_title(file@.name),
            out.1@ == image_preview(*load),
    {
        let title = concat("\u{1F5BC}\u{FE0F} ", file.name.as_str());
        match load {
            ImageLoad::Decoded => (title, PreviewContent::image()),
            ImageLoad::Failed { message } => {
                let mut lines: Vec<Line> = Vec::new();
                lines.push(text_line("Image Load Error", Tone::Red));
                lines.push(Line::blank());
                lines.push(
                    Line::single(concat("Failed to load image: ", message.as_str()), Tone::Gray),
                );
                assert(lines.deep_view() =~= image_error_lines(message@));
                (title, PreviewContent::text(lines))
            },
        }
    }
}

/// Shows directories by their entries.
#[derive(Clone, Copy, Debug)]
pub struct DirectoryPreviewGenerator;

/// The title that [`DirectoryPreviewGenerator`] gives for `read`.
pub open spec fn directory_preview_title(name: Seq<char>, read: DirectoryRead) -> Seq<char> {
    match read {
        DirectoryRead::Entries { .. } => directory_title(name),
        DirectoryRead::Failed { .. } => directory_title(name),
        _ => drives_title(),
    }
}

/// Whether `content` is what [`DirectoryPreviewGenerator`] shows for `read`.
pub open spec fn is_directory_preview(content: ContentView, read: DirectoryRead) -> bool {
    match read {
        DirectoryRead::Entries { entries } => exists|order: Seq<usize>|
            is_listing_order(order, entries.deep_view()) && content == ContentView::Text(
                directory_lines(entries.deep_view(), order),
            ),
        DirectoryRead::Failed { message } => content == ContentView::Text(
            seq![line_of("Error reading directory: "@ + message@, Tone::Red)],
        ),
        DirectoryRead::Drives { drives } => content == ContentView::Text(
            drive_lines(drives.deep_view()),
        ),
        DirectoryRead::DrivesFailed { message } => content == ContentView::Text(
            seq![line_of("Error loading drives: "@ + message@, Tone::Red)],
        ),
        DirectoryRead::DrivesUnavailable => content == ContentView::Text(
            seq![line_of("Drive view not available on this platform"@, Tone::Gray)],
        ),
    }
}

/// The line of a directory preview for `entry`.
fn entry_line_of(entry: &FileItem) -> (line: Line)
    ensures
        line@ == entry_line(entry@),
{
    let mut spans: Vec<Span> = Vec::new();
    if entry.is_dir {
        spans.push(Span::raw("\u{1F4C1}".to_string()));
        spans.push(Span::raw(" ".to_string()));
        spans.push(Span::styled(entry.name.clone(), Tone::Cyan));
    } else {
        spans.push(Span::raw("\u{1F4C4}".to_string()));
        spans.push(Span::raw(" ".to_string()));
        spans.push(Span::styled(entry.name.clone(), Tone::Plain));
    }
    assert(spans.deep_view() =~= entry_line(entry@));
    Line::from(spans)
}

impl DirectoryPreviewGenerator {
    /// A directory is shown by its entries.
    pub fn can_handle(&self, file: &FileItem) -> (r: bool)
        ensures
            r == file@.is_dir,
    {
        file.is_dir
    }

    /// The entries of a directory, directories first, each kind by name, a
    /// hundred at most; or the drives of the machine; or the failure in words.
    pub fn generate_preview(&self, file: &FileItem, read: &DirectoryRead) -> (out: (
        String,
        PreviewContent,
    ))
        ensures
            out.0@ == directory_preview_title(file@.name, *read),
            is_directory_preview(out.1@, *read),
    {
        match read {
            DirectoryRead::Entries { entries } => {
                let title = concat("\u{1F4C1} ", file.name.as_str());
                (title, PreviewContent::text(Self::entries_preview(entries)))
            },
            DirectoryRead::Failed { message } => {
                let title = concat("\u{1F4C1} ", file.name.as_str());
                let mut lines: Vec<Line> = Vec::new();
                lines.push(
                    Line::single(concat("Error reading directory: ", message.as_str()), Tone::Red),
                );
                assert(lines.deep_view() =~= seq![
                    line_of("Error reading directory: "@ + message@, Tone::Red),
                ]);
                (title, PreviewContent::text(lines))
            },
            _ => Self::generate_drives_preview(read),
        }
    }

    /// The lines for the entries of a directory.
    fn entries_preview(entries: &Vec<FileItem>) -> (lines: Vec<Line>)
        ensures
            exists|order: Seq<usize>|
                is_listing_order(order, entries.deep_view()) && lines.deep_view()
                    == directory_lines(entries.deep_view(), order),
    {
        let mut lines: Vec<Line> = Vec::new();
        let order = listing_order(entries);
        if entries.len() == 0 {
            lines.push(text_line("Empty directory", Tone::Gray));
            assert(lines.deep_view() =~= directory_lines(entries.deep_view(), order@));
            return lines;
        }
        let shown = if entries.len() <= MAX_LISTED_ENTRIES {
            entries.len()
        } else {
            MAX_LISTED_ENTRIES
        };
        let mut k: usize = 0;
        while k < shown
            invariant
                k <= shown <= entries.len(),
                lines.len() == k,
                is_listing_order(order@, entries.deep_view()),
                forall|j: int|
                    0 <= j < k ==> (#[trigger] lines@[j])@ == entry_line(
                        entries.deep_view()[order@[j] as int],
                    ),
            decreases shown - k,
        {
            assert(order@[k as int] < entries.len());
            lines.push(entry_line_of(&entries[order[k]]));
            k += 1;
        }
        if entries.len() > MAX_LISTED_ENTRIES {
            lines.push(
                Line::single(
                    labelled(
                        "... and ",
                        (entries.len() - MAX_LISTED_ENTRIES) as u64,
                        " more items",
                    ),
                    Tone::Gray,
                ),
            );
        }
        assert(lines.deep_view() =~= directory_lines(entries.deep_view(), order@));
        lines
    }

    /// The drives of the machine, or why they are not shown.
    fn generate_drives_preview(read: &DirectoryRead) -> (out: (String, PreviewContent))
        requires
            !(read is Entries),
            !(read is Failed),
        ensures
            out.0@ == drives_title(),
            is_directory_preview(out.1@, *read),
    {
        let title = "\u{1F4BE} Available Drives".to_string();
        let mut lines: Vec<Line> = Vec::new();
        match read {
            DirectoryRead::Drives { drives } => {
                if drives.len() == 0 {
                    lines.push(text_line("No drives found", Tone::Gray));
                } else {
                    let mut k: usize = 0;
                    while k < drives.len()
                        invariant
                            k <= drives.len(),
                            lines.len() == k,
                            forall|j: int|
                                0 <= j < k ==> (#[trigger] lines@[j])@ == drive_line(drives@[j]@),
                        decreases drives.len() - k,
                    {
                        let mut spans: Vec<Span> = Vec::new();
                        spans.push(Span::raw("\u{1F4BE} ".to_string()));
                        spans.push(Span::styled(drives[k].name.clone(), Tone::Cyan));
                        assert(spans.deep_view() =~= drive_line(drives@[k as int]@));
                        lines.push(Line::from(spans));
                        k += 1;
                    }
                }
                assert(lines.deep_view() =~= drive_lines(drives.deep_view()));
            },
            DirectoryRead::DrivesFailed { message } => {
                lines.push(
                    Line::single(concat("Error loading drives: ", message.as_str()), Tone::Red),
                );
                assert(lines.deep_view() =~= seq![
                    line_of("Error loading drives: "@ + message@, Tone::Red),
                ]);
            },
            _ => {
                lines.push(text_line("Drive view not available on this platform", Tone::Gray));
                assert(lines.deep_view() =~= seq![
                    line_of("Drive view not available on this platform"@, Tone::Gray),
                ]);
            },
        }
        (title, PreviewContent::text(lines))
    }
}

/// The kinds of preview, in the order in which they are tried.
#[derive(Clone, Copy, Debug)]
pub enum PreviewGeneratorType {
    Directory(DirectoryPreviewGenerator),
    Image(ImagePreviewGenerator),
    Pdf(PdfPreviewGenerator),
    Text(TextPreviewGenerator),
    Binary(BinaryPreviewGenerator),
}

impl PreviewGeneratorType {
    /// Whether this kind of preview is for `file`, of which `readable_as_text`
    /// says whether its content is valid text.
    pub open spec fn handles(self, file: FileItemView, readable_as_text: bool) -> bool {
        match self {
            PreviewGeneratorType::Directory(_) => file.is_dir,
            PreviewGeneratorType::Image(_) => file.is_image(),
            PreviewGeneratorType::Pdf(_) => file.is_pdf(),
            PreviewGeneratorType::Text(_) => readable_as_text,
            PreviewGeneratorType::Binary(_) => true,
        }
    }

    /// Whether this kind of preview is for `file`.
    pub fn can_handle(&self, file: &FileItem, readable_as_text: bool) -> (r: bool)
        ensures
            r == self.handles(file@, readable_as_text),
    {
        match self {
            PreviewGeneratorType::Directory(generator) => generator.can_handle(file),
            PreviewGeneratorType::Image(generator) => generator.can_handle(file),
            PreviewGeneratorType::Pdf(generator) => generator.can_handle(file),
            PreviewGeneratorType::Text(generator) => generator.can_handle(file, readable_as_text),
            PreviewGeneratorType::Binary(generator) => generator.can_handle(file),
        }
    }
}

/// What the background unit of work has to fetch for an item.
#[derive(Clone, Copy, Debug, PartialEq, Eq, Structural)]
pub enum PreviewJob {
    /// The entries of the directory.
    ListDirectory,
    /// The drives of the machine.
    ListDrives,
    /// The decoded picture.
    DecodeImage,
    /// The text of the PDF document.
    ExtractPdf,
    /// The size of the file and, where it is valid text, its content.
    ReadFile,
}

/// What has to be fetched for `file`: the first that applies of directory,
/// picture, PDF document, other file.
pub open spec fn planned(file: FileItemView) -> PreviewJob {
    if file.is_dir {
        if is_drives_path(file.path) {
            PreviewJob::ListDrives
        } else {
            PreviewJob::ListDirectory
        }
    } else if file.is_image() {
        PreviewJob::DecodeImage
    } else if file.is_pdf() {
        PreviewJob::ExtractPdf
    } else {
        PreviewJob::ReadFile
    }
}

/// The title of the preview of an item named `name`, for which `fetched` came.
pub open spec fn preview_title(name: Seq<char>, fetched: Fetched) -> Seq<char> {
    match fetched {
        Fetched::Directory(read) => directory_preview_title(name, read),
        Fetched::Image(_) => image_title(name),
        _ => file_title(name),
    }
}

/// Whether `content` is the preview for which `fetched` came.
pub open spec fn is_preview(content: ContentView, fetched: Fetched) -> bool {
    match fetched {
        Fetched::Directory(read) => is_directory_preview(content, read),
        Fetched::Image(load) => content == image_preview(load),
        Fetched::Pdf(read) => content == pdf_preview(read),
        Fetched::Text(read) => content == text_preview(read),
        Fetched::Binary(read) => content == binary_preview(read),
    }
}

/// What reading a file gave, as what was fetched for it: a file that is not
/// valid text counts as binary.
pub open spec fn classified(size: Result<u64, String>, text: Option<String>) -> Fetched {
    match (size, text) {
        (Ok(size), Some(text)) => Fetched::Text(TextRead::Content { size, text }),
        (Err(message), Some(_)) => Fetched::Text(TextRead::MetadataFailed { message }),
        (Ok(size), None) => Fetched::Binary(BinaryRead::Size { size }),
        (Err(message), None) => Fetched::Binary(BinaryRead::MetadataFailed { message }),
    }
}

/// Turns what was fetched for an item into the preview of it.
#[derive(Clone, Copy, Debug)]
pub struct PreviewGenerator;

impl PreviewGenerator {
    /// What has to be fetched for `file`.
    pub fn plan(file: &FileItem) -> (job: PreviewJob)
        ensures
            job == planned(file@),
    {
        if file.is_dir {
            if str_equals(file.path.as_str(), "DRIVES:") {
                PreviewJob::ListDrives
            } else {
                PreviewJob::ListDirectory
            }
        } else if file.is_image() {
            PreviewJob::DecodeImage
        } else if file.is_pdf() {
            PreviewJob::ExtractPdf
        } else {
            PreviewJob::ReadFile
        }
    }

    /// The kind of preview for `file`: the first that handles it, in the order
    /// directory, picture, PDF document, text; binary where none does.
    pub fn select(file: &FileItem, readable_as_text: bool) -> (kind: PreviewGeneratorType)
        ensures
            kind.handles(file@, readable_as_text),
            kind is Directory <==> file@.is_dir,
            kind is Image <==> !file@.is_dir && file@.is_image(),
            kind is Pdf <==> !file@.is_dir && !file@.is_image() && file@.is_pdf(),
            kind is Text <==> !file@.is_dir && !file@.is_image() && !file@.is_pdf()
                && readable_as_text,
    {
        let directory = PreviewGeneratorType::Directory(DirectoryPreviewGenerator);
        let image = PreviewGeneratorType::Image(ImagePreviewGenerator);
        let pdf = PreviewGeneratorType::Pdf(PdfPreviewGenerator);
        let text = PreviewGeneratorType::Text(TextPreviewGenerator);
        if directory.can_handle(file, readable_as_text) {
            directory
        } else if image.can_handle(file, readable_as_text) {
            image
        } else if pdf.can_handle(file, readable_as_text) {
            pdf
        } else if text.can_handle(file, readable_as_text) {
            text
        } else {
            PreviewGeneratorType::Binary(BinaryPreviewGenerator)
        }
    }

    /// What was fetched for a file, from its size and, where its content is
    /// valid text, that text.
    pub fn classify(size: Result<u64, String>, text: Option<String>) -> (fetched: Fetched)
        ensures
            fetched == classified(size, text),
    {
        match (size, text) {
            (Ok(size), Some(text)) => Fetched::Text(TextRead::Content { size, text }),
            (Err(message), Some(_)) => Fetched::Text(TextRead::MetadataFailed { message }),
            (Ok(size), None) => Fetched::Binary(BinaryRead::Size { size }),
            (Err(message), None) => Fetched::Binary(BinaryRead::MetadataFailed { message }),
        }
    }

    /// The title and the content of the preview of `file`, for which
    /// `fetched` came.
    pub fn generate_preview_content(file: &FileItem, fetched: &Fetched) -> (out: (
        String,
        PreviewContent,
    ))
        ensures
            out.0@ == preview_title(file@.name, *fetched),
            is_preview(out.1@, *fetched),
    {
        match fetched {
            Fetched::Directory(read) => DirectoryPreviewGenerator.generate_preview(file, read),
            Fetched::Image(load) => ImagePreviewGenerator.generate_preview(file, load),
            Fetched::Pdf(read) => PdfPreviewGenerator.generate_preview(file, read),
            Fetched::Text(read) => TextPreviewGenerator.generate_preview(file, read),
            Fetched::Binary(read) => BinaryPreviewGenerator.generate_preview(file, read),
        }
    }
}

} // verus!
