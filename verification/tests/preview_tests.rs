use quickswitch::models::FileItem;
use quickswitch::preview::{
    BinaryPreviewGenerator, BinaryRead, DirectoryPreviewGenerator, DirectoryRead, Fetched,
    ImageLoad, ImagePreviewGenerator, PdfPreviewGenerator, PdfRead, PreviewGenerator,
    PreviewGeneratorType, PreviewJob, TextPreviewGenerator, TextRead, format_megabytes,
};
use quickswitch::preview_content::{Line, PreviewContent, Span, Tone};

fn file(name: &str) -> FileItem {
    FileItem { name: name.to_string(), path: format!("/d/{}", name), is_dir: false }
}

fn dir(name: &str) -> FileItem {
    FileItem { name: name.to_string(), path: format!("/d/{}", name), is_dir: true }
}

fn line(text: &str, tone: Tone) -> Line {
    Line::single(text.to_string(), tone)
}

fn numbered(number: &str, text: &str) -> Line {
    Line::from(vec![
        Span::styled(number.to_string(), Tone::DarkGray),
        Span::raw(text.to_string()),
    ])
}

fn separator() -> Line {
    line(&"\u{2500}".repeat(50), Tone::Gray)
}

#[test]
fn text_is_shown_with_numbered_lines() {
    let text = "Hello, World!\nThis is a test file.";
    let read = TextRead::Content { size: 34, text: text.to_string() };
    let (title, content) = TextPreviewGenerator.generate_preview(&file("test.txt"), &read);
    assert_eq!(title, "\u{1F4C4} test.txt");
    assert_eq!(
        content,
        PreviewContent::text(vec![
            line("Size: 34 bytes, 2 lines", Tone::Gray),
            separator(),
            numbered("  1 ", "Hello, World!"),
            numbered("  2 ", "This is a test file."),
        ])
    );
}

#[test]
fn text_size_counts_bytes_and_tabs_are_made_visible() {
    let text = "\u{e9}\ttab\r\nend\n";
    let read = TextRead::Content { size: 11, text: text.to_string() };
    let (_, content) = TextPreviewGenerator.generate_preview(&file("t"), &read);
    assert_eq!(
        content,
        PreviewContent::text(vec![
            line("Size: 12 bytes, 2 lines", Tone::Gray),
            separator(),
            numbered("  1 ", "\u{e9}\u{2192}   tab"),
            numbered("  2 ", "end"),
        ])
    );
}

#[test]
fn line_numbers_grow_beyond_three_columns() {
    let text = "x\n".repeat(1000);
    let read = TextRead::Content { size: 2000, text };
    let (_, content) = TextPreviewGenerator.generate_preview(&file("t"), &read);
    let lines = content.as_text().unwrap();
    assert_eq!(lines.len(), 1002);
    assert_eq!(lines[0], line("Size: 2000 bytes, 1000 lines", Tone::Gray));
    assert_eq!(lines[2 + 8], numbered("  9 ", "x"));
    assert_eq!(lines[2 + 9], numbered(" 10 ", "x"));
    assert_eq!(lines[2 + 99], numbered("100 ", "x"));
    assert_eq!(lines[2 + 999], numbered("1000 ", "x"));
}

#[test]
fn an_empty_text_has_no_lines() {
    let read = TextRead::Content { size: 0, text: String::new() };
    let (_, content) = TextPreviewGenerator.generate_preview(&file("empty"), &read);
    assert_eq!(
        content,
        PreviewContent::text(vec![line("Size: 0 bytes, 0 lines", Tone::Gray), separator()])
    );
}

#[test]
fn a_file_above_the_cap_is_described_only() {
    let size = 5 * 1024 * 1024 + 1;
    let read = TextRead::Content { size, text: "ignored".to_string() };
    let (title, content) = TextPreviewGenerator.generate_preview(&file("big.log"), &read);
    assert_eq!(title, "\u{1F4C4} big.log");
    assert_eq!(
        content,
        PreviewContent::text(vec![
            line("Large File", Tone::Yellow),
            line("", Tone::Plain),
            line("Size: 5242881 bytes (5.00 MB)", Tone::Gray),
            line("File too large for preview (>5MB)", Tone::Gray),
            line("", Tone::Plain),
            line("Basic file information:", Tone::Cyan),
        ])
    );
    let at_cap = TextRead::Content { size: 5 * 1024 * 1024, text: "shown".to_string() };
    let (_, shown) = TextPreviewGenerator.generate_preview(&file("cap"), &at_cap);
    assert_eq!(shown.len(), 3);
}

#[test]
fn megabytes_are_printed_as_floats_are() {
    let sizes = [
        0u64,
        1,
        5242,
        5243,
        10485,
        131072,
        393216,
        5373952,
        5242880,
        5242881,
        7654321,
        1073741824,
        123456789012,
        (1u64 << 53) - 1,
    ];
    for size in sizes {
        let expected = format!("{:.2}", size as f64 / 1024.0 / 1024.0);
        assert_eq!(format_megabytes(size), expected, "size {}", size);
    }
    assert_eq!(format_megabytes(5373952), "5.12");
    assert_eq!(format_megabytes(1572864), "1.50");
}

#[test]
fn a_file_that_cannot_be_read_any_more_says_so() {
    let (_, content) =
        TextPreviewGenerator.generate_preview(&file("gone"), &TextRead::Unreadable { size: 12 });
    assert_eq!(
        content,
        PreviewContent::text(vec![
            line("Text Read Error", Tone::Red),
            line("", Tone::Plain),
            line("Size: 12 bytes", Tone::Gray),
            line("Cannot read as text", Tone::Gray),
        ])
    );
    let failed = TextRead::MetadataFailed { message: "denied".to_string() };
    let (_, content) = TextPreviewGenerator.generate_preview(&file("gone"), &failed);
    assert_eq!(
        content,
        PreviewContent::text(vec![line("Error reading file metadata: denied", Tone::Red)])
    );
}

#[test]
fn a_file_with_invalid_text_encoding_is_shown_as_binary() {
    let item = file("blob.dat");
    assert_eq!(PreviewGenerator::plan(&item), PreviewJob::ReadFile);
    let bytes: Vec<u8> = vec![0xff, 0xfe, 0x00, 0x80, 0x41];
    let text = String::from_utf8(bytes.clone()).ok();
    assert!(text.is_none());
    let fetched = PreviewGenerator::classify(Ok(bytes.len() as u64), text);
    let (title, content) = PreviewGenerator::generate_preview_content(&item, &fetched);
    assert_eq!(title, "\u{1F4C4} blob.dat");
    assert_eq!(
        content,
        PreviewContent::text(vec![
            line("Binary File", Tone::Yellow),
            line("", Tone::Plain),
            line("Size: 5 bytes", Tone::Gray),
            line("Cannot preview binary content", Tone::Gray),
            line("", Tone::Plain),
            line("File type: Binary/Unknown", Tone::Cyan),
        ])
    );
}

#[test]
fn a_binary_file_without_metadata_shows_the_error() {
    let read = BinaryRead::MetadataFailed { message: "No such file".to_string() };
    let (_, content) = BinaryPreviewGenerator.generate_preview(&file("x"), &read);
    assert_eq!(
        content,
        PreviewContent::text(vec![line("Error reading file metadata: No such file", Tone::Red)])
    );
    assert!(BinaryPreviewGenerator.can_handle(&file("x")));
}

#[test]
fn valid_text_is_classified_as_text() {
    let fetched = PreviewGenerator::classify(Ok(2), Some("hi".to_string()));
    assert!(matches!(fetched, Fetched::Text(TextRead::Content { size: 2, .. })));
    let fetched = PreviewGenerator::classify(Err("e".to_string()), Some("hi".to_string()));
    assert!(matches!(fetched, Fetched::Text(TextRead::MetadataFailed { .. })));
    let fetched = PreviewGenerator::classify(Err("e".to_string()), None);
    assert!(matches!(fetched, Fetched::Binary(BinaryRead::MetadataFailed { .. })));
}

#[test]
fn a_directory_is_shown_by_its_sorted_entries() {
    let read = DirectoryRead::Entries {
        entries: vec![file("c.txt"), dir("b"), dir("a"), file("A.md")],
    };
    let (title, content) = DirectoryPreviewGenerator.generate_preview(&dir("proj"), &read);
    assert_eq!(title, "\u{1F4C1} proj");
    let entry = |icon: &str, name: &str, tone: Tone| {
        Line::from(vec![
            Span::raw(icon.to_string()),
            Span::raw(" ".to_string()),
            Span::styled(name.to_string(), tone),
        ])
    };
    assert_eq!(
        content,
        PreviewContent::text(vec![
            entry("\u{1F4C1}", "a", Tone::Cyan),
            entry("\u{1F4C1}", "b", Tone::Cyan),
            entry("\u{1F4C4}", "A.md", Tone::Plain),
            entry("\u{1F4C4}", "c.txt", Tone::Plain),
        ])
    );
}

#[test]
fn an_empty_directory_says_so() {
    let read = DirectoryRead::Entries { entries: vec![] };
    let (_, content) = DirectoryPreviewGenerator.generate_preview(&dir("empty"), &read);
    assert_eq!(content, PreviewContent::text(vec![line("Empty directory", Tone::Gray)]));
    let failed = DirectoryRead::Failed { message: "Permission denied".to_string() };
    let (title, content) = DirectoryPreviewGenerator.generate_preview(&dir("locked"), &failed);
    assert_eq!(title, "\u{1F4C1} locked");
    assert_eq!(
        content,
        PreviewContent::text(vec![line("Error reading directory: Permission denied", Tone::Red)])
    );
}

#[test]
fn a_long_directory_is_cut_with_a_trailer() {
    let entries: Vec<FileItem> = (0..130).map(|i| file(&format!("f{:03}", 129 - i))).collect();
    let (_, content) =
        DirectoryPreviewGenerator.generate_preview(&dir("many"), &DirectoryRead::Entries { entries });
    let lines = content.as_text().unwrap();
    assert_eq!(lines.len(), 101);
    assert_eq!(lines[0].spans[2].text, "f000");
    assert_eq!(lines[99].spans[2].text, "f099");
    assert_eq!(lines[100], line("... and 30 more items", Tone::Gray));

    let exact: Vec<FileItem> = (0..100).map(|i| file(&format!("f{:03}", i))).collect();
    let (_, content) = DirectoryPreviewGenerator
        .generate_preview(&dir("hundred"), &DirectoryRead::Entries { entries: exact });
    assert_eq!(content.len(), 100);
}

#[test]
fn the_drive_list_is_shown_where_there_is_one() {
    let drives = DirectoryRead::Drives {
        drives: vec![FileItem { name: "C:\\".to_string(), path: "C:\\".to_string(), is_dir: true }],
    };
    let (title, content) = DirectoryPreviewGenerator.generate_preview(&dir("DRIVES:"), &drives);
    assert_eq!(title, "\u{1F4BE} Available Drives");
    assert_eq!(
        content,
        PreviewContent::text(vec![Line::from(vec![
            Span::raw("\u{1F4BE} ".to_string()),
            Span::styled("C:\\".to_string(), Tone::Cyan),
        ])])
    );
    let (_, none) = DirectoryPreviewGenerator
        .generate_preview(&dir("DRIVES:"), &DirectoryRead::Drives { drives: vec![] });
    assert_eq!(none, PreviewContent::text(vec![line("No drives found", Tone::Gray)]));
    let (title, missing) = DirectoryPreviewGenerator
        .generate_preview(&dir("DRIVES:"), &DirectoryRead::DrivesUnavailable);
    assert_eq!(title, "\u{1F4BE} Available Drives");
    assert_eq!(
        missing,
        PreviewContent::text(vec![line("Drive view not available on this platform", Tone::Gray)])
    );
    let failed = DirectoryRead::DrivesFailed { message: "boom".to_string() };
    let (_, content) = DirectoryPreviewGenerator.generate_preview(&dir("DRIVES:"), &failed);
    assert_eq!(content, PreviewContent::text(vec![line("Error loading drives: boom", Tone::Red)]));
}

#[test]
fn a_pdf_document_is_shown_by_its_text() {
    let read = PdfRead::Extracted { text: "Title\n\nBody\ttext".to_string() };
    let (title, content) = PdfPreviewGenerator.generate_preview(&file("paper.pdf"), &read);
    assert_eq!(title, "\u{1F4C4} paper.pdf");
    assert_eq!(
        content,
        PreviewContent::text(vec![
            line("PDF Document - 3 lines extracted", Tone::Cyan),
            separator(),
            numbered("  1 ", "Title"),
            numbered("  2 ", ""),
            numbered("  3 ", "Body\u{2192}   text"),
        ])
    );
}

#[test]
fn a_pdf_document_that_fails_describes_the_failure() {
    let failed = PdfRead::ExtractionFailed { message: "PDF error: bad xref".to_string() };
    let (_, content) = PdfPreviewGenerator.generate_preview(&file("paper.pdf"), &failed);
    assert_eq!(
        content,
        PreviewContent::text(vec![
            line("PDF Processing Error", Tone::Red),
            line("", Tone::Plain),
            line("Failed to extract text from PDF: PDF error: bad xref", Tone::Gray),
            line("", Tone::Plain),
            line("This might be a scanned PDF or contain only images.", Tone::Gray),
        ])
    );
    let unread = PdfRead::ReadFailed { message: "denied".to_string() };
    let (_, content) = PdfPreviewGenerator.generate_preview(&file("paper.pdf"), &unread);
    assert_eq!(
        content,
        PreviewContent::text(vec![
            line("PDF Read Error", Tone::Red),
            line("", Tone::Plain),
            line("Failed to read PDF file: denied", Tone::Gray),
        ])
    );
}

#[test]
fn a_picture_is_shown_or_its_failure_described() {
    let (title, content) =
        ImagePreviewGenerator.generate_preview(&file("cat.png"), &ImageLoad::Decoded);
    assert_eq!(title, "\u{1F5BC}\u{FE0F} cat.png");
    assert_eq!(content, PreviewContent::image());
    let failed = ImageLoad::Failed { message: "unsupported".to_string() };
    let (_, content) = ImagePreviewGenerator.generate_preview(&file("cat.png"), &failed);
    assert_eq!(
        content,
        PreviewContent::text(vec![
            line("Image Load Error", Tone::Red),
            line("", Tone::Plain),
            line("Failed to load image: unsupported", Tone::Gray),
        ])
    );
}

#[test]
fn the_first_kind_of_preview_that_applies_is_taken() {
    assert_eq!(PreviewGenerator::plan(&dir("sub")), PreviewJob::ListDirectory);
    let mut drives = dir("DRIVES:");
    drives.path = "DRIVES:".to_string();
    assert_eq!(PreviewGenerator::plan(&drives), PreviewJob::ListDrives);
    assert_eq!(PreviewGenerator::plan(&dir("pictures.png")), PreviewJob::ListDirectory);
    assert_eq!(PreviewGenerator::plan(&file("cat.PNG")), PreviewJob::DecodeImage);
    assert_eq!(PreviewGenerator::plan(&file("paper.pdf")), PreviewJob::ExtractPdf);
    assert_eq!(PreviewGenerator::plan(&file("notes.txt")), PreviewJob::ReadFile);

    assert!(matches!(
        PreviewGenerator::select(&dir("x.pdf"), true),
        PreviewGeneratorType::Directory(_)
    ));
    assert!(matches!(PreviewGenerator::select(&file("x.gif"), true), PreviewGeneratorType::Image(_)));
    assert!(matches!(PreviewGenerator::select(&file("x.pdf"), true), PreviewGeneratorType::Pdf(_)));
    assert!(matches!(PreviewGenerator::select(&file("x.rs"), true), PreviewGeneratorType::Text(_)));
    assert!(matches!(
        PreviewGenerator::select(&file("x.bin"), false),
        PreviewGeneratorType::Binary(_)
    ));
    let text = PreviewGeneratorType::Text(TextPreviewGenerator);
    assert!(text.can_handle(&file("x.bin"), true));
    assert!(!text.can_handle(&file("x.bin"), false));
    assert!(PreviewGeneratorType::Pdf(PdfPreviewGenerator).can_handle(&file("a.pdf"), false));
    assert!(DirectoryPreviewGenerator.can_handle(&dir("d")));
    assert!(ImagePreviewGenerator.can_handle(&file("a.ico")));
}

#[test]
fn what_was_fetched_decides_the_preview() {
    let fetched = Fetched::Pdf(PdfRead::ReadFailed { message: "x".to_string() });
    let (title, content) = PreviewGenerator::generate_preview_content(&file("a.pdf"), &fetched);
    assert_eq!(title, "\u{1F4C4} a.pdf");
    assert_eq!(content.len(), 3);
    let fetched = Fetched::Image(ImageLoad::Decoded);
    let (title, content) = PreviewGenerator::generate_preview_content(&file("a.png"), &fetched);
    assert_eq!(title, "\u{1F5BC}\u{FE0F} a.png");
    assert!(content.is_image());
    let fetched = Fetched::Directory(DirectoryRead::Entries { entries: vec![file("z")] });
    let (title, content) = PreviewGenerator::generate_preview_content(&dir("d"), &fetched);
    assert_eq!(title, "\u{1F4C1} d");
    assert_eq!(content.len(), 1);
}
