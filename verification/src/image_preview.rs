//! What is shown of a picture where it cannot be drawn: its size, its
//! dimensions and its format.

use vstd::prelude::*;
use crate::models::FileItem;
use crate::paths::{extension_of, path_extension};
use crate::preview::{concat, image_title, labelled, separator, separator_line, text_line};
use crate::preview_content::{blank_line, line_of, Line, SpanView, Tone};
use crate::text::{decimal, from_chars, push_decimal, push_str, to_uppercase, uppercase_of};

verus! {

/// What decoding a picture told of it.
#[derive(Clone, Copy, Debug)]
pub struct ImageFacts {
    /// The size of the file in bytes.
    pub file_size: u64,
    pub width: u32,
    pub height: u32,
}

/// The format of the picture at `path`, by its extension in upper case.
pub open spec fn image_format_of(path: Seq<char>) -> Seq<char> {
    match extension_of(path) {
        Some(ext) => uppercase_of(ext),
        None => "Unknown"@,
    }
}

/// What is shown of a picture with the facts `facts` at `path`.
pub open spec fn image_info_lines(path: Seq<char>, facts: ImageFacts) -> Seq<Seq<SpanView>> {
    seq![
        line_of("File size: "@ + decimal(facts.file_size as nat) + " bytes"@, Tone::Gray),
        line_of(
            "Dimensions: "@ + decimal(facts.width as nat) + "x"@ + decimal(facts.height as nat)
                + " pixels"@,
            Tone::Gray,
        ),
        line_of("Format: "@ + image_format_of(path), Tone::Gray),
        separator(),
        line_of("\u{1F5BC}\u{FE0F} Image Preview"@, Tone::Cyan),
        blank_line(),
        line_of("\u{2713} Terminal graphics support detected"@, Tone::Green),
        line_of("Image preview available in compatible terminals"@, Tone::Green),
        line_of("Note: Full image rendering requires widget integration"@, Tone::Yellow),
    ]
}

/// What is shown of a picture that could not be decoded.
pub open spec fn image_failure_lines(message: Seq<char>) -> Seq<Seq<SpanView>> {
    seq![
        line_of("Image Preview Error"@, Tone::Red),
        blank_line(),
        line_of("Error: "@ + message, Tone::Gray),
        blank_line(),
        line_of("Supported formats: JPG, PNG, GIF, BMP, WEBP, TIFF, SVG, ICO, AVIF"@, Tone::Gray),
    ]
}

/// Describes pictures in text.
#[derive(Clone, Copy, Debug)]
pub struct ImagePreview;

impl Default for ImagePreview {
    fn default() -> Self {
        ImagePreview::new()
    }
}

impl ImagePreview {
    pub fn new() -> Self {
        ImagePreview
    }

    /// The format of the picture at `path`, by its extension in upper case.
    pub fn get_image_format(path: &str) -> (format: String)
        ensures
            format@ == image_format_of(path@),
    {
        match path_extension(path) {
            Some(ext) => to_uppercase(ext.as_str()),
            None => "Unknown".to_string(),
        }
    }

    /// Whether the terminal can show pictures: it is taken to.
    pub fn supports_image_display() -> (r: bool)
        ensures
            r,
    {
        true
    }

    /// The description of the picture at `path` with the facts `facts`.
    pub fn load_and_render_image(path: &str, facts: ImageFacts) -> (lines: Vec<Line>)
        ensures
            lines.deep_view() == image_info_lines(path@, facts),
    {
        let mut dimensions: Vec<char> = Vec::new();
        push_str(&mut dimensions, "Dimensions: ");
        push_decimal(&mut dimensions, facts.width as u64);
        push_str(&mut dimensions, "x");
        push_decimal(&mut dimensions, facts.height as u64);
        push_str(&mut dimensions, " pixels");
        assert(dimensions@ =~= "Dimensions: "@ + decimal(facts.width as nat) + "x"@ + decimal(
            facts.height as nat,
        ) + " pixels"@);
        let format = Self::get_image_format(path);
        let mut lines: Vec<Line> = Vec::new();
        lines.push(Line::single(labelled("File size: ", facts.file_size, " bytes"), Tone::Gray));
        lines.push(Line::single(from_chars(&dimensions), Tone::Gray));
        lines.push(Line::single(concat("Format: ", format.as_str()), Tone::Gray));
        lines.push(separator_line());
        lines.push(text_line("\u{1F5BC}\u{FE0F} Image Preview", Tone::Cyan));
        lines.push(Line::blank());
        lines.push(text_line("\u{2713} Terminal graphics support detected", Tone::Green));
        lines.push(text_line("Image preview available in compatible terminals", Tone::Green));
        lines.push(
            text_line("Note: Full image rendering requires widget integration", Tone::Yellow),
        );
        assert(lines.deep_view() =~= image_info_lines(path@, facts));
        lines
    }

    /// The title and the description of the picture `file`, of which decoding
    /// told `facts`; where it could not be decoded, why.
    pub fn generate_image_preview(file: &FileItem, facts: Result<ImageFacts, String>) -> (out: (
        String,
        Vec<Line>,
    ))
        ensures
            out.0@ == image_title(file@.name),
            out.1.deep_view() == match facts {
                Ok(known) => image_info_lines(file@.path, known),
                Err(message) => image_failure_lines(message@),
            },
    {
        let title = concat("\u{1F5BC}\u{FE0F} ", file.name.as_str());
        match facts {
            Ok(known) => (title, Self::load_and_render_image(file.path.as_str(), known)),
            Err(message) => {
                let mut lines: Vec<Line> = Vec::new();
                lines.push(text_line("Image Preview Error", Tone::Red));
                lines.push(Line::blank());
                lines.push(Line::single(concat("Error: ", message.as_str()), Tone::Gray));
                lines.push(Line::blank());
                lines.push(
                    text_line(
                        "Supported formats: JPG, PNG, GIF, BMP, WEBP, TIFF, SVG, ICO, AVIF",
                        Tone::Gray,
                    ),
                );
                assert(lines.deep_view() =~= image_failure_lines(message@));
                (title, lines)
            },
        }
    }
}

} // verus!
