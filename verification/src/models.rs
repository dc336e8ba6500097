//! The entries that the lists show: files, history records, and both as one.

use vstd::prelude::*;
use crate::history::{HistoryEntry, HistoryEntryView};
use crate::paths::{extension_of, file_name_of, path_extension, path_file_name};
use crate::text::{lowercase_of, str_equals, to_lowercase};

verus! {

/// The two list modes of the navigator.
#[derive(Clone, Copy, Debug, PartialEq, Eq, Structural)]
pub enum AppMode {
    /// The listing of the current directory.
    Normal,
    /// The ranked visit history.
    History,
}

/// How the history view ranks its entries.
#[derive(Clone, Copy, Debug, PartialEq, Eq, Structural)]
pub enum HistorySortMode {
    /// Most visited first.
    Frequency,
    /// Most recently visited first.
    Recent,
    /// Highest score first: visits weighted by how recent the last one is.
    FrequencyRecent,
    /// By the final component of the path, ascending.
    Alphabetical,
}

/// A moment in time: whole seconds since the Unix epoch and the nanoseconds
/// into that second.
#[derive(Clone, Copy, Debug, PartialEq, Eq, Structural)]
pub struct Timestamp {
    pub secs: i64,
    pub nanos: u32,
}

impl Timestamp {
    /// Nanoseconds since the Unix epoch.
    pub open spec fn total_nanos(self) -> int {
        self.secs * 1_000_000_000 + self.nanos
    }
}

/// An entry of a directory: its name, its path and whether it is a directory.
#[derive(Debug, PartialEq)]
pub struct FileItem {
    pub name: String,
    pub path: String,
    pub is_dir: bool,
}

/// What a [`FileItem`] is to contracts.
pub struct FileItemView {
    pub name: Seq<char>,
    pub path: Seq<char>,
    pub is_dir: bool,
}

impl View for FileItem {
    type V = FileItemView;

    open spec fn view(&self) -> FileItemView {
        FileItemView { name: self.name@, path: self.path@, is_dir: self.is_dir }
    }
}

impl DeepView for FileItem {
    type V = FileItemView;

    open spec fn deep_view(&self) -> FileItemView {
        self@
    }
}

impl Clone for FileItem {
    fn clone(&self) -> (copy: Self)
        ensures
            copy@ == self@,
    {
        FileItem { name: self.name.clone(), path: self.path.clone(), is_dir: self.is_dir }
    }
}

/// Whether `ext`, an extension in lower case, is one of the image formats shown
/// as pictures.
pub open spec fn is_image_extension(ext: Seq<char>) -> bool {
    ext == "jpg"@ || ext == "jpeg"@ || ext == "png"@ || ext == "gif"@ || ext == "bmp"@ || ext
        == "webp"@ || ext == "tiff"@ || ext == "tif"@ || ext == "svg"@ || ext == "ico"@ || ext
        == "avif"@
}

impl FileItemView {
    /// The extension of the path, in lower case.
    pub open spec fn lower_extension(self) -> Option<Seq<char>> {
        match extension_of(self.path) {
            Some(e) => Some(lowercase_of(e)),
            None => None,
        }
    }

    /// A file, not a directory, whose extension names an image format.
    pub open spec fn is_image(self) -> bool {
        &&& !self.is_dir
        &&& self.lower_extension() matches Some(e)
        &&& is_image_extension(e)
    }

    /// A file, not a directory, with the extension `pdf`.
    pub open spec fn is_pdf(self) -> bool {
        !self.is_dir && self.lower_extension() == Some("pdf"@)
    }
}

/// The name under which `path` is listed: its final component, or nothing
/// where it has none.
pub open spec fn display_name_of(path: Seq<char>) -> Seq<char> {
    match file_name_of(path) {
        Some(n) => n,
        None => Seq::<char>::empty(),
    }
}

/// The final component of `path`, or the empty string where it has none.
pub fn display_name(path: &str) -> (name: String)
    ensures
        name@ == display_name_of(path@),
{
    match path_file_name(path) {
        Some(n) => n,
        None => String::new(),
    }
}

impl FileItem {
    /// The item for `path`, named by its final component. Whether the path is a
    /// directory is for the caller to find out.
    pub fn from_path(path: &str, is_dir: bool) -> (item: FileItem)
        ensures
            item@ == (FileItemView {
                name: display_name_of(path@),
                path: path@,
                is_dir,
            }),
    {
        FileItem { name: display_name(path), path: path.to_string(), is_dir }
    }

    fn lower_extension(&self) -> (ext: Option<String>)
        ensures
            ext is Some == self@.lower_extension() is Some,
            ext matches Some(e) ==> self@.lower_extension() == Some(e@),
    {
        match path_extension(self.path.as_str()) {
            Some(e) => Some(to_lowercase(e.as_str())),
            None => None,
        }
    }

    /// Whether the item is an image, judged by its extension.
    pub fn is_image(&self) -> (r: bool)
        ensures
            r == self@.is_image(),
    {
        if self.is_dir {
            return false;
        }
        match self.lower_extension() {
            Some(ext) => {
                let e = ext.as_str();
                str_equals(e, "jpg") || str_equals(e, "jpeg") || str_equals(e, "png")
                    || str_equals(e, "gif") || str_equals(e, "bmp") || str_equals(e, "webp")
                    || str_equals(e, "tiff") || str_equals(e, "tif") || str_equals(e, "svg")
                    || str_equals(e, "ico") || str_equals(e, "avif")
            },
            None => false,
        }
    }

    /// Whether the item is a PDF document, judged by its extension.
    pub fn is_pdf(&self) -> (r: bool)
        ensures
            r == self@.is_pdf(),
    {
        if self.is_dir {
            return false;
        }
        match self.lower_extension() {
            Some(ext) => str_equals(ext.as_str(), "pdf"),
            None => false,
        }
    }
}

/// An entry of either list.
#[derive(Debug, PartialEq)]
pub enum DisplayItem {
    /// An entry of the directory listing.
    File(FileItem),
    /// An entry of the visit history.
    History(HistoryEntry),
}

/// What a [`DisplayItem`] is to contracts.
pub enum DisplayItemView {
    File(FileItemView),
    History(HistoryEntryView),
}

impl DisplayItemView {
    /// The name under which the item is listed: a file's name, or the final
    /// component of a visited path.
    pub open spec fn display_name(self) -> Seq<char> {
        match self {
            DisplayItemView::File(file) => file.name,
            DisplayItemView::History(entry) => display_name_of(entry.path),
        }
    }

    /// The path of the item.
    pub open spec fn path(self) -> Seq<char> {
        match self {
            DisplayItemView::File(file) => file.path,
            DisplayItemView::History(entry) => entry.path,
        }
    }

    /// Whether the item is a directory, where `on_disk` says whether the path
    /// of a history entry is one now.
    pub open spec fn is_directory(self, on_disk: bool) -> bool {
        match self {
            DisplayItemView::File(file) => file.is_dir,
            DisplayItemView::History(_) => on_disk,
        }
    }

    /// The item as an entry of a listing, where `on_disk` says whether the
    /// path of a history entry is a directory now.
    pub open spec fn as_file(self, on_disk: bool) -> FileItemView {
        match self {
            DisplayItemView::File(file) => file,
            DisplayItemView::History(entry) => FileItemView {
                name: display_name_of(entry.path),
                path: entry.path,
                is_dir: on_disk,
            },
        }
    }
}

impl View for DisplayItem {
    type V = DisplayItemView;

    open spec fn view(&self) -> DisplayItemView {
        match self {
            DisplayItem::File(file) => DisplayItemView::File(file@),
            DisplayItem::History(entry) => DisplayItemView::History(entry@),
        }
    }
}

impl DeepView for DisplayItem {
    type V = DisplayItemView;

    open spec fn deep_view(&self) -> DisplayItemView {
        self@
    }
}

impl Clone for DisplayItem {
    fn clone(&self) -> (copy: Self)
        ensures
            copy@ == self@,
    {
        match self {
            DisplayItem::File(file) => DisplayItem::File(file.clone()),
            DisplayItem::History(entry) => DisplayItem::History(entry.clone()),
        }
    }
}

impl DisplayItem {
    /// The name under which the item is listed.
    pub fn get_display_name(&self) -> (name: String)
        ensures
            name@ == self@.display_name(),
    {
        match self {
            DisplayItem::File(file) => file.name.clone(),
            DisplayItem::History(entry) => display_name(entry.path.as_str()),
        }
    }

    /// The path of the item.
    pub fn get_path(&self) -> (path: &String)
        ensures
            path@ == self@.path(),
    {
        match self {
            DisplayItem::File(file) => &file.path,
            DisplayItem::History(entry) => &entry.path,
        }
    }

    /// Whether the item is a directory. A file knows; of a history entry the
    /// caller says, in `on_disk`, whether its path is a directory now.
    pub fn is_directory(&self, on_disk: bool) -> (r: bool)
        ensures
            r == self@.is_directory(on_disk),
    {
        match self {
            DisplayItem::File(file) => file.is_dir,
            DisplayItem::History(_) => on_disk,
        }
    }

    /// The item as an entry of a listing.
    pub fn to_file_item(&self, on_disk: bool) -> (file: FileItem)
        ensures
            file@ == self@.as_file(on_disk),
    {
        match self {
            DisplayItem::File(file) => file.clone(),
            DisplayItem::History(entry) => FileItem::from_path(entry.path.as_str(), on_disk),
        }
    }
}

} // verus!
