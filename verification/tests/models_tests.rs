use quickswitch::config::{get_history_config, HistoryConfig};
use quickswitch::history::HistoryEntry;
use quickswitch::image_preview::ImagePreview;
use quickswitch::listing::{existing_drive_roots, FilesystemService};
use quickswitch::models::{display_name, AppMode, DisplayItem, FileItem, HistorySortMode, Timestamp};

fn entry(name: &str, is_dir: bool) -> FileItem {
    FileItem { name: name.to_string(), path: format!("/d/{}", name), is_dir }
}

fn names(items: &[FileItem]) -> Vec<String> {
    items.iter().map(|i| i.name.clone()).collect()
}

#[test]
fn an_item_is_named_by_the_last_component_of_its_path() {
    let item = FileItem::from_path("/home/user/notes.txt", false);
    assert_eq!(item.name, "notes.txt");
    assert_eq!(item.path, "/home/user/notes.txt");
    assert!(!item.is_dir);
    assert_eq!(FileItem::from_path("/home/user/", true).name, "user");
    assert_eq!(FileItem::from_path("/", true).name, "");
    assert_eq!(FileItem::from_path("/a/..", true).name, "");
    assert_eq!(display_name("relative/dir"), "dir");
}

#[test]
fn images_are_told_by_their_extension() {
    for ext in ["jpg", "jpeg", "png", "gif", "bmp", "webp", "tiff", "tif", "svg", "ico", "avif"] {
        assert!(FileItem::from_path(&format!("/p/x.{}", ext), false).is_image(), "{}", ext);
        let upper = ext.to_uppercase();
        assert!(FileItem::from_path(&format!("/p/x.{}", upper), false).is_image(), "{}", upper);
    }
    assert!(FileItem::from_path("/p/Photo.JpEg", false).is_image());
    assert!(!FileItem::from_path("/p/x.txt", false).is_image());
    assert!(!FileItem::from_path("/p/png", false).is_image());
    assert!(!FileItem::from_path("/p/.png", false).is_image());
    assert!(!FileItem::from_path("/p/x.png", true).is_image());
    assert!(!FileItem::from_path("/p/x.pngx", false).is_image());
}

#[test]
fn pdf_documents_are_told_by_their_extension() {
    assert!(FileItem::from_path("/p/paper.pdf", false).is_pdf());
    assert!(FileItem::from_path("/p/paper.PDF", false).is_pdf());
    assert!(!FileItem::from_path("/p/paper.pdf", true).is_pdf());
    assert!(!FileItem::from_path("/p/paper.pdf.txt", false).is_pdf());
    assert!(!FileItem::from_path("/p/pdf", false).is_pdf());
    assert!(!FileItem::from_path("/p/paper.pdf", false).is_image());
}

#[test]
fn display_items_show_name_and_path() {
    let file = DisplayItem::File(entry("a.txt", false));
    assert_eq!(file.get_display_name(), "a.txt");
    assert_eq!(file.get_path(), "/d/a.txt");
    assert!(!file.is_directory(true));
    assert!(DisplayItem::File(entry("sub", true)).is_directory(false));

    let visited = DisplayItem::History(HistoryEntry::at(
        "/home/x/project".to_string(),
        Timestamp { secs: 1, nanos: 2 },
    ));
    assert_eq!(visited.get_display_name(), "project");
    assert_eq!(visited.get_path(), "/home/x/project");
    assert!(visited.is_directory(true));
    assert!(!visited.is_directory(false));
    assert_eq!(
        visited.to_file_item(true),
        FileItem { name: "project".to_string(), path: "/home/x/project".to_string(), is_dir: true }
    );
    assert_eq!(visited.clone(), visited);
}

#[test]
fn default_settings_of_the_history() {
    let config = get_history_config();
    assert_eq!(config.max_entries, 100);
    assert_eq!(config.sort_mode, HistorySortMode::FrequencyRecent);
    assert_eq!(config.time_decay_days, 30);
    assert_eq!(config.min_frequency_threshold, 1);
    assert_eq!(HistoryConfig::default().max_entries, 100);
    assert_ne!(AppMode::Normal, AppMode::History);
}

#[test]
fn a_listing_shows_directories_first_and_each_kind_by_name() {
    let read = vec![
        entry("c.txt", false),
        entry("b", true),
        entry("B.txt", false),
        entry("a", true),
        entry("Zeta", true),
        entry("a.txt", false),
    ];
    let files = FilesystemService::load_directory("/d", &read);
    assert_eq!(names(&files), vec![".", "..", "Zeta", "a", "b", "B.txt", "a.txt", "c.txt"]);
    assert_eq!(files[0], FileItem { name: ".".to_string(), path: "/d".to_string(), is_dir: true });
    assert_eq!(files[1], FileItem { name: "..".to_string(), path: "/".to_string(), is_dir: true });
    assert_eq!(files[2], entry("Zeta", true));
}

#[test]
fn the_root_has_no_parent_entry() {
    let files = FilesystemService::load_directory("/", &vec![entry("etc", true)]);
    assert_eq!(names(&files), vec![".", "etc"]);
    let nested = FilesystemService::load_directory("/home/user", &vec![]);
    assert_eq!(nested[1].path, "/home");
}

#[test]
fn entries_of_equal_name_keep_their_order() {
    let mut first = entry("same", false);
    first.path = "/one/same".to_string();
    let mut second = entry("same", false);
    second.path = "/two/same".to_string();
    let sorted = quickswitch::listing::sort_listing(&vec![first.clone(), second.clone()]);
    assert_eq!(sorted, vec![first, second]);
}

#[test]
fn drives_are_listed_as_directories() {
    let drives = FilesystemService::load_drives(&vec!["C:\\".to_string(), "D:\\".to_string()]);
    assert_eq!(
        drives,
        vec![
            FileItem { name: "C:\\".to_string(), path: "C:\\".to_string(), is_dir: true },
            FileItem { name: "D:\\".to_string(), path: "D:\\".to_string(), is_dir: true },
        ]
    );
    assert!(FilesystemService::should_show_drives("DRIVES:", true));
    assert!(!FilesystemService::should_show_drives("DRIVES:", false));
    assert!(!FilesystemService::should_show_drives("/home", true));
}

#[test]
fn drive_roots_follow_the_letters() {
    let mut present = vec![false; 26];
    present[2] = true;
    present[0] = true;
    present[25] = true;
    assert_eq!(existing_drive_roots(&present), vec!["A:\\", "C:\\", "Z:\\"]);
    assert_eq!(existing_drive_roots(&vec![]), Vec::<String>::new());
    assert_eq!(existing_drive_roots(&vec![false, true]), vec!["B:\\"]);
    let all = existing_drive_roots(&vec![true; 40]);
    assert_eq!(all.len(), 26);
    assert_eq!(all[0], "A:\\");
    assert_eq!(all[25], "Z:\\");
    let mut sorted = all.clone();
    sorted.sort();
    sorted.dedup();
    assert_eq!(sorted, all);
}

#[test]
fn the_extension_follows_the_last_dot_of_the_name() {
    assert_eq!(ImagePreview::get_image_format("/p/a.tar.gz"), "GZ");
    assert_eq!(ImagePreview::get_image_format("/p/.hidden"), "Unknown");
    assert_eq!(ImagePreview::get_image_format("/p/.hidden.png"), "PNG");
    assert_eq!(ImagePreview::get_image_format("/p/..png"), "PNG");
    assert_eq!(ImagePreview::get_image_format("/p/name."), "");
    assert_eq!(ImagePreview::get_image_format("/p.d/name"), "Unknown");
    assert_eq!(ImagePreview::get_image_format("/p/.."), "Unknown");
    assert_eq!(ImagePreview::get_image_format("/"), "Unknown");
    assert_eq!(ImagePreview::get_image_format("/p/a.png/"), "PNG");
}
