use file_entry::category::FileMimeCategory;
use file_entry::entry::{FileSystemEntry, Metadata, Observation, Timestamp};
use file_entry::extension::file_extension;
use file_entry::label::get_file_type;
use file_entry::listing::{DirectoryRead, FileSystemEntries};

fn at(nanos: i128) -> Timestamp {
    Timestamp { nanos }
}

fn file(path: &str, name: &str, len: u64, content: Option<&[u8]>) -> Observation {
    Observation {
        path: path.to_string(),
        file_name: Some(name.to_string()),
        metadata: Some(Metadata { is_dir: false, len, created: Some(at(1_000)), modified: Some(at(2_000)) }),
        present: true,
        is_dir: false,
        content: content.map(|bytes| bytes.to_vec()),
        now: at(9_000),
    }
}

fn directory(path: &str, name: &str) -> Observation {
    Observation {
        path: path.to_string(),
        file_name: Some(name.to_string()),
        metadata: Some(Metadata { is_dir: true, len: 4096, created: Some(at(10)), modified: Some(at(20)) }),
        present: true,
        is_dir: true,
        content: None,
        now: at(9_000),
    }
}

fn vanished(path: &str, name: &str) -> Observation {
    Observation {
        path: path.to_string(),
        file_name: Some(name.to_string()),
        metadata: None,
        present: false,
        is_dir: false,
        content: None,
        now: at(7_777),
    }
}

#[test]
fn the_epoch_is_zero() {
    assert_eq!(Timestamp::epoch(), at(0));
}

#[test]
fn a_file_is_described_in_full() {
    let entry = FileSystemEntry::from(file("docs/report.pdf", "report.pdf", 1234, None));
    assert_eq!(entry.name, "report.pdf");
    assert_eq!(entry.path, "docs/report.pdf");
    assert!(!entry.is_dir);
    assert_eq!(entry.size, 1234);
    assert_eq!(entry.file_type, "PDF Document");
    assert_eq!(entry.mime, Some("application/pdf".to_string()));
    assert_eq!(entry.category, FileMimeCategory::ARCHIVE);
    assert_eq!(entry.created, at(1_000));
    assert_eq!(entry.last_modified, at(2_000));
}

#[test]
fn a_picture_is_an_image() {
    let entry = FileSystemEntry::from(file("/home/me/photo.jpg", "photo.jpg", 10, Some(b"text")));
    assert_eq!(entry.file_type, "JPEG Image");
    assert_eq!(entry.mime, Some("image/jpeg".to_string()));
    assert_eq!(entry.category, FileMimeCategory::IMAGE);
}

#[test]
fn a_file_without_extension_goes_by_its_content() {
    let text = FileSystemEntry::from(file("Makefile", "Makefile", 5, Some(b"all:\n")));
    assert_eq!(text.name, "Makefile");
    assert_eq!(text.file_type, "");
    assert_eq!(text.mime, None);
    assert_eq!(text.category, FileMimeCategory::TEXT);
    let binary = FileSystemEntry::from(file("a.out", "a", 5, Some(&[0x7F, b'E', b'L', b'F', 0])));
    assert_eq!(binary.mime, None);
    assert_eq!(binary.category, FileMimeCategory::UNKNOWN);
    let unread = FileSystemEntry::from(file("secret", "secret", 5, None));
    assert_eq!(unread.category, FileMimeCategory::UNKNOWN);
}

#[test]
fn an_unlisted_extension_is_its_own_label() {
    let entry = FileSystemEntry::from(file("data.xyz123", "data.xyz123", 1, Some(b"abc")));
    assert_eq!(entry.file_type, "xyz123");
    assert_eq!(entry.mime, None);
    assert_eq!(entry.category, FileMimeCategory::TEXT);
}

#[test]
fn an_upper_case_extension_is_labelled_as_written() {
    let entry = FileSystemEntry::from(file("PHOTO.JPG", "PHOTO.JPG", 1, None));
    assert_eq!(entry.file_type, "JPG");
    assert_eq!(entry.mime, Some("image/jpeg".to_string()));
    assert_eq!(entry.category, FileMimeCategory::IMAGE);
}

#[test]
fn only_the_last_extension_counts() {
    let entry = FileSystemEntry::from(file("backup.tar.gz", "backup.tar.gz", 1, None));
    assert_eq!(entry.file_type, "gz");
    assert_eq!(entry.mime, Some("application/gzip".to_string()));
    assert_eq!(entry.category, FileMimeCategory::ARCHIVE);
}

#[test]
fn a_hidden_file_has_no_extension() {
    let entry = FileSystemEntry::from(file("/home/me/.bashrc", ".bashrc", 1, Some(b"export A=1\n")));
    assert_eq!(entry.name, ".bashrc");
    assert_eq!(entry.file_type, "");
    assert_eq!(entry.mime, None);
    assert_eq!(entry.category, FileMimeCategory::TEXT);
}

#[test]
fn a_directory_has_no_size_and_no_category() {
    let entry = FileSystemEntry::from(directory("/srv/photos.jpg", "photos.jpg"));
    assert_eq!(entry.name, "photos.jpg");
    assert!(entry.is_dir);
    assert_eq!(entry.size, 0);
    assert_eq!(entry.file_type, "JPEG Image");
    assert_eq!(entry.mime, Some("image/jpeg".to_string()));
    assert_eq!(entry.category, FileMimeCategory::UNKNOWN);
    assert_eq!(entry.created, at(10));
    assert_eq!(entry.last_modified, at(20));
}

#[test]
fn a_path_without_final_segment_has_no_name() {
    let mut root = directory("/", "");
    root.file_name = None;
    let entry = FileSystemEntry::from(root);
    assert_eq!(entry.name, "");
    assert_eq!(entry.path, "/");
    assert_eq!(entry.file_type, "");
    assert_eq!(entry.mime, None);
    assert_eq!(entry.category, FileMimeCategory::UNKNOWN);
}

#[test]
fn missing_timestamps_fall_back_to_the_epoch() {
    let mut observation = file("a.txt", "a.txt", 3, None);
    observation.metadata =
        Some(Metadata { is_dir: false, len: 3, created: None, modified: None });
    let entry = FileSystemEntry::from(observation);
    assert_eq!(entry.created, Timestamp::epoch());
    assert_eq!(entry.last_modified, Timestamp::epoch());
    let mut observation = file("a.txt", "a.txt", 3, None);
    observation.metadata =
        Some(Metadata { is_dir: false, len: 3, created: None, modified: Some(at(-5)) });
    let entry = FileSystemEntry::from(observation);
    assert_eq!(entry.created, at(0));
    assert_eq!(entry.last_modified, at(-5));
}

#[test]
fn a_file_that_went_away_after_the_first_look_is_unknown() {
    let mut observation = file("gone.txt", "gone.txt", 3, Some(b"abc"));
    observation.present = false;
    let entry = FileSystemEntry::from(observation);
    assert_eq!(entry.name, "gone.txt");
    assert_eq!(entry.mime, Some("text/plain".to_string()));
    assert_eq!(entry.category, FileMimeCategory::UNKNOWN);
}

#[test]
fn without_metadata_the_entry_is_a_placeholder() {
    let entry = FileSystemEntry::from(vanished("/nowhere/file.jpg", "file.jpg"));
    assert_eq!(entry, FileSystemEntry::placeholder(at(7_777)));
    assert_eq!(entry.name, "");
    assert_eq!(entry.path, "");
    assert!(!entry.is_dir);
    assert_eq!(entry.size, 0);
    assert_eq!(entry.file_type, "");
    assert_eq!(entry.mime, None);
    assert_eq!(entry.category, FileMimeCategory::TEXT);
    assert_eq!(entry.created, at(7_777));
    assert_eq!(entry.last_modified, at(7_777));
}

#[test]
fn describing_a_path_again_gives_the_same_entry() {
    let observation = file("music/song.mp3", "song.mp3", 99, None);
    let first = FileSystemEntry::from(observation.clone());
    let second = FileSystemEntry::from(observation);
    assert_eq!(first, second);
    assert_eq!(first.name, "song.mp3");
    assert_eq!(first.file_type, "MP3 Audio");
}

#[test]
fn the_label_can_be_derived_again_from_the_name() {
    for name in ["song.mp3", "Makefile", ".bashrc", "x.tar.gz", "notes.", "world.mcworld", "A.ZIP"] {
        let entry = FileSystemEntry::from(file(name, name, 1, None));
        let extension = file_extension(&entry.name).unwrap_or("").to_string();
        assert_eq!(get_file_type(extension), entry.file_type);
    }
    let placeholder = FileSystemEntry::from(vanished("x.mp3", "x.mp3"));
    let extension = file_extension(&placeholder.name).unwrap_or("").to_string();
    assert_eq!(get_file_type(extension), placeholder.file_type);
}

#[test]
fn the_default_listing_is_empty() {
    let listing = FileSystemEntries::default();
    assert_eq!(listing.parent, None);
    assert!(listing.entries.is_empty());
}

#[test]
fn an_unreadable_directory_is_listed_as_empty_without_parent() {
    let read = DirectoryRead { parent: Some("/srv".to_string()), children: None };
    let listing = FileSystemEntries::from(read);
    assert_eq!(listing.parent, None);
    assert!(listing.entries.is_empty());
    assert_eq!(listing, FileSystemEntries::default());
}

#[test]
fn an_empty_directory_is_listed_with_its_parent() {
    let read = DirectoryRead { parent: Some("/srv".to_string()), children: Some(Vec::new()) };
    let listing = FileSystemEntries::from(read);
    assert_eq!(listing.parent, Some("/srv".to_string()));
    assert!(listing.entries.is_empty());
}

#[test]
fn a_root_directory_has_no_parent() {
    let read = DirectoryRead {
        parent: None,
        children: Some(vec![Some(directory("/etc", "etc"))]),
    };
    let listing = FileSystemEntries::from(read);
    assert_eq!(listing.parent, None);
    assert_eq!(listing.entries.len(), 1);
    assert_eq!(listing.entries[0].name, "etc");
}

#[test]
fn children_are_listed_in_the_order_they_were_read() {
    let read = DirectoryRead {
        parent: Some("/".to_string()),
        children: Some(vec![
            Some(file("/d/b.txt", "b.txt", 1, None)),
            Some(directory("/d/sub", "sub")),
            Some(file("/d/a.png", "a.png", 2, None)),
        ]),
    };
    let listing = FileSystemEntries::from(read);
    let names: Vec<&str> = listing.entries.iter().map(|entry| entry.name.as_str()).collect();
    assert_eq!(names, vec!["b.txt", "sub", "a.png"]);
    assert_eq!(listing.entries[0].category, FileMimeCategory::TEXT);
    assert_eq!(listing.entries[1].category, FileMimeCategory::UNKNOWN);
    assert_eq!(listing.entries[2].category, FileMimeCategory::IMAGE);
}

#[test]
fn children_that_could_not_be_read_are_left_out() {
    let read = DirectoryRead {
        parent: Some("/".to_string()),
        children: Some(vec![
            None,
            Some(file("/d/one.csv", "one.csv", 1, None)),
            None,
            None,
            Some(file("/d/two.wav", "two.wav", 2, None)),
            None,
        ]),
    };
    let listing = FileSystemEntries::from(read);
    assert_eq!(listing.entries.len(), 2);
    assert_eq!(listing.entries[0].name, "one.csv");
    assert_eq!(listing.entries[0].file_type, "CSV File");
    assert_eq!(listing.entries[1].name, "two.wav");
    assert_eq!(listing.entries[1].file_type, "WAV Audio");
}

#[test]
fn a_child_without_metadata_stays_as_a_placeholder() {
    let read = DirectoryRead {
        parent: Some("/".to_string()),
        children: Some(vec![
            Some(vanished("/d/gone.txt", "gone.txt")),
            Some(file("/d/here.txt", "here.txt", 1, None)),
        ]),
    };
    let listing = FileSystemEntries::from(read);
    assert_eq!(listing.entries.len(), 2);
    assert_eq!(listing.entries[0], FileSystemEntry::placeholder(at(7_777)));
    assert_eq!(listing.entries[1].name, "here.txt");
}

#[test]
fn each_child_is_described_as_it_would_be_alone() {
    let child = file("/d/clip.mkv", "clip.mkv", 77, None);
    let alone = FileSystemEntry::from(child.clone());
    let listing = FileSystemEntries::from(DirectoryRead {
        parent: None,
        children: Some(vec![Some(child)]),
    });
    assert_eq!(listing.entries, vec![alone]);
}
