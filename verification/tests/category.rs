use file_entry::category::{
    category_for_file, category_for_type, get_mime_category, needs_content, FileMimeCategory,
};
use file_entry::mime::{get_mime, get_mime_type};

#[test]
fn the_guess_is_the_full_media_type() {
    assert_eq!(get_mime(Some("png")), Some("image/png".to_string()));
    assert_eq!(get_mime(Some("jpg")), Some("image/jpeg".to_string()));
    assert_eq!(get_mime(Some("txt")), Some("text/plain".to_string()));
    assert_eq!(get_mime(Some("json")), Some("application/json".to_string()));
    assert_eq!(get_mime(Some("mp3")), Some("audio/mpeg".to_string()));
    assert_eq!(get_mime(Some("mp4")), Some("video/mp4".to_string()));
}

#[test]
fn the_guess_folds_case() {
    assert_eq!(get_mime(Some("PNG")), Some("image/png".to_string()));
    assert_eq!(get_mime_type(Some("TXT")), Some("text".to_string()));
}

#[test]
fn no_extension_no_guess() {
    assert_eq!(get_mime(None), None);
    assert_eq!(get_mime(Some("")), None);
    assert_eq!(get_mime(Some("xyz123")), None);
    assert_eq!(get_mime_type(None), None);
    assert_eq!(get_mime_type(Some("")), None);
    assert_eq!(get_mime_type(Some("xyz123")), None);
}

#[test]
fn the_top_level_type_is_the_part_before_the_slash() {
    assert_eq!(get_mime_type(Some("png")), Some("image".to_string()));
    assert_eq!(get_mime_type(Some("txt")), Some("text".to_string()));
    assert_eq!(get_mime_type(Some("pdf")), Some("application".to_string()));
    assert_eq!(get_mime_type(Some("mp3")), Some("audio".to_string()));
    assert_eq!(get_mime_type(Some("mkv")), Some("video".to_string()));
    assert_eq!(get_mime_type(Some("woff2")), Some("font".to_string()));
}

#[test]
fn each_top_level_type_has_its_category() {
    assert_eq!(category_for_type("text"), FileMimeCategory::TEXT);
    assert_eq!(category_for_type("image"), FileMimeCategory::IMAGE);
    assert_eq!(category_for_type("audio"), FileMimeCategory::AUDIO);
    assert_eq!(category_for_type("video"), FileMimeCategory::VIDEO);
    assert_eq!(category_for_type("application"), FileMimeCategory::ARCHIVE);
}

#[test]
fn other_top_level_types_are_unknown() {
    assert_eq!(category_for_type("font"), FileMimeCategory::UNKNOWN);
    assert_eq!(category_for_type("model"), FileMimeCategory::UNKNOWN);
    assert_eq!(category_for_type(""), FileMimeCategory::UNKNOWN);
    assert_eq!(category_for_type("Text"), FileMimeCategory::UNKNOWN);
    assert_eq!(category_for_type("text/plain"), FileMimeCategory::UNKNOWN);
    assert_eq!(category_for_type("tex"), FileMimeCategory::UNKNOWN);
}

#[test]
fn a_guess_wins_over_the_content() {
    assert_eq!(category_for_file(Some("image"), Some(b"just text")), FileMimeCategory::IMAGE);
    assert_eq!(category_for_file(Some("text"), Some(&[0, 1, 2])), FileMimeCategory::TEXT);
    assert_eq!(category_for_file(Some("font"), Some(b"just text")), FileMimeCategory::UNKNOWN);
    assert_eq!(category_for_file(Some("application"), None), FileMimeCategory::ARCHIVE);
}

#[test]
fn without_a_guess_the_content_decides() {
    assert_eq!(category_for_file(None, Some(b"just text\n")), FileMimeCategory::TEXT);
    assert_eq!(category_for_file(None, Some(&[])), FileMimeCategory::TEXT);
    assert_eq!(category_for_file(None, Some(&[0x7F, 0x45, 0x4C, 0x46])), FileMimeCategory::UNKNOWN);
    assert_eq!(category_for_file(None, None), FileMimeCategory::UNKNOWN);
}

#[test]
fn a_missing_path_is_unknown() {
    assert_eq!(get_mime_category(Some("jpg"), false, false, None), FileMimeCategory::UNKNOWN);
    assert_eq!(get_mime_category(Some("txt"), false, false, Some(b"text")), FileMimeCategory::UNKNOWN);
    assert_eq!(get_mime_category(None, false, false, Some(b"text")), FileMimeCategory::UNKNOWN);
    assert_eq!(get_mime_category(Some("jpg"), false, true, None), FileMimeCategory::UNKNOWN);
}

#[test]
fn a_directory_is_unknown_whatever_its_name() {
    assert_eq!(get_mime_category(Some("jpg"), true, true, None), FileMimeCategory::UNKNOWN);
    assert_eq!(get_mime_category(Some("txt"), true, true, Some(b"text")), FileMimeCategory::UNKNOWN);
    assert_eq!(get_mime_category(None, true, true, None), FileMimeCategory::UNKNOWN);
}

#[test]
fn a_text_file_without_a_guess_is_text() {
    assert_eq!(get_mime_category(None, true, false, Some(b"plain ASCII\n")), FileMimeCategory::TEXT);
    assert_eq!(
        get_mime_category(Some("xyz123"), true, false, Some(b"plain ASCII\n")),
        FileMimeCategory::TEXT
    );
    assert_eq!(
        get_mime_category(Some("txt"), true, false, Some(b"plain ASCII\n")),
        FileMimeCategory::TEXT
    );
}

#[test]
fn a_jpg_file_is_an_image() {
    assert_eq!(get_mime_category(Some("jpg"), true, false, None), FileMimeCategory::IMAGE);
    assert_eq!(
        get_mime_category(Some("jpg"), true, false, Some(b"not a picture")),
        FileMimeCategory::IMAGE
    );
}

#[test]
fn the_other_categories_are_reached_too() {
    assert_eq!(get_mime_category(Some("mp3"), true, false, None), FileMimeCategory::AUDIO);
    assert_eq!(get_mime_category(Some("mp4"), true, false, None), FileMimeCategory::VIDEO);
    assert_eq!(get_mime_category(Some("zip"), true, false, None), FileMimeCategory::ARCHIVE);
    assert_eq!(get_mime_category(Some("json"), true, false, None), FileMimeCategory::ARCHIVE);
    assert_eq!(get_mime_category(Some("woff2"), true, false, None), FileMimeCategory::UNKNOWN);
}

#[test]
fn a_binary_file_without_a_guess_is_unknown() {
    assert_eq!(get_mime_category(None, true, false, Some(&[0, 159, 146, 150])), FileMimeCategory::UNKNOWN);
    assert_eq!(get_mime_category(Some("xyz123"), true, false, None), FileMimeCategory::UNKNOWN);
}

#[test]
fn the_content_is_needed_only_for_a_file_without_a_guess() {
    assert!(needs_content(None, true, false));
    assert!(needs_content(Some("xyz123"), true, false));
    assert!(needs_content(Some(""), true, false));
    assert!(!needs_content(Some("jpg"), true, false));
    assert!(!needs_content(Some("woff2"), true, false));
    assert!(!needs_content(None, false, false));
    assert!(!needs_content(None, true, true));
    assert!(!needs_content(None, false, true));
}
