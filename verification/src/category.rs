//! The coarse category of a file's content.

use vstd::prelude::*;
use crate::mime::{get_mime_type, mime_type_for};
use crate::strings::{str_eq, text_of};
use crate::text::{is_text_file, looks_like_text, read_bytes};

verus! {

/// The coarse kinds of content. `ARCHIVE` is the category of every media type
/// whose top-level type is "application", whether it is an archive or not.
#[allow(non_camel_case_types)]
#[derive(Debug, Clone, Copy, PartialEq, Eq, Structural)]
pub enum FileMimeCategory {
    TEXT,
    IMAGE,
    AUDIO,
    ARCHIVE,
    VIDEO,
    UNKNOWN,
}

/// The category of a top-level media type.
pub open spec fn category_of_type(top_level: Seq<char>) -> FileMimeCategory {
    if top_level == "text"@ {
        FileMimeCategory::TEXT
    } else if top_level == "image"@ {
        FileMimeCategory::IMAGE
    } else if top_level == "audio"@ {
        FileMimeCategory::AUDIO
    } else if top_level == "video"@ {
        FileMimeCategory::VIDEO
    } else if top_level == "application"@ {
        FileMimeCategory::ARCHIVE
    } else {
        FileMimeCategory::UNKNOWN
    }
}

/// The category of a file that exists and is no directory: that of its
/// guessed media type where there is a guess, whatever the file holds, and
/// else what the text heuristic makes of its first bytes.
pub open spec fn category_of_file(
    guess: Option<Seq<char>>,
    read: Option<Seq<u8>>,
) -> FileMimeCategory {
    match guess {
        Some(top_level) => category_of_type(top_level),
        None => if looks_like_text(read) {
            FileMimeCategory::TEXT
        } else {
            FileMimeCategory::UNKNOWN
        },
    }
}

/// The category of a path: `UNKNOWN` for one that does not exist and for a
/// directory, and else the category of the file.
pub open spec fn category_of(
    present: bool,
    is_dir: bool,
    guess: Option<Seq<char>>,
    read: Option<Seq<u8>>,
) -> FileMimeCategory {
    if !present || is_dir {
        FileMimeCategory::UNKNOWN
    } else {
        category_of_file(guess, read)
    }
}

/// Whether the first bytes of the file have a say in its category.
pub open spec fn content_decides(present: bool, is_dir: bool, guess: Option<Seq<char>>) -> bool {
    present && !is_dir && guess is None
}

/// Where the content has no say, the category is the same whatever was read.
pub proof fn lemma_content_ignored(
    present: bool,
    is_dir: bool,
    guess: Option<Seq<char>>,
    read: Option<Seq<u8>>,
    other: Option<Seq<u8>>,
)
    requires
        !content_decides(present, is_dir, guess),
    ensures
        category_of(present, is_dir, guess, read) == category_of(present, is_dir, guess, other),
{
}

/// A file without a guess whose first bytes are all text bytes is `TEXT`.
pub proof fn lemma_textual_file_is_text(read: Seq<u8>)
    requires
        looks_like_text(Some(read)),
    ensures
        category_of(true, false, None, Some(read)) == FileMimeCategory::TEXT,
{
}

/// Maps a top-level media type to its category.
pub fn category_for_type(top_level: &str) -> (category: FileMimeCategory)
    ensures
        category == category_of_type(top_level@),
{
    if str_eq(top_level, "text") {
        FileMimeCategory::TEXT
    } else if str_eq(top_level, "image") {
        FileMimeCategory::IMAGE
    } else if str_eq(top_level, "audio") {
        FileMimeCategory::AUDIO
    } else if str_eq(top_level, "video") {
        FileMimeCategory::VIDEO
    } else if str_eq(top_level, "application") {
        FileMimeCategory::ARCHIVE
    } else {
        FileMimeCategory::UNKNOWN
    }
}

/// Gives the category of a file that exists and is no directory, from the
/// top-level type that was guessed for it, if any, and from what reading its
/// start gave.
pub fn category_for_file(guess: Option<&str>, read: Option<&[u8]>) -> (category: FileMimeCategory)
    ensures
        category == category_of_file(text_of(guess), read_bytes(read)),
{
    match guess {
        Some(top_level) => category_for_type(top_level),
        None => if is_text_file(read) {
            FileMimeCategory::TEXT
        } else {
            FileMimeCategory::UNKNOWN
        },
    }
}

/// Tells whether the category of a path hangs on the first bytes of the
/// file, so that they have to be read.
pub fn needs_content(extension: Option<&str>, present: bool, is_dir: bool) -> (needed: bool)
    ensures
        needed == content_decides(present, is_dir, mime_type_for(text_of(extension))),
{
    if !present || is_dir {
        false
    } else {
        get_mime_type(extension).is_none()
    }
}

/// Gives the category of a path from its extension, from whether it exists
/// and is a directory, and from what reading its start gave.
pub fn get_mime_category(
    extension: Option<&str>,
    present: bool,
    is_dir: bool,
    read: Option<&[u8]>,
) -> (category: FileMimeCategory)
    ensures
        category == category_of(
            present,
            is_dir,
            mime_type_for(text_of(extension)),
            read_bytes(read),
        ),
        !present ==> category == FileMimeCategory::UNKNOWN,
        is_dir ==> category == FileMimeCategory::UNKNOWN,
{
    if !present {
        FileMimeCategory::UNKNOWN
    } else if is_dir {
        FileMimeCategory::UNKNOWN
    } else {
        let guess = get_mime_type(extension);
        match &guess {
            Some(top_level) => category_for_file(Some(top_level.as_str()), read),
            None => category_for_file(None, read),
        }
    }
}

} // verus!
