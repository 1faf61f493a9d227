//! The record that describes one path.

use vstd::prelude::*;
use vstd::std_specs::convert::FromSpecImpl;
use crate::category::{category_of, get_mime_category, FileMimeCategory};
use crate::extension::{extension_of, file_extension};
use crate::label::{get_file_type, label_of, lemma_empty_label};
use crate::mime::{get_mime, mime_for, mime_type_for};

verus! {

/// A point in time, as nanoseconds from the Unix epoch; negative before it.
#[derive(Debug, Clone, Copy, PartialEq, Eq, Structural)]
pub struct Timestamp {
    pub nanos: i128,
}

/// The Unix epoch.
pub open spec fn unix_epoch() -> Timestamp {
    Timestamp { nanos: 0 }
}

/// A timestamp that the filesystem may not have supplied: the epoch stands
/// in for one that is missing.
pub open spec fn or_epoch(time: Option<Timestamp>) -> Timestamp {
    match time {
        Some(time) => time,
        None => unix_epoch(),
    }
}

/// A text that may be missing: the empty text stands in for it.
pub open spec fn or_empty(text: Option<Seq<char>>) -> Seq<char> {
    match text {
        Some(text) => text,
        None => Seq::empty(),
    }
}

impl Timestamp {
    /// The Unix epoch.
    pub fn epoch() -> (time: Timestamp)
        ensures
            time == unix_epoch(),
    {
        Timestamp { nanos: 0 }
    }
}

/// What the filesystem reports of a path that it could look up.
#[derive(Debug, Clone, Copy, PartialEq, Eq)]
pub struct Metadata {
    pub is_dir: bool,
    pub len: u64,
    pub created: Option<Timestamp>,
    pub modified: Option<Timestamp>,
}

/// All that was seen of one path, gathered before it is classified.
#[derive(Debug, Clone, PartialEq, Eq)]
pub struct Observation {
    /// The path as it was given.
    pub path: String,
    /// Its final segment, where it has one.
    pub file_name: Option<String>,
    /// Its metadata, `None` where the query failed.
    pub metadata: Option<Metadata>,
    /// Whether a second look found the path.
    pub present: bool,
    /// Whether that look found a directory.
    pub is_dir: bool,
    /// The start of the file, `None` where it was not read or could not be.
    pub content: Option<Vec<u8>>,
    /// When the path was looked at.
    pub now: Timestamp,
}

/// An `Observation` as plain values.
pub struct ObservationView {
    pub path: Seq<char>,
    pub file_name: Option<Seq<char>>,
    pub metadata: Option<Metadata>,
    pub present: bool,
    pub is_dir: bool,
    pub content: Option<Seq<u8>>,
    pub now: Timestamp,
}

impl View for Observation {
    type V = ObservationView;

    open spec fn view(&self) -> ObservationView {
        ObservationView {
            path: self.path@,
            file_name: match self.file_name {
                Some(name) => Some(name@),
                None => None,
            },
            metadata: self.metadata,
            present: self.present,
            is_dir: self.is_dir,
            content: match self.content {
                Some(bytes) => Some(bytes@),
                None => None,
            },
            now: self.now,
        }
    }
}

/// The description of one file or directory.
#[derive(Debug, Clone, PartialEq, Eq)]
pub struct FileSystemEntry {
    pub name: String,
    pub path: String,
    pub is_dir: bool,
    pub size: u64,
    pub file_type: String,
    pub mime: Option<String>,
    pub category: FileMimeCategory,
    pub created: Timestamp,
    pub last_modified: Timestamp,
}

/// A `FileSystemEntry` as plain values.
pub struct EntryView {
    pub name: Seq<char>,
    pub path: Seq<char>,
    pub is_dir: bool,
    pub size: u64,
    pub file_type: Seq<char>,
    pub mime: Option<Seq<char>>,
    pub category: FileMimeCategory,
    pub created: Timestamp,
    pub last_modified: Timestamp,
}

impl View for FileSystemEntry {
    type V = EntryView;

    open spec fn view(&self) -> EntryView {
        EntryView {
            name: self.name@,
            path: self.path@,
            is_dir: self.is_dir,
            size: self.size,
            file_type: self.file_type@,
            mime: match self.mime {
                Some(mime) => Some(mime@),
                None => None,
            },
            category: self.category,
            created: self.created,
            last_modified: self.last_modified,
        }
    }
}

/// The entry that stands in for a path whose metadata could not be had:
/// nothing is known of it but the time at which it was looked at.
pub open spec fn placeholder_entry(now: Timestamp) -> EntryView {
    EntryView {
        name: Seq::empty(),
        path: Seq::empty(),
        is_dir: false,
        size: 0,
        file_type: Seq::empty(),
        mime: None,
        category: FileMimeCategory::TEXT,
        created: now,
        last_modified: now,
    }
}

/// The extension of the observed path: that of its final segment.
pub open spec fn observed_extension(observation: ObservationView) -> Option<Seq<char>> {
    match observation.file_name {
        Some(name) => extension_of(name),
        None => None,
    }
}

/// The entry that describes an observed path.
pub open spec fn entry_for(observation: ObservationView) -> EntryView {
    match observation.metadata {
        None => placeholder_entry(observation.now),
        Some(metadata) => EntryView {
            name: or_empty(observation.file_name),
            path: observation.path,
            is_dir: metadata.is_dir,
            size: if metadata.is_dir {
                0
            } else {
                metadata.len
            },
            file_type: label_of(or_empty(observed_extension(observation))),
            mime: mime_for(observed_extension(observation)),
            category: category_of(
                observation.present,
                observation.is_dir,
                mime_type_for(observed_extension(observation)),
                observation.content,
            ),
            created: or_epoch(metadata.created),
            last_modified: or_epoch(metadata.modified),
        },
    }
}

/// The label and the media type of an entry follow from its name: taking
/// the extension of the name again and looking it up again gives what the
/// entry holds.
pub proof fn lemma_label_follows_name(observation: ObservationView)
    ensures
        entry_for(observation).file_type == label_of(
            or_empty(extension_of(entry_for(observation).name)),
        ),
        entry_for(observation).mime == mime_for(extension_of(entry_for(observation).name)),
{
    lemma_empty_label();
    assert(extension_of(Seq::<char>::empty()) is None);
}

/// Describing a path again gives the same name and the same label: both hang
/// on the final segment of the path, and on whether its metadata could be
/// had, and on nothing else.
pub proof fn lemma_name_and_label_stable(first: ObservationView, second: ObservationView)
    requires
        first.file_name == second.file_name,
        first.metadata is Some <==> second.metadata is Some,
    ensures
        entry_for(first).name == entry_for(second).name,
        entry_for(first).file_type == entry_for(second).file_type,
        entry_for(first).mime == entry_for(second).mime,
{
}

/// A path that is gone at the second look, and one that is a directory then,
/// is `UNKNOWN`, whatever its name ends in.
pub proof fn lemma_missing_or_directory_is_unknown(observation: ObservationView)
    requires
        observation.metadata is Some,
        !observation.present || observation.is_dir,
    ensures
        entry_for(observation).category == FileMimeCategory::UNKNOWN,
{
}

impl FileSystemEntry {
    /// Makes the entry that stands in for a path of which nothing is known.
    pub fn placeholder(now: Timestamp) -> (entry: FileSystemEntry)
        ensures
            entry@ == placeholder_entry(now),
    {
        FileSystemEntry {
            name: String::new(),
            path: String::new(),
            is_dir: false,
            size: 0,
            file_type: String::new(),
            mime: None,
            category: FileMimeCategory::TEXT,
            created: now,
            last_modified: now,
        }
    }
}

/// The conversion is stated through the view of its result, not as one value:
/// two strings with the same characters need not be the same value.
impl FromSpecImpl<Observation> for FileSystemEntry {
    open spec fn obeys_from_spec() -> bool {
        false
    }

    open spec fn from_spec(observation: Observation) -> FileSystemEntry {
        arbitrary()
    }
}

impl From<Observation> for FileSystemEntry {
    /// Describes an observed path. Without metadata the entry is the
    /// placeholder, stamped with the time of the observation. With metadata
    /// the name is the final segment of the path, the label and the media
    /// type go by the extension of that name, a directory has size 0, and a
    /// timestamp that the filesystem did not supply is the epoch.
    fn from(observation: Observation) -> (entry: FileSystemEntry)
        ensures
            entry@ == entry_for(observation@),
    {
        match observation.metadata {
            None => FileSystemEntry::placeholder(observation.now),
            Some(metadata) => {
                let extension = match &observation.file_name {
                    Some(name) => file_extension(name.as_str()),
                    None => None,
                };
                let file_type = get_file_type(
                    match extension {
                        Some(extension) => extension.to_owned(),
                        None => String::new(),
                    },
                );
                let mime = get_mime(extension);
                let category = get_mime_category(
                    extension,
                    observation.present,
                    observation.is_dir,
                    match &observation.content {
                        Some(bytes) => Some(bytes.as_slice()),
                        None => None,
                    },
                );
                let name = match &observation.file_name {
                    Some(name) => name.clone(),
                    None => String::new(),
                };
                FileSystemEntry {
                    name,
                    path: observation.path,
                    is_dir: metadata.is_dir,
                    size: if metadata.is_dir {
                        0
                    } else {
                        metadata.len
                    },
                    file_type,
                    mime,
                    category,
                    created: match metadata.created {
                        Some(time) => time,
                        None => Timestamp::epoch(),
                    },
                    last_modified: match metadata.modified {
                        Some(time) => time,
                        None => Timestamp::epoch(),
                    },
                }
            },
        }
    }
}

} // verus!
