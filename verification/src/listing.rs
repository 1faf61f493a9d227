//! The record that describes the children of one directory.

use vstd::prelude::*;
use vstd::std_specs::convert::FromSpecImpl;
use crate::entry::{entry_for, EntryView, FileSystemEntry, Observation, ObservationView};

verus! {

/// What reading one directory gave.
#[derive(Debug, Clone, PartialEq, Eq)]
pub struct DirectoryRead {
    /// The parent of the directory, where it has one.
    pub parent: Option<String>,
    /// The children in the order in which the directory gave them, a child
    /// that could not be read as `None`; `None` for all of it where the
    /// directory itself could not be read.
    pub children: Option<Vec<Option<Observation>>>,
}

/// A `DirectoryRead` as plain values.
pub struct DirectoryReadView {
    pub parent: Option<Seq<char>>,
    pub children: Option<Seq<Option<ObservationView>>>,
}

/// One child of a directory as plain values.
pub open spec fn child_view(child: Option<Observation>) -> Option<ObservationView> {
    match child {
        Some(observation) => Some(observation@),
        None => None,
    }
}

impl View for DirectoryRead {
    type V = DirectoryReadView;

    open spec fn view(&self) -> DirectoryReadView {
        DirectoryReadView {
            parent: match self.parent {
                Some(parent) => Some(parent@),
                None => None,
            },
            children: match self.children {
                Some(children) => Some(children@.map_values(|child| child_view(child))),
                None => None,
            },
        }
    }
}

/// The children of one directory, described, and the directory's parent.
#[derive(Debug, Clone, PartialEq, Eq)]
pub struct FileSystemEntries {
    pub parent: Option<String>,
    pub entries: Vec<FileSystemEntry>,
}

/// A `FileSystemEntries` as plain values.
pub struct ListingView {
    pub parent: Option<Seq<char>>,
    pub entries: Seq<EntryView>,
}

impl View for FileSystemEntries {
    type V = ListingView;

    open spec fn view(&self) -> ListingView {
        ListingView {
            parent: match self.parent {
                Some(parent) => Some(parent@),
                None => None,
            },
            entries: self.entries@.map_values(|entry: FileSystemEntry| entry@),
        }
    }
}

/// The listing of a directory that could not be read.
pub open spec fn empty_listing() -> ListingView {
    ListingView { parent: None, entries: Seq::empty() }
}

/// The entry of one child: a child that could not be read has none.
pub open spec fn child_entry(child: Option<ObservationView>) -> Option<EntryView> {
    match child {
        Some(observation) => Some(entry_for(observation)),
        None => None,
    }
}

/// The entries of the children that could be read, in the children's order.
pub open spec fn entries_for(children: Seq<Option<ObservationView>>) -> Seq<EntryView> {
    children.filter_map(|child| child_entry(child))
}

/// The listing that describes what reading a directory gave.
pub open spec fn listing_for(read: DirectoryReadView) -> ListingView {
    match read.children {
        Some(children) => ListingView { parent: read.parent, entries: entries_for(children) },
        None => empty_listing(),
    }
}

/// A directory that could not be read is listed as empty and without a
/// parent.
pub proof fn lemma_unreadable_directory(read: DirectoryReadView)
    requires
        read.children is None,
    ensures
        listing_for(read).parent is None,
        listing_for(read).entries.len() == 0,
{
}

/// A directory without children is listed as empty, with its parent.
pub proof fn lemma_empty_directory(read: DirectoryReadView)
    requires
        read.children == Some(Seq::<Option<ObservationView>>::empty()),
    ensures
        listing_for(read).parent == read.parent,
        listing_for(read).entries.len() == 0,
{
}

/// Where every child could be read, the listing has one entry for each
/// child, in the children's order.
pub proof fn lemma_all_children_listed(children: Seq<Option<ObservationView>>)
    requires
        forall|at: int| 0 <= at < children.len() ==> children[at] is Some,
    ensures
        entries_for(children).len() == children.len(),
        forall|at: int|
            0 <= at < children.len() ==> entries_for(children)[at] == entry_for(children[at]->0),
    decreases children.len(),
{
    if children.len() > 0 {
        lemma_all_children_listed(children.drop_last());
    }
}

/// A listing never has more entries than the directory has children.
pub proof fn lemma_no_more_entries_than_children(children: Seq<Option<ObservationView>>)
    ensures
        entries_for(children).len() <= children.len(),
    decreases children.len(),
{
    if children.len() > 0 {
        lemma_no_more_entries_than_children(children.drop_last());
    }
}

/// After one more child the entries are those of the children before it,
/// and its own behind them where it could be read.
proof fn lemma_entries_step(children: Seq<Option<Observation>>, upto: int)
    requires
        0 <= upto < children.len(),
    ensures
        entries_for(children.map_values(|child| child_view(child)).take(upto + 1))
            == entries_for(children.map_values(|child| child_view(child)).take(upto)) + (
        match children[upto] {
            Some(observation) => seq![entry_for(observation@)],
            None => Seq::empty(),
        }),
{
    let views = children.map_values(|child| child_view(child));
    views.lemma_filter_map_take_succ(|child| child_entry(child), upto);
}

impl Default for FileSystemEntries {
    /// The listing of a directory that could not be read: no parent and no
    /// entries.
    fn default() -> (listing: FileSystemEntries)
        ensures
            listing@ == empty_listing(),
    {
        let listing = FileSystemEntries { parent: None, entries: Vec::new() };
        assert(listing@.entries =~= Seq::empty());
        listing
    }
}

/// The conversion is stated through the view of its result, not as one value:
/// two strings with the same characters need not be the same value.
impl FromSpecImpl<DirectoryRead> for FileSystemEntries {
    open spec fn obeys_from_spec() -> bool {
        false
    }

    open spec fn from_spec(read: DirectoryRead) -> FileSystemEntries {
        arbitrary()
    }
}

impl From<DirectoryRead> for FileSystemEntries {
    /// Describes the children of a directory: one entry for each child that
    /// could be read, in the order in which the directory gave them, and the
    /// directory's parent. A directory that could not be read is listed as
    /// empty and without a parent.
    fn from(read: DirectoryRead) -> (listing: FileSystemEntries)
        ensures
            listing@ == listing_for(read@),
    {
        match read.children {
            None => FileSystemEntries::default(),
            Some(children) => {
                let ghost all = children@;
                let ghost views = all.map_values(|child| child_view(child));
                let mut entries: Vec<FileSystemEntry> = Vec::new();
                proof {
                    assert(views.take(0) =~= Seq::empty());
                    assert(entries@.map_values(|entry: FileSystemEntry| entry@) =~= entries_for(
                        views.take(0),
                    ));
                }
                for child in it: children.into_iter()
                    invariant
                        it.seq() == all,
                        views == all.map_values(|child| child_view(child)),
                        entries@.map_values(|entry: FileSystemEntry| entry@) == entries_for(
                            views.take(it.index() as int),
                        ),
                {
                    proof {
                        lemma_entries_step(all, it.index() as int);
                    }
                    match child {
                        Some(observation) => {
                            let ghost before = entries@;
                            let entry = FileSystemEntry::from(observation);
                            entries.push(entry);
                            assert(entries@.map_values(|entry: FileSystemEntry| entry@)
                                =~= before.map_values(|entry: FileSystemEntry| entry@).push(
                                entry@,
                            ));
                        },
                        None => {},
                    }
                }
                proof {
                    assert(views.take(all.len() as int) =~= views);
                }
                FileSystemEntries { parent: read.parent, entries }
            },
        }
    }
}

} // verus!
