//! Labels for file extensions: the readable description of a file's kind.

use vstd::prelude::*;
use crate::strings::str_eq;
use crate::table::{extension_label_table, extension_labels, lemma_extensions_distinct};

verus! {

/// Row `row` of the table lists `extension`.
pub open spec fn lists(row: int, extension: Seq<char>) -> bool {
    0 <= row < extension_labels().len() && extension_labels()[row].0@ == extension
}

/// The table has a row for `extension`.
pub open spec fn is_known_extension(extension: Seq<char>) -> bool {
    exists|row: int| lists(row, extension)
}

/// The label of `extension`: that of its row in the table, and the extension
/// itself where the table has no row for it.
pub open spec fn label_of(extension: Seq<char>) -> Seq<char> {
    if is_known_extension(extension) {
        extension_labels()[choose|row: int| lists(row, extension)].1@
    } else {
        extension
    }
}

/// A listed extension has the label of its row.
pub proof fn lemma_listed_label(row: int)
    requires
        0 <= row < extension_labels().len(),
    ensures
        is_known_extension(extension_labels()[row].0@),
        label_of(extension_labels()[row].0@) == extension_labels()[row].1@,
{
    let extension = extension_labels()[row].0@;
    assert(lists(row, extension));
    lemma_extensions_distinct();
}

/// An extension that the table does not list is its own label.
pub proof fn lemma_unlisted_label(extension: Seq<char>)
    requires
        !is_known_extension(extension),
    ensures
        label_of(extension) == extension,
{
}

/// The empty extension is not listed, so its label is empty too.
pub proof fn lemma_empty_label()
    ensures
        !is_known_extension(Seq::empty()),
        label_of(Seq::empty()) == Seq::<char>::empty(),
{
    lemma_extensions_distinct();
}

/// Gives the label for a file extension, written without its dot. The table's
/// extensions are in lower case and the search does not fold case, so "ZIP"
/// is not found; what is not found comes back unchanged.
pub fn get_file_type(extension: String) -> (label: String)
    ensures
        label@ == label_of(extension@),
        forall|row: int| lists(row, extension@) ==> label@ == extension_labels()[row].1@,
        !is_known_extension(extension@) ==> label@ == extension@,
        extension@.len() == 0 ==> label@.len() == 0,
{
    proof {
        lemma_empty_label();
    }
    let table = extension_label_table();
    let mut row: usize = 0;
    while row < table.len()
        invariant
            row <= table.len(),
            table@ == extension_labels(),
            forall|earlier: int| 0 <= earlier < row ==> !lists(earlier, extension@),
        decreases table.len() - row,
    {
        let (known, label) = table[row];
        if str_eq(extension.as_str(), known) {
            proof {
                assert(lists(row as int, extension@));
                lemma_extensions_distinct();
            }
            return label.to_owned();
        }
        row += 1;
    }
    extension
}

} // verus!
