//! Media types guessed from a file extension.

use vstd::prelude::*;
use crate::strings::{owned_text_of, text_of};

verus! {

/// The media type that `mime_guess` lists first for a file extension, written
/// out in full, such as "image/png"; `None` where it lists none.
pub uninterp spec fn first_guess(extension: Seq<char>) -> Option<Seq<char>>;

/// The top-level type of the media type that `mime_guess` lists first for a
/// file extension, such as "image"; `None` where it lists none.
pub uninterp spec fn first_guess_type(extension: Seq<char>) -> Option<Seq<char>>;

/// The media type guessed for a file whose name may have an extension: a name
/// without one gets no guess.
pub open spec fn mime_for(extension: Option<Seq<char>>) -> Option<Seq<char>> {
    match extension {
        Some(extension) => first_guess(extension),
        None => None,
    }
}

/// The top-level type guessed for a file whose name may have an extension.
pub open spec fn mime_type_for(extension: Option<Seq<char>>) -> Option<Seq<char>> {
    match extension {
        Some(extension) => first_guess_type(extension),
        None => None,
    }
}

/// Calls `mime_guess::from_ext`, takes the guess's `first()` media type and
/// writes it out with its `Display`. The guess is looked up in a table that is
/// compiled into `mime_guess`, so it depends on the extension alone; every
/// media type of that table parses, so `first()` does not panic. Nothing is
/// claimed of which media type comes back, only that it is the one named
/// `first_guess`.
#[verifier::external_body]
fn guess_mime(extension: &str) -> (mime: Option<String>)
    ensures
        owned_text_of(mime) == first_guess(extension@),
{
    match mime_guess::from_ext(extension).first() {
        Some(mime) => Some(mime.to_string()),
        None => None,
    }
}

/// Calls `mime_guess::from_ext`, takes the guess's `first()` media type and
/// copies its `type_()`, the part before the slash. Like the guess itself it
/// depends on the extension alone. Nothing is claimed of which type comes
/// back, only that it is the one named `first_guess_type`.
#[verifier::external_body]
fn guess_mime_type(extension: &str) -> (top_level: Option<String>)
    ensures
        owned_text_of(top_level) == first_guess_type(extension@),
{
    match mime_guess::from_ext(extension).first() {
        Some(mime) => Some(mime.type_().as_str().to_string()),
        None => None,
    }
}

/// Guesses the media type of a file from its extension, `None` standing for a
/// file name without one.
pub fn get_mime(extension: Option<&str>) -> (mime: Option<String>)
    ensures
        owned_text_of(mime) == mime_for(text_of(extension)),
{
    match extension {
        Some(extension) => guess_mime(extension),
        None => None,
    }
}

/// Guesses the top-level media type of a file from its extension, `None`
/// standing for a file name without one.
pub fn get_mime_type(extension: Option<&str>) -> (top_level: Option<String>)
    ensures
        owned_text_of(top_level) == mime_type_for(text_of(extension)),
{
    match extension {
        Some(extension) => guess_mime_type(extension),
        None => None,
    }
}

} // verus!
