//! The text heuristic: whether the first bytes of a file look like plain text.

use vstd::prelude::*;

verus! {

/// How many leading bytes of a file the heuristic looks at.
pub const SNIFF_LIMIT: usize = 1024;

/// A byte that plain text may hold: a tab, a line feed, a carriage return, or
/// printable ASCII.
pub open spec fn is_text_byte(byte: u8) -> bool {
    byte == 0x09 || byte == 0x0A || byte == 0x0D || (0x20 <= byte && byte <= 0x7E)
}

/// The part of `bytes` that the heuristic looks at: the first `SNIFF_LIMIT`
/// bytes, or all of them where there are fewer.
pub open spec fn sniffed_prefix(bytes: Seq<u8>) -> Seq<u8> {
    if bytes.len() <= SNIFF_LIMIT {
        bytes
    } else {
        bytes.take(SNIFF_LIMIT as int)
    }
}

/// Every byte of `bytes` is a text byte.
pub open spec fn all_text_bytes(bytes: Seq<u8>) -> bool {
    forall|at: int| 0 <= at < bytes.len() ==> is_text_byte(#[trigger] bytes[at])
}

/// What the heuristic answers for the outcome of reading a file's start.
/// `None` stands for a file that could not be opened or read.
pub open spec fn looks_like_text(read: Option<Seq<u8>>) -> bool {
    match read {
        Some(bytes) => all_text_bytes(sniffed_prefix(bytes)),
        None => false,
    }
}

/// The bytes behind the outcome of a read.
pub open spec fn read_bytes(read: Option<&[u8]>) -> Option<Seq<u8>> {
    match read {
        Some(bytes) => Some(bytes@),
        None => None,
    }
}

/// A file with nothing in it passes for text.
pub proof fn lemma_empty_is_text()
    ensures
        looks_like_text(Some(Seq::<u8>::empty())),
{
}

/// One byte within the sniffed prefix that is no text byte, such as a NUL,
/// makes the whole file binary.
pub proof fn lemma_one_byte_disqualifies(bytes: Seq<u8>, at: int)
    requires
        0 <= at < bytes.len(),
        at < SNIFF_LIMIT,
        !is_text_byte(bytes[at]),
    ensures
        !looks_like_text(Some(bytes)),
{
    assert(sniffed_prefix(bytes)[at] == bytes[at]);
}

/// What lies past the sniffed prefix has no say.
pub proof fn lemma_only_the_prefix_counts(bytes: Seq<u8>, other: Seq<u8>)
    requires
        sniffed_prefix(bytes) == sniffed_prefix(other),
    ensures
        looks_like_text(Some(bytes)) == looks_like_text(Some(other)),
{
}

/// Tells whether one byte may stand in plain text.
pub fn text_byte(byte: u8) -> (ok: bool)
    ensures
        ok == is_text_byte(byte),
{
    byte == 0x09 || byte == 0x0A || byte == 0x0D || (0x20 <= byte && byte <= 0x7E)
}

/// Decides from the start of a file whether it is text. `read` is what
/// reading the file gave, `None` where it could not be opened or read: such a
/// file is not text. Only the first `SNIFF_LIMIT` bytes are looked at, and
/// each of them has to be a text byte.
pub fn is_text_file(read: Option<&[u8]>) -> (textual: bool)
    ensures
        textual == looks_like_text(read_bytes(read)),
        read matches Some(bytes) ==> (textual <==> forall|at: int|
            0 <= at < bytes@.len() && at < SNIFF_LIMIT ==> is_text_byte(#[trigger] bytes@[at])),
{
    match read {
        None => false,
        Some(bytes) => {
            let end = if bytes.len() <= SNIFF_LIMIT {
                bytes.len()
            } else {
                SNIFF_LIMIT
            };
            let mut at: usize = 0;
            while at < end
                invariant
                    read == Some(bytes),
                    at <= end,
                    end == sniffed_prefix(bytes@).len(),
                    forall|seen: int| 0 <= seen < at ==> is_text_byte(#[trigger] bytes@[seen]),
                decreases end - at,
            {
                if !text_byte(bytes[at]) {
                    assert(!is_text_byte(sniffed_prefix(bytes@)[at as int]));
                    return false;
                }
                at += 1;
            }
            assert forall|seen: int| 0 <= seen < sniffed_prefix(bytes@).len() implies is_text_byte(
                #[trigger] sniffed_prefix(bytes@)[seen],
            ) by {
                assert(sniffed_prefix(bytes@)[seen] == bytes@[seen]);
            }
            true
        },
    }
}

} // verus!
