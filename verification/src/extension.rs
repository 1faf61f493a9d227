//! The extension of a file name.

use vstd::prelude::*;

verus! {

/// The last `.` of `name` stands at `dot`.
pub open spec fn is_last_dot(name: Seq<char>, dot: int) -> bool {
    &&& 0 <= dot < name.len()
    &&& name[dot] == '.'
    &&& forall|later: int| dot < later < name.len() ==> name[later] != '.'
}

/// The last `.` of `name` stands at `dot`, and something stands before it.
pub open spec fn splits_at(name: Seq<char>, dot: int) -> bool {
    0 < dot && is_last_dot(name, dot)
}

/// The extension of a file name: what follows its last `.`. A name without a
/// `.`, or whose only `.` is its first character, has none.
pub open spec fn extension_of(name: Seq<char>) -> Option<Seq<char>> {
    if exists|dot: int| splits_at(name, dot) {
        Some(name.skip((choose|dot: int| splits_at(name, dot)) + 1))
    } else {
        None
    }
}

/// Finds the extension of a file name.
pub fn file_extension(name: &str) -> (extension: Option<&str>)
    ensures
        match extension {
            Some(found) => extension_of(name@) == Some(found@),
            None => extension_of(name@) is None,
        },
{
    let length = name.unicode_len();
    let mut last: Option<usize> = None;
    let mut at: usize = 0;
    for c in it: name.chars()
        invariant
            at == it.index(),
            it.seq() == name@,
            name@.len() == length,
            match last {
                Some(dot) => dot < at && name@[dot as int] == '.' && forall|later: int|
                    dot < later < at ==> name@[later] != '.',
                None => forall|seen: int| 0 <= seen < at ==> name@[seen] != '.',
            },
    {
        if c == '.' {
            last = Some(at);
        }
        at += 1;
    }
    match last {
        Some(dot) => {
            if dot == 0 {
                None
            } else {
                assert(splits_at(name@, dot as int));
                Some(name.substring_char(dot + 1, length))
            }
        },
        None => None,
    }
}

} // verus!
