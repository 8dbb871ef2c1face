//! Small operations on text that the rest of the library shares.

use vstd::prelude::*;
use vstd::string::StrSliceExecFns;

verus! {

/// Whether two texts hold the same characters.
pub fn same_text(a: &str, b: &str) -> (same: bool)
    ensures
        same == (a@ == b@),
{
    let left = a.to_owned();
    let right = b.to_owned();
    left == right
}

/// The position of the first `mark` in `text`, if it occurs.
pub fn find_first(text: &str, mark: char) -> (found: Option<usize>)
    ensures
        match found {
            Some(at) => text@.index_of_first(mark) == Some(at as int),
            None => text@.index_of_first(mark) is None,
        },
{
    let len = text.unicode_len();
    let mut at: usize = 0;
    while at < len
        invariant
            len == text@.len(),
            at <= len,
            forall|i: int| 0 <= i < at ==> text@[i] != mark,
        decreases len - at,
    {
        if text.get_char(at) == mark {
            proof {
                text@.index_of_first_ensures(mark);
                assert(text@.contains(mark));
                let first = text@.index_of_first(mark)->Some_0;
                assert(first <= at) by {
                    if first > at {
                        assert(text@[at as int] != mark);
                    }
                }
            }
            return Some(at);
        }
        at += 1;
    }
    proof {
        text@.index_of_first_ensures(mark);
    }
    None
}

} // verus!
