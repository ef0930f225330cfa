//! Small operations on text.

use vstd::prelude::*;
use vstd::string::*;

verus! {

/// The path without the slashes that it starts with.
pub open spec fn without_leading_slashes(path: Seq<char>) -> Seq<char>
    decreases path.len(),
{
    if path.len() > 0 && path[0] == '/' {
        without_leading_slashes(path.drop_first())
    } else {
        path
    }
}

/// Whether the two texts are the same.
pub fn same_text(left: &str, right: &str) -> (same: bool)
    ensures
        same == (left@ == right@),
{
    String::from_str(left) == String::from_str(right)
}

/// The text without the slashes that it starts with.
pub fn trim_leading_slashes(path: &str) -> (trimmed: String)
    ensures
        trimmed@ == without_leading_slashes(path@),
{
    let length = path.unicode_len();
    let mut start: usize = 0;
    proof {
        assert(path@.subrange(0, length as int) == path@);
    }
    while start < length && path.get_char(start) == '/'
        invariant
            start <= length,
            length == path@.len(),
            without_leading_slashes(path@) == without_leading_slashes(
                path@.subrange(start as int, length as int),
            ),
        decreases length - start,
    {
        proof {
            let rest = path@.subrange(start as int, length as int);
            assert(rest[0] == '/');
            assert(rest.drop_first() == path@.subrange(start + 1, length as int));
        }
        start += 1;
    }
    String::from_str(path.substring_char(start, length))
}

} // verus!
