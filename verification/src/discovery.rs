//! Which entries of a directory tree are documents to analyse.

use vstd::prelude::*;
use crate::text::chars_of;

verus! {

/// Whether `name`, the last component of a path, has the extension `md`: it
/// ends in `.md`, and something stands before that dot. Upper and lower case
/// differ, and a name that is nothing but `.md` has no extension.
pub open spec fn has_markdown_extension(name: Seq<char>) -> bool {
    name.len() > 3 && name.skip(name.len() - 3) == seq!['.', 'm', 'd']
}

/// Whether an entry is a document to analyse: a regular file whose name has
/// the extension `md`. `name` is the last component of the entry's path, and
/// `is_file` says whether the entry is a regular file.
pub fn is_markdown_file(name: &str, is_file: bool) -> (accepted: bool)
    ensures
        accepted == (is_file && has_markdown_extension(name@)),
{
    if !is_file {
        return false;
    }
    let chars = chars_of(name);
    let n = chars.len();
    if n < 4 {
        return false;
    }
    let accepted = chars[n - 3] == '.' && chars[n - 2] == 'm' && chars[n - 1] == 'd';
    proof {
        let tail = name@.skip(n - 3);
        if accepted {
            assert(tail =~= seq!['.', 'm', 'd']);
        }
    }
    accepted
}

} // verus!
