//! Character classes that the metrics are stated over.

use vstd::prelude::*;

verus! {

/// Whether `c` carries the Unicode property `White_Space`.
pub uninterp spec fn white_space(c: char) -> bool;

/// Whether `c` carries the Unicode property `Alphabetic`.
pub uninterp spec fn alphabetic(c: char) -> bool;

/// `char::is_whitespace` of the standard library. Its documentation defines the
/// result as membership in the Unicode property `White_Space`; that property is
/// what the name [`white_space`] stands for, and nothing more is claimed.
pub assume_specification[ char::is_whitespace ](c: char) -> (r: bool)
    ensures
        r == white_space(c),
;

/// `char::is_alphabetic` of the standard library. Its documentation defines the
/// result as membership in the Unicode property `Alphabetic`; that property is
/// what the name [`alphabetic`] stands for, and nothing more is claimed.
pub assume_specification[ char::is_alphabetic ](c: char) -> (r: bool)
    ensures
        r == alphabetic(c),
;

} // verus!
