//! The link count of a text.

use vstd::prelude::*;
use crate::text::chars_of;

verus! {

/// Whether the two characters `](` stand at index `i` of `s`.
pub open spec fn is_link_at(s: Seq<char>, i: int) -> bool {
    0 <= i && i + 1 < s.len() && s[i] == ']' && s[i + 1] == '('
}

/// The indices of `s` at which `](` stands.
pub open spec fn link_positions(s: Seq<char>) -> Set<int> {
    Set::new(|i: int| is_link_at(s, i))
}

/// The number of links of `s`: the occurrences of `](`, the seam between the
/// text and the target of an inline link. Nothing else of a link is looked at,
/// so a seam inside a code span counts, and a link by reference does not.
pub open spec fn link_count(s: Seq<char>) -> nat {
    link_positions(s).len()
}

/// A text has finitely many links, fewer than it has characters unless it is
/// empty.
pub proof fn lemma_links_within_text(s: Seq<char>)
    ensures
        link_positions(s).finite(),
        link_count(s) <= s.len(),
        s.len() > 0 ==> link_count(s) < s.len(),
{
    let last = if s.len() > 0 {
        s.len() - 1
    } else {
        0
    };
    vstd::set_lib::lemma_int_range(0, last);
    vstd::set_lib::lemma_len_subset(link_positions(s), vstd::set_lib::set_int_range(0, last));
}

/// The link positions of `s` that lie below `n`.
spec fn link_positions_below(s: Seq<char>, n: int) -> Set<int> {
    Set::new(|i: int| i < n && is_link_at(s, i))
}

/// Counts the links among `chars`.
pub fn count_links_in(chars: &Vec<char>) -> (links: usize)
    ensures
        links == link_count(chars@),
        link_positions(chars@).finite(),
{
    let n = chars.len();
    let mut links: usize = 0;
    let mut i: usize = 0;
    assert(link_positions_below(chars@, 0) =~= Set::empty());
    while i < n
        invariant
            n == chars.len(),
            0 <= i <= n,
            links <= i,
            link_positions_below(chars@, i as int).finite(),
            links == link_positions_below(chars@, i as int).len(),
        decreases n - i,
    {
        let ghost found = link_positions_below(chars@, i as int);
        if chars[i] == ']' && i + 1 < n && chars[i + 1] == '(' {
            assert(link_positions_below(chars@, i + 1) =~= found.insert(i as int));
            links = links + 1;
        } else {
            assert(link_positions_below(chars@, i + 1) =~= found);
        }
        i = i + 1;
    }
    assert(link_positions_below(chars@, n as int) =~= link_positions(chars@));
    links
}

/// Counts the links of `content`.
pub fn count_links(content: &str) -> (links: usize)
    ensures
        links == link_count(content@),
        link_positions(content@).finite(),
{
    let chars = chars_of(content);
    count_links_in(&chars)
}

} // verus!
