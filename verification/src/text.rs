//! Texts as sequences of characters, and how separators cut them.

use vstd::prelude::*;

verus! {

/// The pieces into which the separators cut `s`: the maximal runs without a
/// separator, in order, an empty run wherever two separators meet and at either
/// end. A text with `k` separators has `k + 1` pieces.
pub open spec fn pieces(s: Seq<char>, is_separator: spec_fn(char) -> bool) -> Seq<Seq<char>>
    decreases s.len(),
{
    if s.len() == 0 {
        seq![Seq::empty()]
    } else {
        let before = pieces(s.drop_last(), is_separator);
        if is_separator(s.last()) {
            before.push(Seq::empty())
        } else {
            before.drop_last().push(before.last().push(s.last()))
        }
    }
}

/// The pieces are one more than the separators.
pub proof fn lemma_pieces_count(s: Seq<char>, is_separator: spec_fn(char) -> bool)
    ensures
        pieces(s, is_separator).len() == s.filter(is_separator).len() + 1,
    decreases s.len(),
{
    reveal_with_fuel(Seq::filter, 1);
    if s.len() > 0 {
        lemma_pieces_count(s.drop_last(), is_separator);
        s.drop_last().lemma_filter_len_push(is_separator, s.last());
    }
}

/// No piece holds a separator.
pub proof fn lemma_pieces_hold_no_separator(
    s: Seq<char>,
    is_separator: spec_fn(char) -> bool,
    i: int,
    j: int,
)
    requires
        0 <= i < pieces(s, is_separator).len(),
        0 <= j < pieces(s, is_separator)[i].len(),
    ensures
        !is_separator(pieces(s, is_separator)[i][j]),
    decreases s.len(),
{
    if s.len() > 0 {
        let before = pieces(s.drop_last(), is_separator);
        lemma_pieces_count(s.drop_last(), is_separator);
        if is_separator(s.last()) {
            if i < before.len() {
                lemma_pieces_hold_no_separator(s.drop_last(), is_separator, i, j);
            }
        } else {
            if i < before.len() - 1 || j < before.last().len() {
                lemma_pieces_hold_no_separator(s.drop_last(), is_separator, i, j);
            }
        }
    }
}

/// Every character of a piece is a character of the text.
pub proof fn lemma_pieces_hold_text(
    s: Seq<char>,
    is_separator: spec_fn(char) -> bool,
    i: int,
    j: int,
)
    requires
        0 <= i < pieces(s, is_separator).len(),
        0 <= j < pieces(s, is_separator)[i].len(),
    ensures
        s.contains(pieces(s, is_separator)[i][j]),
    decreases s.len(),
{
    if s.len() > 0 {
        let before = pieces(s.drop_last(), is_separator);
        lemma_pieces_count(s.drop_last(), is_separator);
        let c = pieces(s, is_separator)[i][j];
        if (is_separator(s.last()) && i < before.len()) || (!is_separator(s.last()) && (i
            < before.len() - 1 || j < before.last().len())) {
            lemma_pieces_hold_text(s.drop_last(), is_separator, i, j);
            let k = choose|k: int| 0 <= k < s.drop_last().len() && s.drop_last()[k] == c;
            assert(s[k] == c);
        } else {
            assert(s[s.len() - 1] == c);
        }
    }
}

/// Cutting a text that holds a separator gives the pieces before that
/// separator, then the pieces after it.
pub proof fn lemma_pieces_around_separator(
    before: Seq<char>,
    separator: char,
    after: Seq<char>,
    is_separator: spec_fn(char) -> bool,
)
    requires
        is_separator(separator),
    ensures
        pieces(before.push(separator) + after, is_separator) == pieces(before, is_separator)
            + pieces(after, is_separator),
    decreases after.len(),
{
    let whole = before.push(separator) + after;
    let left = pieces(before, is_separator);
    if after.len() == 0 {
        assert(whole.drop_last() =~= before);
    } else {
        let shorter = after.drop_last();
        let right = pieces(shorter, is_separator);
        lemma_pieces_around_separator(before, separator, shorter, is_separator);
        lemma_pieces_count(shorter, is_separator);
        assert(whole.drop_last() =~= before.push(separator) + shorter);
        if !is_separator(after.last()) {
            assert((left + right.drop_last()).push(right.last().push(after.last())) =~= left
                + right.drop_last().push(right.last().push(after.last())));
        }
    }
}

/// Collects the characters of `s`, in order.
pub fn chars_of(s: &str) -> (chars: Vec<char>)
    ensures
        chars@ == s@,
{
    broadcast use vstd::string::group_string_axioms;

    let mut chars: Vec<char> = Vec::new();
    let mut it = s.chars();
    let ghost mut taken: int = 0;
    loop
        invariant
            0 <= taken <= s@.len(),
            chars@ == s@.take(taken),
            vstd::std_specs::iter::IteratorSpec::remaining(&it) == s@.skip(taken),
            vstd::std_specs::iter::IteratorSpec::obeys_prophetic_iter_laws(&it),
            vstd::std_specs::iter::IteratorSpec::decrease(&it) is Some,
        decreases vstd::std_specs::iter::IteratorSpec::decrease(&it)->0,
    {
        match it.next() {
            Some(c) => {
                chars.push(c);
                proof {
                    taken = taken + 1;
                }
            },
            None => {
                return chars;
            },
        }
    }
}

} // verus!
