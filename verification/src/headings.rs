//! The heading count of a text.

use vstd::prelude::*;
use crate::classify::white_space;
use crate::text::{chars_of, lemma_pieces_around_separator, pieces};

verus! {

/// The separator of lines: the line feed.
pub open spec fn line_separator() -> spec_fn(char) -> bool {
    |c: char| c == '\n'
}

/// The lines of `s`: the runs between line feeds, empty runs included.
pub open spec fn lines(s: Seq<char>) -> Seq<Seq<char>> {
    pieces(s, line_separator())
}

/// Whether every character of `run` is whitespace.
pub open spec fn is_blank(run: Seq<char>) -> bool {
    forall|j: int| 0 <= j < run.len() ==> white_space(#[trigger] run[j])
}

/// Whether the first character of `line` that is not whitespace is a `#`.
pub open spec fn is_heading_line(line: Seq<char>) -> bool {
    exists|k: int|
        0 <= k < line.len() && #[trigger] line[k] == '#' && !white_space(line[k]) && is_blank(
            line.take(k),
        )
}

/// What makes a line a heading, as a predicate on lines.
pub open spec fn is_heading() -> spec_fn(Seq<char>) -> bool {
    |line: Seq<char>| is_heading_line(line)
}

/// The number of headings of `s`: its lines whose first character after any
/// leading whitespace is a `#`, whatever follows it.
pub open spec fn heading_count(s: Seq<char>) -> nat {
    lines(s).filter(is_heading()).len()
}

/// The headings of two texts joined by a line feed are those of the one and
/// those of the other.
pub proof fn lemma_headings_add_up(before: Seq<char>, after: Seq<char>)
    ensures
        heading_count(before.push('\n') + after) == heading_count(before) + heading_count(after),
{
    lemma_pieces_around_separator(before, '\n', after, line_separator());
    Seq::filter_distributes_over_add(lines(before), lines(after), is_heading());
}

/// Whether a line is a heading is settled by its first `#`: whatever follows,
/// further `#` or the title, changes nothing.
pub proof fn lemma_heading_whatever_follows(line: Seq<char>, rest: Seq<char>)
    requires
        is_heading_line(line),
    ensures
        is_heading_line(line + rest),
{
    let k = choose|k: int|
        0 <= k < line.len() && #[trigger] line[k] == '#' && !white_space(line[k]) && is_blank(
            line.take(k),
        );
    let longer = line + rest;
    assert(longer[k] == line[k]);
    assert(longer.take(k) =~= line.take(k));
}

/// Appending a character to a line: the line is a heading afterwards exactly if
/// it was one before, or was blank and the character is a `#` that is no
/// whitespace.
proof fn lemma_heading_line_push(line: Seq<char>, c: char)
    ensures
        is_heading_line(line.push(c)) <==> is_heading_line(line) || (is_blank(line) && c == '#'
            && !white_space(c)),
        is_blank(line.push(c)) <==> is_blank(line) && white_space(c),
{
    let longer = line.push(c);
    assert(longer.take(line.len() as int) =~= line);
    assert forall|k: int| 0 <= k < line.len() implies #[trigger] longer.take(k) =~= line.take(
        k,
    ) by {}
    if is_heading_line(line) {
        let k = choose|k: int|
            0 <= k < line.len() && #[trigger] line[k] == '#' && !white_space(line[k]) && is_blank(
                line.take(k),
            );
        assert(longer[k] == line[k]);
    }
    if is_blank(longer) {
        assert forall|j: int| 0 <= j < line.len() implies white_space(#[trigger] line[j]) by {
            assert(longer[j] == line[j]);
        }
        assert(longer[line.len() as int] == c);
    }
}

/// Counts the headings among `chars`.
pub fn count_headings_in(chars: &Vec<char>) -> (headings: usize)
    ensures
        headings == heading_count(chars@),
{
    let mut headings: usize = 0;
    let mut blank_so_far: bool = true;
    let mut in_heading: bool = false;
    let mut i: usize = 0;
    proof {
        reveal_with_fuel(Seq::filter, 1);
    }
    while i < chars.len()
        invariant
            0 <= i <= chars.len(),
            lines(chars@.take(i as int)).len() >= 1,
            headings + (if in_heading { 1int } else { 0int }) <= i,
            headings == lines(chars@.take(i as int)).drop_last().filter(is_heading()).len(),
            in_heading == is_heading_line(lines(chars@.take(i as int)).last()),
            blank_so_far == is_blank(lines(chars@.take(i as int)).last()),
        decreases chars.len() - i,
    {
        let c = chars[i];
        let ghost before = lines(chars@.take(i as int));
        let ghost after = lines(chars@.take(i + 1));
        proof {
            assert(chars@.take(i + 1).drop_last() =~= chars@.take(i as int));
        }
        if c == '\n' {
            proof {
                assert(after.drop_last() =~= before);
                assert(before =~= before.drop_last().push(before.last()));
                before.drop_last().lemma_filter_len_push(is_heading(), before.last());
            }
            if in_heading {
                headings = headings + 1;
            }
            in_heading = false;
            blank_so_far = true;
        } else {
            proof {
                assert(after.drop_last() =~= before.drop_last());
                lemma_heading_line_push(before.last(), c);
            }
            let space = c.is_whitespace();
            if blank_so_far && c == '#' && !space {
                in_heading = true;
            }
            blank_so_far = blank_so_far && space;
        }
        i = i + 1;
    }
    proof {
        assert(chars@.take(i as int) =~= chars@);
        let all = lines(chars@);
        all.drop_last().lemma_filter_len_push(is_heading(), all.last());
    }
    if in_heading {
        headings = headings + 1;
    }
    headings
}

/// Counts the headings of `content`.
pub fn count_headings(content: &str) -> (headings: usize)
    ensures
        headings == heading_count(content@),
{
    let chars = chars_of(content);
    count_headings_in(&chars)
}

} // verus!
