//! The word count of a text.

use vstd::prelude::*;
use crate::classify::{alphabetic, white_space};
use crate::text::{chars_of, lemma_pieces_around_separator, lemma_pieces_hold_text, pieces};

verus! {

/// The separator of tokens: any whitespace character.
pub open spec fn token_separator() -> spec_fn(char) -> bool {
    |c: char| white_space(c)
}

/// The runs of non-whitespace characters of `s`, empty runs included.
pub open spec fn tokens(s: Seq<char>) -> Seq<Seq<char>> {
    pieces(s, token_separator())
}

/// Whether some character of `token` is alphabetic.
pub open spec fn has_alphabetic(token: Seq<char>) -> bool {
    exists|i: int| 0 <= i < token.len() && alphabetic(#[trigger] token[i])
}

/// What makes a token a word: it holds an alphabetic character.
pub open spec fn is_word() -> spec_fn(Seq<char>) -> bool {
    |token: Seq<char>| has_alphabetic(token)
}

/// The number of words of `s`: its whitespace-separated tokens that hold at
/// least one alphabetic character. Punctuation does not split a token, so
/// `co-op` is one word, and a token of digits and signs alone, such as `42` or
/// `--`, is none.
pub open spec fn word_count(s: Seq<char>) -> nat {
    tokens(s).filter(is_word()).len()
}

/// The words of two texts joined by a whitespace character are those of the
/// one and those of the other.
pub proof fn lemma_words_add_up(before: Seq<char>, space: char, after: Seq<char>)
    requires
        white_space(space),
    ensures
        word_count(before.push(space) + after) == word_count(before) + word_count(after),
{
    lemma_pieces_around_separator(before, space, after, token_separator());
    Seq::filter_distributes_over_add(tokens(before), tokens(after), is_word());
}

/// Among tokens without an alphabetic character there is no word.
proof fn lemma_no_word_among(tokens: Seq<Seq<char>>)
    requires
        forall|k: int| 0 <= k < tokens.len() ==> !has_alphabetic(#[trigger] tokens[k]),
    ensures
        tokens.filter(is_word()).len() == 0,
    decreases tokens.len(),
{
    reveal_with_fuel(Seq::filter, 1);
    if tokens.len() > 0 {
        lemma_no_word_among(tokens.drop_last());
    }
}

/// A text without an alphabetic character has no words.
pub proof fn lemma_no_letter_no_word(s: Seq<char>)
    requires
        forall|i: int| 0 <= i < s.len() ==> !alphabetic(#[trigger] s[i]),
    ensures
        word_count(s) == 0,
{
    let all = tokens(s);
    assert forall|k: int| 0 <= k < all.len() implies !has_alphabetic(#[trigger] all[k]) by {
        if has_alphabetic(all[k]) {
            let j = choose|j: int| 0 <= j < all[k].len() && alphabetic(#[trigger] all[k][j]);
            lemma_pieces_hold_text(s, token_separator(), k, j);
        }
    }
    lemma_no_word_among(all);
}

/// Counts the words among `chars`.
pub fn count_words_in(chars: &Vec<char>) -> (words: usize)
    ensures
        words == word_count(chars@),
{
    let mut words: usize = 0;
    let mut in_word: bool = false;
    let mut i: usize = 0;
    proof {
        reveal_with_fuel(Seq::filter, 1);
    }
    while i < chars.len()
        invariant
            0 <= i <= chars.len(),
            tokens(chars@.take(i as int)).len() >= 1,
            words + (if in_word { 1int } else { 0int }) <= i,
            words == tokens(chars@.take(i as int)).drop_last().filter(is_word()).len(),
            in_word == has_alphabetic(tokens(chars@.take(i as int)).last()),
        decreases chars.len() - i,
    {
        let c = chars[i];
        let ghost before = tokens(chars@.take(i as int));
        let ghost after = tokens(chars@.take(i + 1));
        proof {
            assert(chars@.take(i + 1).drop_last() =~= chars@.take(i as int));
        }
        if c.is_whitespace() {
            proof {
                assert(after.drop_last() =~= before);
                assert(before =~= before.drop_last().push(before.last()));
                before.drop_last().lemma_filter_len_push(is_word(), before.last());
            }
            if in_word {
                words = words + 1;
            }
            in_word = false;
        } else {
            proof {
                assert(after.drop_last() =~= before.drop_last());
                let old_last = before.last();
                let new_last = after.last();
                if has_alphabetic(old_last) {
                    let k = choose|k: int|
                        0 <= k < old_last.len() && alphabetic(#[trigger] old_last[k]);
                    assert(new_last[k] == old_last[k]);
                }
                if alphabetic(c) {
                    assert(new_last[old_last.len() as int] == c);
                }
                if has_alphabetic(new_last) {
                    let k = choose|k: int|
                        0 <= k < new_last.len() && alphabetic(#[trigger] new_last[k]);
                    if k < old_last.len() {
                        assert(old_last[k] == new_last[k]);
                    }
                }
            }
            if c.is_alphabetic() {
                in_word = true;
            }
        }
        i = i + 1;
    }
    proof {
        assert(chars@.take(i as int) =~= chars@);
        let all = tokens(chars@);
        all.drop_last().lemma_filter_len_push(is_word(), all.last());
    }
    if in_word {
        words = words + 1;
    }
    words
}

/// Counts the words of `content`.
pub fn count_words(content: &str) -> (words: usize)
    ensures
        words == word_count(content@),
{
    let chars = chars_of(content);
    count_words_in(&chars)
}

} // verus!
