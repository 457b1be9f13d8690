//! Sentences, reading time and the readability score.

use vstd::prelude::*;
use crate::text::chars_of;

verus! {

/// Whether `c` ends a sentence: a full stop, an exclamation mark or a question mark.
pub open spec fn is_sentence_end(c: char) -> bool {
    c == '.' || c == '!' || c == '?'
}

/// What ends a sentence, as a predicate on characters.
pub open spec fn ends_sentence() -> spec_fn(char) -> bool {
    |c: char| is_sentence_end(c)
}

/// The number of sentences of `s`: its sentence-ending characters, and one
/// sentence where there is none.
pub open spec fn sentence_count(s: Seq<char>) -> nat {
    let ends = s.filter(ends_sentence()).len();
    if ends == 0 {
        1
    } else {
        ends
    }
}

/// Counts the sentences among `chars`.
pub fn count_sentences_in(chars: &Vec<char>) -> (sentences: usize)
    ensures
        sentences == sentence_count(chars@),
        sentences >= 1,
{
    let n = chars.len();
    let mut ends: usize = 0;
    let mut i: usize = 0;
    proof {
        reveal_with_fuel(Seq::filter, 1);
    }
    while i < n
        invariant
            n == chars.len(),
            0 <= i <= n,
            ends <= i,
            ends == chars@.take(i as int).filter(ends_sentence()).len(),
        decreases n - i,
    {
        let c = chars[i];
        proof {
            assert(chars@.take(i + 1) =~= chars@.take(i as int).push(c));
            chars@.take(i as int).lemma_filter_len_push(ends_sentence(), c);
        }
        if c == '.' || c == '!' || c == '?' {
            ends = ends + 1;
        }
        i = i + 1;
    }
    assert(chars@.take(n as int) =~= chars@);
    if ends == 0 {
        1
    } else {
        ends
    }
}

/// Counts the sentences of `content`.
pub fn count_sentences(content: &str) -> (sentences: usize)
    ensures
        sentences == sentence_count(content@),
        sentences >= 1,
{
    let chars = chars_of(content);
    count_sentences_in(&chars)
}

/// Words read per minute.
pub const WORDS_PER_MINUTE: usize = 200;

/// The minutes it takes to read `words` words at [`WORDS_PER_MINUTE`], any
/// started minute counted in full: the least `m` with `words <= 200 * m`. An
/// empty text takes no time.
pub open spec fn reading_time(words: nat) -> nat {
    ((words + 199) / 200) as nat
}

/// [`reading_time`] is the ceiling of `words / 200`: that many minutes cover the
/// words, and `m` minutes cover them only if `m` is at least as many.
pub proof fn lemma_reading_time_is_ceiling(words: nat, m: nat)
    ensures
        words <= 200 * reading_time(words),
        words <= 200 * m <==> reading_time(words) <= m,
{
}

/// The reading time of a text of `words` words, in minutes.
pub fn reading_time_minutes(words: usize) -> (minutes: usize)
    ensures
        minutes == reading_time(words as nat),
        200 * (minutes - 1) < words <= 200 * minutes,
{
    let full = words / WORDS_PER_MINUTE;
    if words % WORDS_PER_MINUTE == 0 {
        full
    } else {
        full + 1
    }
}

/// The Flesch reading ease of a text of `words` words in `sentences` sentences,
/// `206.835 - 1.015 * (words / sentences) - 84.6 * (syllables / words)` with a
/// flat 1.3 syllables to the word, multiplied by `1000 * sentences` so that it
/// is a whole number.
pub open spec fn scaled_ease(words: nat, sentences: nat) -> int {
    (206_835 - 84_600 * 13 / 10) * sentences - 1_015 * words
}

/// The tenth nearest to `numerator / (1000 * sentences)`, as a count of tenths;
/// a value halfway between two tenths goes to the upper one.
pub open spec fn nearest_tenth(numerator: int, sentences: nat) -> int {
    (numerator + 50 * sentences) / (100 * sentences as int)
}

/// The readability score of a text of `words` words in `sentences` sentences,
/// in tenths of a point: the Flesch reading ease held into the range from 0 to
/// 100 points and taken to the nearest tenth. A text without words scores 0,
/// and a text without sentences counts as one sentence.
pub open spec fn readability(words: nat, sentences: nat) -> int {
    let sentences = if sentences == 0 {
        1nat
    } else {
        sentences
    };
    if words == 0 {
        0
    } else {
        let tenths = nearest_tenth(scaled_ease(words, sentences), sentences);
        if tenths < 0 {
            0
        } else if tenths > 1000 {
            1000
        } else {
            tenths
        }
    }
}

/// The score is never below 0 nor above 100 points.
pub proof fn lemma_readability_in_range(words: nat, sentences: nat)
    ensures
        0 <= readability(words, sentences) <= 1000,
{
}

/// Where the reading ease lies within the range, the score is the tenth nearest
/// to it: the two differ by at most half a tenth.
pub proof fn lemma_readability_is_nearest(words: nat, sentences: nat)
    requires
        words > 0,
        sentences > 0,
        0 <= scaled_ease(words, sentences) <= 100_000 * sentences,
    ensures
        -50 * sentences <= scaled_ease(words, sentences) - 100 * sentences * readability(
            words,
            sentences,
        ) < 50 * sentences,
{
    let shifted: int = scaled_ease(words, sentences) + 50 * sentences;
    let unit: int = 100 * sentences as int;
    vstd::arithmetic::div_mod::lemma_fundamental_div_mod(shifted, unit);
    vstd::arithmetic::div_mod::lemma_mod_bound(shifted, unit);
    let q = shifted / unit;
    assert(0 <= q <= 1000) by (nonlinear_arith)
        requires
            unit > 0,
            0 <= shifted - unit / 2 <= 1000 * unit,
            shifted == unit * q + shifted % unit,
            0 <= shifted % unit < unit,
    ;
    assert(unit * q == 100 * sentences * q) by (nonlinear_arith)
        requires
            unit == 100 * sentences,
    ;
}

/// The readability score of a text of `words` words in `sentences` sentences,
/// in tenths of a point.
pub fn readability_tenths(words: usize, sentences: usize) -> (tenths: u32)
    ensures
        tenths == readability(words as nat, sentences as nat),
        0 <= tenths <= 1000,
{
    if words == 0 {
        return 0;
    }
    let sentences: u128 = if sentences == 0 {
        1
    } else {
        sentences as u128
    };
    // In thousandths of a point, times the number of sentences: what a text
    // starts from, 206.835 - 84.6 * 1.3, and what the length of its sentences
    // takes away.
    let gain: u128 = 96_855 * sentences;
    let loss: u128 = 1_015 * (words as u128);
    let unit: u128 = 100 * sentences;
    if loss >= gain + 50 * sentences {
        proof {
            let shifted: int = scaled_ease(words as nat, sentences as nat) + 50 * sentences;
            assert(shifted / (unit as int) <= 0) by (nonlinear_arith)
                requires
                    shifted <= 0,
                    unit > 0,
            ;
        }
        return 0;
    }
    let shifted: u128 = gain + 50 * sentences - loss;
    let tenths: u128 = shifted / unit;
    proof {
        assert(0 <= shifted / unit <= 969) by (nonlinear_arith)
            requires
                0 < shifted <= 96_905 * sentences,
                unit == 100 * sentences,
                sentences > 0,
        ;
    }
    tenths as u32
}

} // verus!
