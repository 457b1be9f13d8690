use markdown_stats::headings::count_headings;
use markdown_stats::readability::{count_sentences, readability_tenths};
use markdown_stats::sample::generate_markdown_content;
use markdown_stats::words::count_words;

fn corpus() -> Vec<String> {
    let mut texts: Vec<String> = [
        "",
        " ",
        "\n",
        "\r\n",
        "#",
        "# Title\n\nBody text.\n",
        "# Title\r\n\r\n## Second\r\nBody\r\n",
        "  \t# indented\n\u{a0}# after a no-break space\n\u{2003}## after an em space",
        "no heading # here\n#heading\n\n\n#\n # \n",
        "it's a co-op; isn't it? 42 -- 3.14 x2",
        "tabs\tand\u{b}vertical\u{c}feeds\u{85}next\u{2028}line\u{2029}paragraph",
        "zero\u{200b}width and\u{feff}marks",
        "Ünïcödé wörds, 日本語 の テキスト, עברית, العربية ١٢٣",
        "emoji 😀 only 😀😀 tokens",
        "trailing newline\n",
        "\n\nleading newlines",
        "a\rb\rc",
        "#\r",
        "\r#",
        "\u{1680}#ogham space",
        "\u{180e}#mongolian vowel separator",
    ]
    .iter()
    .map(|text| String::from(*text))
    .collect();
    texts.push(generate_markdown_content(12));
    texts.push("word ".repeat(1000));
    texts
}

#[test]
fn words_agree_with_splitting_by_the_standard_library() {
    for text in corpus() {
        let expected = text
            .split_whitespace()
            .filter(|token| token.chars().any(|c| c.is_alphabetic()))
            .count();
        assert_eq!(count_words(&text), expected, "{text:?}");
    }
}

#[test]
fn headings_agree_with_lines_of_the_standard_library() {
    for text in corpus() {
        let expected = text.lines().filter(|line| line.trim_start().starts_with('#')).count();
        assert_eq!(count_headings(&text), expected, "{text:?}");
    }
}

#[test]
fn sentences_agree_with_matching_by_the_standard_library() {
    for text in corpus() {
        let expected = text.matches(|c| c == '.' || c == '!' || c == '?').count().max(1);
        assert_eq!(count_sentences(&text), expected, "{text:?}");
    }
}

#[test]
fn readability_agrees_with_the_formula_in_floating_point() {
    for words in 1..1500usize {
        for sentences in 1..80usize {
            let syllables = words as f64 * 1.3;
            let ease = 206.835
                - 1.015 * (words as f64 / sentences as f64)
                - 84.6 * (syllables / words as f64);
            let scaled = ease.max(0.0).min(100.0) * 10.0;
            // halfway between two tenths floating point may fall to either side
            if (scaled - scaled.floor() - 0.5).abs() < 1e-6 {
                continue;
            }
            assert_eq!(
                f64::from(readability_tenths(words, sentences)),
                scaled.round(),
                "{words} words in {sentences} sentences"
            );
        }
    }
}

#[test]
fn readability_without_words_is_zero_as_in_floating_point() {
    let ease: f64 = 206.835 - 1.015 * (0.0 / 1.0) - 84.6 * (0.0 / 0.0);
    assert!(ease.is_nan());
    assert_eq!(ease.max(0.0).min(100.0), 0.0);
    assert_eq!(readability_tenths(0, 1), 0);
}
