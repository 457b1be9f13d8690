use markdown_stats::stats::{analyze_markdown_file, FileStats};

fn analyze(content: &str) -> FileStats {
    analyze_markdown_file("notes.md", Some(content)).unwrap()
}

#[test]
fn test_word_count() {
    let content = "Hello world! This is a test.";
    let stats = analyze_markdown_file("notes.md", Some(content)).unwrap();
    assert_eq!(stats.words, 6);
}

#[test]
fn test_heading_count() {
    let content = "# Heading 1\nText\n## Heading 2\nMore text";
    let stats = analyze_markdown_file("notes.md", Some(content)).unwrap();
    assert_eq!(stats.headings, 2);
}

#[test]
fn test_link_count() {
    let content = "This is a [link](https://example.com).";
    let stats = analyze_markdown_file("notes.md", Some(content)).unwrap();
    assert_eq!(stats.links, 1);
}

#[test]
fn test_reading_time_estimate() {
    let content = "word ".repeat(400);
    let stats = analyze_markdown_file("notes.md", Some(&content)).unwrap();
    assert_eq!(stats.reading_time_min, 2);
}

#[test]
fn test_readability_score_bounds() {
    let content = "This is a test. It is only a test. This text is simple.";
    let stats = analyze_markdown_file("notes.md", Some(content)).unwrap();
    let readability_score = f64::from(stats.readability_tenths) / 10.0;
    assert!(readability_score >= 0.0 && readability_score <= 100.0);
}

#[test]
fn analysis_fills_every_field() {
    let content = "# Title\n\nSome text with a [link](https://example.com). Is it short? Yes!\n";
    let stats = analyze_markdown_file("docs/intro.md", Some(content)).unwrap();
    assert_eq!(
        stats,
        FileStats {
            file: String::from("docs/intro.md"),
            words: 10,
            headings: 1,
            links: 1,
            reading_time_min: 1,
            // four sentence ends: 96.855 - 1.015 * 10 / 4 = 94.3175
            readability_tenths: 943,
        }
    );
}

#[test]
fn analysis_keeps_the_path_as_given() {
    let stats = analyze_markdown_file("./a b/ünï.md", Some("x")).unwrap();
    assert_eq!(stats.file, "./a b/ünï.md");
}

#[test]
fn unreadable_document_gives_no_record() {
    assert_eq!(analyze_markdown_file("gone.md", None), None);
}

#[test]
fn empty_document_is_analysed() {
    let stats = analyze("");
    assert_eq!(
        stats,
        FileStats {
            file: String::from("notes.md"),
            words: 0,
            headings: 0,
            links: 0,
            reading_time_min: 0,
            readability_tenths: 0,
        }
    );
}

#[test]
fn reading_time_follows_the_word_count() {
    for words in [0usize, 1, 199, 200, 201, 400, 401, 1000] {
        let content = "word ".repeat(words);
        let stats = analyze(&content);
        assert_eq!(stats.words, words);
        assert_eq!(stats.reading_time_min, (words + 199) / 200);
    }
}

#[test]
fn score_stays_in_range_for_any_shape_of_text() {
    let long_sentence = "word ".repeat(5000);
    for content in ["", ".", "...", "word", "a. b. c.", long_sentence.as_str(), "?!?!", "\n\n\n"] {
        let stats = analyze(content);
        assert!(stats.readability_tenths <= 1000);
    }
    assert_eq!(analyze(&long_sentence).readability_tenths, 0);
}
