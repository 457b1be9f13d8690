use markdown_stats::sample::generate_markdown_content;
use markdown_stats::stats::analyze_markdown_file;

fn expected_document(index: usize) -> String {
    let mut body = String::new();
    for i in 0..50 {
        body.push_str(&format!("Paragraph {} with some content. ", i));
        if i % 10 == 0 {
            body.push_str("[Click here](https://example.com) ");
        }
        if i % 7 == 0 {
            body.push_str("## Subheading\n");
        }
    }
    format!("# File {}\n\n{}", index, body)
}

#[test]
fn sample_document_has_the_expected_text() {
    for index in [0usize, 1, 9, 10, 42, 100, 9999, usize::MAX] {
        assert_eq!(generate_markdown_content(index), expected_document(index));
    }
}

#[test]
fn sample_document_begins_with_its_title() {
    let document = generate_markdown_content(7);
    assert!(document.starts_with(
        "# File 7\n\nParagraph 0 with some content. [Click here](https://example.com) ## Subheading\nParagraph 1 with some content. Paragraph 2 "
    ));
    assert!(document.ends_with("Paragraph 49 with some content. ## Subheading\n"));
}

#[test]
fn sample_document_analysed() {
    let document = generate_markdown_content(3);
    let stats = analyze_markdown_file("file_0003.md", Some(&document)).unwrap();
    assert_eq!(stats.file, "file_0003.md");
    // the title, four words in each paragraph, two in each of five links and
    // one in each of eight subheadings
    assert_eq!(stats.words, 1 + 50 * 4 + 5 * 2 + 8);
    // the subheadings stand at the end of a line, not at its start
    assert_eq!(stats.headings, 1);
    assert_eq!(stats.links, 5);
    assert_eq!(stats.reading_time_min, 2);
    // 55 full stops: 96.855 - 1.015 * 219 / 55 = 92.8135
    assert_eq!(stats.readability_tenths, 928);
}
