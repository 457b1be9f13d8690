use markdown_stats::discovery::is_markdown_file;

#[test]
fn files_with_the_extension_are_accepted() {
    assert!(is_markdown_file("notes.md", true));
    assert!(is_markdown_file("a.md", true));
    assert!(is_markdown_file("archive.tar.md", true));
    assert!(is_markdown_file("..md", true));
    assert!(is_markdown_file("name with spaces.md", true));
    assert!(is_markdown_file("ünï.md", true));
}

#[test]
fn other_names_are_refused() {
    assert!(!is_markdown_file("", true));
    assert!(!is_markdown_file("md", true));
    assert!(!is_markdown_file(".md", true));
    assert!(!is_markdown_file("notes", true));
    assert!(!is_markdown_file("notes.txt", true));
    assert!(!is_markdown_file("notes.MD", true));
    assert!(!is_markdown_file("notes.Md", true));
    assert!(!is_markdown_file("notes.md.bak", true));
    assert!(!is_markdown_file("notes.md ", true));
    assert!(!is_markdown_file("notes.mdx", true));
    assert!(!is_markdown_file("notesmd", true));
    assert!(!is_markdown_file("notes.markdown", true));
}

#[test]
fn what_is_no_regular_file_is_refused() {
    assert!(!is_markdown_file("notes.md", false));
    assert!(!is_markdown_file("folder.md", false));
    assert!(!is_markdown_file("folder", false));
}

#[test]
fn the_extension_rule_agrees_with_the_standard_library() {
    let names = [
        "", ".", "a", ".md", "a.md", "a.b.md", "a.md.b", "md", "a.MD", "..md", "a..md", "a.m", "a.mdd",
        "README.md", ".hidden.md", "x.md.md",
    ];
    for name in names {
        let expected = std::path::Path::new(name).extension().map(|e| e == "md").unwrap_or(false);
        assert_eq!(is_markdown_file(name, true), expected, "{name}");
    }
}

#[test]
fn a_tree_without_documents_gives_no_candidates() {
    let entries = [("src", false), ("main.rs", true), ("docs.md", false), ("notes.txt", true)];
    let candidates: Vec<&str> = entries
        .iter()
        .filter(|(name, is_file)| is_markdown_file(name, *is_file))
        .map(|(name, _)| *name)
        .collect();
    assert!(candidates.is_empty());
}
