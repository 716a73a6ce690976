use git_spawn::search::{parse_hits};

#[test]
fn parses_single_hit() {
    let input = "src/lib.rs:42:    // TODO: fix this\n";
    let hits = parse_hits(input).unwrap();
    assert_eq!(hits.len(), 1);
    assert_eq!(hits[0].path, "src/lib.rs");
    assert_eq!(hits[0].line, 42);
    assert_eq!(hits[0].text, "    // TODO: fix this");
}

#[test]
fn preserves_colons_in_text() {
    let input = "src/main.rs:7:let url = \"https://example.com\";\n";
    let hits = parse_hits(input).unwrap();
    assert_eq!(hits.len(), 1);
    assert_eq!(hits[0].path, "src/main.rs");
    assert_eq!(hits[0].line, 7);
    assert_eq!(hits[0].text, "let url = \"https://example.com\";");
}

#[test]
fn parses_multiple_hits_in_order() {
    let input = "a.rs:1:one\nb.rs:2:two\nb.rs:5:five\n";
    let hits = parse_hits(input).unwrap();
    let locs: Vec<(&str, u64)> = hits.iter().map(|h| (h.path.as_str(), h.line)).collect();
    assert_eq!(locs, vec![("a.rs", 1), ("b.rs", 2), ("b.rs", 5)]);
}

#[test]
fn search_empty_output_is_empty() {
    assert!(parse_hits("").unwrap().is_empty());
}

#[test]
fn non_numeric_line_errors() {
    assert!(parse_hits("a.rs:xx:text\n").is_err());
}

#[test]
fn line_without_line_number_errors() {
    assert!(parse_hits("a.rs\n").is_err());
}
