use git_spawn::remotes::{parse_remotes};

#[test]
fn parses_single_remote() {
    let input = "origin\thttps://example.com/x.git (fetch)\n\
                     origin\thttps://example.com/x.git (push)\n";
    let remotes = parse_remotes(input).unwrap();
    assert_eq!(remotes.len(), 1);
    assert_eq!(remotes[0].name, "origin");
    assert_eq!(remotes[0].fetch_url, "https://example.com/x.git");
    assert_eq!(remotes[0].push_url, "https://example.com/x.git");
}

#[test]
fn parses_distinct_push_url() {
    let input = "origin\thttps://example.com/x.git (fetch)\n\
                     origin\tgit@example.com:x.git (push)\n";
    let remotes = parse_remotes(input).unwrap();
    assert_eq!(remotes.len(), 1);
    assert_eq!(remotes[0].fetch_url, "https://example.com/x.git");
    assert_eq!(remotes[0].push_url, "git@example.com:x.git");
}

#[test]
fn parses_multiple_remotes_in_order() {
    let input = "origin\thttps://example.com/o.git (fetch)\n\
                     origin\thttps://example.com/o.git (push)\n\
                     upstream\thttps://example.com/u.git (fetch)\n\
                     upstream\thttps://example.com/u.git (push)\n";
    let remotes = parse_remotes(input).unwrap();
    let names: Vec<&str> = remotes.iter().map(|r| r.name.as_str()).collect();
    assert_eq!(names, vec!["origin", "upstream"]);
    assert_eq!(remotes[1].fetch_url, "https://example.com/u.git");
}

#[test]
fn remotes_empty_output_is_empty() {
    assert!(parse_remotes("").unwrap().is_empty());
}

#[test]
fn line_without_tab_errors() {
    assert!(parse_remotes("origin https://example.com/x.git (fetch)\n").is_err());
}
