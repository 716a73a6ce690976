use git_spawn::parse::blame::{parse_blame};

const SHA: &str = "1a2b3c4d5e6f7a8b9c0d1e2f3a4b5c6d7e8f9a0b";
const OTHER: &str = "0b9a8f7e6d5c4b3a2f1e0d9c8b7a6f5e4d3c2b1a";

fn group(sha: &str, original: u32, final_line: u32, count: u32, name: &str) -> String {
    format!(
        "{sha} {original} {final_line} {count}\n\
             author {name}\n\
             author-mail <{name}@example.com>\n\
             author-time 1700000000\n\
             author-tz +0000\n\
             committer {name}\n\
             summary a change\n\
             filename hello.txt\n"
    )
}

#[test]
fn parses_a_single_group() {
    let input = format!("{}\tthe line\n", group(SHA, 1, 1, 1, "Ann"));
    let entries = parse_blame(&input);
    assert_eq!(entries.len(), 1);
    assert_eq!(entries[0].sha, SHA);
    assert_eq!(entries[0].original_line, 1);
    assert_eq!(entries[0].final_line, 1);
    assert_eq!(entries[0].line_count, Some(1));
    assert_eq!(entries[0].author.as_deref(), Some("Ann"));
    assert_eq!(entries[0].author_mail.as_deref(), Some("Ann@example.com"));
    assert_eq!(entries[0].author_time, Some(1_700_000_000));
    assert_eq!(entries[0].summary.as_deref(), Some("a change"));
    assert_eq!(entries[0].filename.as_deref(), Some("hello.txt"));
    assert_eq!(entries[0].content.as_deref(), Some("the line"));
    assert!(!entries[0].boundary);
}

#[test]
fn continuation_lines_inherit_the_commit_metadata() {
    let input = format!(
        "{}\tfirst\n{SHA} 2 2\n\tsecond\n",
        group(SHA, 1, 1, 2, "Ann")
    );
    let entries = parse_blame(&input);
    assert_eq!(entries.len(), 2);
    assert_eq!(entries[1].line_count, None);
    assert_eq!(entries[1].author.as_deref(), Some("Ann"));
    assert_eq!(entries[1].filename.as_deref(), Some("hello.txt"));
    assert_eq!(entries[1].content.as_deref(), Some("second"));
}

#[test]
fn a_repeated_commit_inherits_metadata_it_no_longer_repeats() {
    let input = format!(
        "{}\tfirst\n{}\tsecond\n{SHA} 2 3 1\nfilename hello.txt\n\tthird\n",
        group(SHA, 1, 1, 1, "Ann"),
        group(OTHER, 1, 2, 1, "Bob"),
    );
    let entries = parse_blame(&input);
    assert_eq!(entries.len(), 3);
    assert_eq!(entries[1].author.as_deref(), Some("Bob"));
    assert_eq!(entries[2].sha, SHA);
    assert_eq!(entries[2].author.as_deref(), Some("Ann"));
    assert_eq!(entries[2].summary.as_deref(), Some("a change"));
    assert_eq!(entries[2].content.as_deref(), Some("third"));
}

#[test]
fn boundary_commits_are_flagged() {
    let input = format!("{SHA} 1 1 1\nauthor Ann\nboundary\nfilename hello.txt\n\tthe line\n");
    let entries = parse_blame(&input);
    assert!(entries[0].boundary);
}

#[test]
fn tabs_in_content_are_preserved() {
    let input = format!("{}\tif x:\tdo()\n", group(SHA, 1, 1, 1, "Ann"));
    let entries = parse_blame(&input);
    assert_eq!(entries[0].content.as_deref(), Some("if x:\tdo()"));
}

#[test]
fn blame_empty_input_yields_no_entries() {
    assert!(parse_blame("").is_empty());
}

#[test]
fn non_header_leading_lines_are_ignored() {
    let input = format!("not a header\n{}\tthe line\n", group(SHA, 1, 1, 1, "Ann"));
    let entries = parse_blame(&input);
    assert_eq!(entries.len(), 1);
    assert_eq!(entries[0].content.as_deref(), Some("the line"));
}
