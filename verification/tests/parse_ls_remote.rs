use git_spawn::parse::ls_remote::{parse_ls_remote, parse_ls_remote_symrefs};

#[test]
fn parses_a_branch_and_a_tag() {
    let entries = parse_ls_remote("abc123\trefs/heads/main\ndef456\trefs/tags/v1.0\n");
    assert_eq!(entries.len(), 2);
    assert_eq!(entries[0].sha, "abc123");
    assert_eq!(entries[0].name, "refs/heads/main");
    assert!(!entries[0].peeled);
    assert_eq!(entries[1].name, "refs/tags/v1.0");
}

#[test]
fn strips_the_peeled_suffix_and_flags_it() {
    let entries = parse_ls_remote("def456\trefs/tags/v1.0\n0f0f0f\trefs/tags/v1.0^{}\n");
    assert_eq!(entries[0].name, entries[1].name);
    assert!(!entries[0].peeled);
    assert!(entries[1].peeled);
    assert_eq!(entries[1].sha, "0f0f0f");
}

#[test]
fn head_is_an_ordinary_entry() {
    let entries = parse_ls_remote("abc123\tHEAD\n");
    assert_eq!(entries[0].name, "HEAD");
}

#[test]
fn symref_lines_are_not_entries() {
    let entries = parse_ls_remote("ref: refs/heads/main\tHEAD\nabc123\tHEAD\n");
    assert_eq!(entries.len(), 1);
    assert_eq!(entries[0].sha, "abc123");
}

#[test]
fn ls_remote_empty_input_yields_no_entries() {
    assert!(parse_ls_remote("").is_empty());
    assert!(parse_ls_remote("\n\n").is_empty());
}

#[test]
fn tabless_lines_are_dropped() {
    assert!(parse_ls_remote("From /some/remote\n").is_empty());
}

#[test]
fn symrefs_are_read_back_as_name_target_pairs() {
    let input = "ref: refs/heads/main\tHEAD\nabc123\tHEAD\nabc123\trefs/heads/main\n";
    assert_eq!(
        parse_ls_remote_symrefs(input),
        vec![("HEAD".to_string(), "refs/heads/main".to_string())]
    );
}

#[test]
fn symrefs_are_empty_when_the_flag_was_not_used() {
    assert!(parse_ls_remote_symrefs("abc123\trefs/heads/main\n").is_empty());
}
