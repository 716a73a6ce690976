use git_spawn::parse::submodule::{SubmoduleStatus, parse_submodule_status};

#[test]
fn parses_current_entry_with_describe() {
    let input = " abc123 vendor/lib (heads/main)\n";
    let entries = parse_submodule_status(input);
    assert_eq!(entries.len(), 1);
    assert_eq!(entries[0].sha, "abc123");
    assert_eq!(entries[0].path, "vendor/lib");
    assert_eq!(entries[0].describe.as_deref(), Some("heads/main"));
    assert_eq!(entries[0].status, SubmoduleStatus::Current);
}

#[test]
fn parses_modified_status() {
    let entries = parse_submodule_status("+def456 vendor/other\n");
    assert_eq!(entries[0].status, SubmoduleStatus::Modified);
    assert_eq!(entries[0].sha, "def456");
    assert_eq!(entries[0].path, "vendor/other");
    assert_eq!(entries[0].describe, None);
}

#[test]
fn parses_uninitialized_status() {
    let entries =
        parse_submodule_status("-0000000000000000000000000000000000000000 vendor/nope\n");
    assert_eq!(entries[0].status, SubmoduleStatus::Uninitialized);
}

#[test]
fn parses_conflict_status() {
    let entries = parse_submodule_status("Uabc123 vendor/conflicted\n");
    assert_eq!(entries[0].status, SubmoduleStatus::Conflict);
    assert_eq!(entries[0].sha, "abc123");
    assert_eq!(entries[0].path, "vendor/conflicted");
}

#[test]
fn describe_absent_is_none() {
    let entries = parse_submodule_status(" abc123 vendor/lib\n");
    assert_eq!(entries[0].path, "vendor/lib");
    assert_eq!(entries[0].describe, None);
}

#[test]
fn submodule_empty_input_yields_no_entries() {
    assert!(parse_submodule_status("").is_empty());
}

#[test]
fn submodule_multiple_entries() {
    let input = " abc123 a (v1)\n+def456 b\n-0000000000000000000000000000000000000000 c\n";
    let entries = parse_submodule_status(input);
    assert_eq!(entries.len(), 3);
    assert_eq!(entries[1].path, "b");
    assert_eq!(entries[2].status, SubmoduleStatus::Uninitialized);
}

#[test]
fn malformed_line_falls_back_to_whole_line_as_path() {
    // No SHA/path separation at all.
    let entries = parse_submodule_status("garbage-with-no-fields\n");
    assert_eq!(entries.len(), 1);
    assert_eq!(entries[0].sha, "");
    assert_eq!(entries[0].path, "garbage-with-no-fields");
    assert_eq!(entries[0].status, SubmoduleStatus::Current);
}

#[test]
fn malformed_line_missing_path_falls_back() {
    // Status char and sha, but no path field.
    let entries = parse_submodule_status(" abc123\n");
    assert_eq!(entries[0].sha, "");
    assert_eq!(entries[0].path, "abc123");
    assert_eq!(entries[0].status, SubmoduleStatus::Current);
}
