use git_spawn::parse::status::{StatusKind, parse_full_status, parse_status};

#[test]
fn parses_simple_entries() {
    let input = "MM a.txt\0A  b.txt\0?? c.txt\0";
    let entries = parse_status(input).unwrap();
    assert_eq!(entries.len(), 3);
    assert_eq!(entries[0].path, "a.txt");
    assert_eq!(entries[1].index, StatusKind::Added);
    assert_eq!(entries[1].worktree, StatusKind::Unmodified);
    assert_eq!(entries[2].index, StatusKind::Untracked);
}

#[test]
fn parses_rename_with_original() {
    let input = "R  new.txt\0old.txt\0";
    let entries = parse_status(input).unwrap();
    assert_eq!(entries.len(), 1);
    assert_eq!(entries[0].index, StatusKind::Renamed);
    assert_eq!(entries[0].path, "new.txt");
    assert_eq!(entries[0].original_path.as_deref(), Some("old.txt"));
}

#[test]
fn parses_rename_with_worktree_modification() {
    // Real git emits `RM <new>\0<old>\0` when a staged rename is also
    // modified in the worktree. The original-path field must be consumed
    // so the following entry parses cleanly.
    let input = "RM new.txt\0old.txt\0MM other.txt\0";
    let entries = parse_status(input).unwrap();
    assert_eq!(entries.len(), 2);
    assert_eq!(entries[0].index, StatusKind::Renamed);
    assert_eq!(entries[0].worktree, StatusKind::Modified);
    assert_eq!(entries[0].path, "new.txt");
    assert_eq!(entries[0].original_path.as_deref(), Some("old.txt"));
    assert_eq!(entries[1].path, "other.txt");
    assert_eq!(entries[1].original_path, None);
}

#[test]
fn parses_copy_with_original() {
    let input = "C  copy.txt\0src.txt\0";
    let entries = parse_status(input).unwrap();
    assert_eq!(entries.len(), 1);
    assert_eq!(entries[0].index, StatusKind::Copied);
    assert_eq!(entries[0].path, "copy.txt");
    assert_eq!(entries[0].original_path.as_deref(), Some("src.txt"));
}

#[test]
fn status_empty_input_yields_no_entries() {
    assert!(parse_status("").unwrap().is_empty());
}

#[test]
fn malformed_missing_space_errors() {
    let input = "MMa.txt\0";
    assert!(parse_status(input).is_err());
}

#[test]
fn full_status_no_upstream() {
    let input = "## main\0 M a.txt\0";
    let status = parse_full_status(input).unwrap();
    assert_eq!(status.branch.as_deref(), Some("main"));
    assert_eq!(status.tracking, None);
    assert_eq!(status.ahead, 0);
    assert_eq!(status.behind, 0);
    assert_eq!(status.entries.len(), 1);
}

#[test]
fn full_status_upstream_only() {
    let input = "## main...origin/main\0";
    let status = parse_full_status(input).unwrap();
    assert_eq!(status.branch.as_deref(), Some("main"));
    assert_eq!(status.tracking.as_deref(), Some("origin/main"));
    assert_eq!(status.ahead, 0);
    assert_eq!(status.behind, 0);
    assert!(status.entries.is_empty());
}

#[test]
fn full_status_ahead_only() {
    let input = "## main...origin/main [ahead 3]\0";
    let status = parse_full_status(input).unwrap();
    assert_eq!(status.tracking.as_deref(), Some("origin/main"));
    assert_eq!(status.ahead, 3);
    assert_eq!(status.behind, 0);
}

#[test]
fn full_status_behind_only() {
    let input = "## main...origin/main [behind 5]\0";
    let status = parse_full_status(input).unwrap();
    assert_eq!(status.ahead, 0);
    assert_eq!(status.behind, 5);
}

#[test]
fn full_status_ahead_and_behind() {
    let input = "## main...origin/main [ahead 1, behind 2]\0 M a.txt\0?? b.txt\0";
    let status = parse_full_status(input).unwrap();
    assert_eq!(status.branch.as_deref(), Some("main"));
    assert_eq!(status.tracking.as_deref(), Some("origin/main"));
    assert_eq!(status.ahead, 1);
    assert_eq!(status.behind, 2);
    assert_eq!(status.entries.len(), 2);
}

#[test]
fn full_status_no_commits_yet() {
    let input = "## No commits yet on main\0?? a.txt\0";
    let status = parse_full_status(input).unwrap();
    assert_eq!(status.branch.as_deref(), Some("main"));
    assert_eq!(status.tracking, None);
    assert_eq!(status.ahead, 0);
    assert_eq!(status.behind, 0);
    assert_eq!(status.entries.len(), 1);
}

#[test]
fn full_status_detached_head() {
    let input = "## HEAD (no branch)\0 M a.txt\0";
    let status = parse_full_status(input).unwrap();
    assert_eq!(status.branch, None);
    assert_eq!(status.tracking, None);
    assert_eq!(status.ahead, 0);
    assert_eq!(status.behind, 0);
    assert_eq!(status.entries.len(), 1);
}

#[test]
fn full_status_no_header_still_parses_entries() {
    let input = " M a.txt\0";
    let status = parse_full_status(input).unwrap();
    assert_eq!(status.branch, None);
    assert_eq!(status.entries.len(), 1);
}
