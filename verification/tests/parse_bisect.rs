use git_spawn::parse::bisect::{BisectStatus, parse_bisect};

#[test]
fn started_when_no_markers_present() {
    let result = parse_bisect("");
    assert_eq!(result.status, BisectStatus::Started);
    assert!(result.current_commit.is_none());
    assert!(result.bad_commit.is_none());
}

#[test]
fn stepping_extracts_current_commit() {
    let output = "Bisecting: 2 revisions left to test after this (roughly 2 steps)\n[3050fc6d1234567890abcdef1234567890abcdef] c3\n";
    let result = parse_bisect(output);
    assert_eq!(result.status, BisectStatus::Stepping);
    assert_eq!(
        result.current_commit.as_deref(),
        Some("3050fc6d1234567890abcdef1234567890abcdef")
    );
    assert!(result.bad_commit.is_none());
}

#[test]
fn found_extracts_bad_commit() {
    let output = "3050fc6d1234567890abcdef1234567890abcdef is the first bad commit\ncommit 3050fc6d1234567890abcdef1234567890abcdef\n";
    let result = parse_bisect(output);
    assert_eq!(result.status, BisectStatus::Found);
    assert_eq!(
        result.bad_commit.as_deref(),
        Some("3050fc6d1234567890abcdef1234567890abcdef")
    );
    assert!(result.current_commit.is_none());
}

#[test]
fn done_on_reset_output() {
    let output = "Previous HEAD position was 3050fc6 c3\nSwitched to branch 'main'\n";
    let result = parse_bisect(output);
    assert_eq!(result.status, BisectStatus::Done);
}

#[test]
fn done_on_head_is_now_at() {
    let output = "HEAD is now at 3050fc6 c3\n";
    let result = parse_bisect(output);
    assert_eq!(result.status, BisectStatus::Done);
}

#[test]
fn raw_is_preserved() {
    let output = "some unrelated output";
    let result = parse_bisect(output);
    assert_eq!(result.status, BisectStatus::Started);
    assert_eq!(result.raw, output);
}
