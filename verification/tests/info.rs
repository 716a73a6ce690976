use git_spawn::info::parse_porcelain_v2;

#[test]
fn parses_clean_repo_with_upstream() {
    let input = "\
# branch.oid abc123
# branch.head main
# branch.upstream origin/main
# branch.ab +0 -0
";
    let info = parse_porcelain_v2(input);
    assert_eq!(info.branch.as_deref(), Some("main"));
    assert_eq!(info.upstream.as_deref(), Some("origin/main"));
    assert_eq!(info.ahead, 0);
    assert_eq!(info.behind, 0);
    assert!(!info.dirty);
}

#[test]
fn parses_dirty_with_ahead_behind() {
    let input = "\
# branch.oid abc123
# branch.head feature
# branch.upstream origin/feature
# branch.ab +3 -1
1 .M N... 100644 100644 100644 aaa bbb hello.txt
? new.txt
";
    let info = parse_porcelain_v2(input);
    assert_eq!(info.branch.as_deref(), Some("feature"));
    assert_eq!(info.ahead, 3);
    assert_eq!(info.behind, 1);
    assert!(info.dirty);
}

#[test]
fn parses_detached_head() {
    let input = "\
# branch.oid abc123
# branch.head (detached)
";
    let info = parse_porcelain_v2(input);
    assert!(info.branch.is_none());
    assert!(info.upstream.is_none());
    assert!(!info.dirty);
}

#[test]
fn parses_no_upstream() {
    let input = "\
# branch.oid abc123
# branch.head main
";
    let info = parse_porcelain_v2(input);
    assert_eq!(info.branch.as_deref(), Some("main"));
    assert!(info.upstream.is_none());
    assert_eq!(info.ahead, 0);
    assert_eq!(info.behind, 0);
}
