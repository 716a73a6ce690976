use git_spawn::parse::cherry::{CherryStatus, parse_cherry};

#[test]
fn parses_both_markers_without_subjects() {
    let entries = parse_cherry("+ abc123\n- def456\n");
    assert_eq!(entries.len(), 2);
    assert_eq!(entries[0].status, CherryStatus::NotUpstream);
    assert_eq!(entries[0].sha, "abc123");
    assert_eq!(entries[0].subject, None);
    assert_eq!(entries[1].status, CherryStatus::Upstream);
    assert_eq!(entries[1].sha, "def456");
}

#[test]
fn parses_verbose_subject() {
    let entries = parse_cherry("+ abc123 add the thing\n");
    assert_eq!(entries[0].subject.as_deref(), Some("add the thing"));
}

#[test]
fn subject_keeps_interior_spacing() {
    let entries = parse_cherry("+ abc123 fix:  two  spaces\n");
    assert_eq!(entries[0].subject.as_deref(), Some("fix:  two  spaces"));
}

#[test]
fn cherry_empty_input_yields_no_entries() {
    assert!(parse_cherry("").is_empty());
}

#[test]
fn unmarked_lines_are_dropped() {
    let entries = parse_cherry("abc123 no marker\n\n+ def456\n");
    assert_eq!(entries.len(), 1);
    assert_eq!(entries[0].sha, "def456");
}

#[test]
fn marker_without_a_sha_is_dropped() {
    assert!(parse_cherry("+\n+ \n").is_empty());
}
