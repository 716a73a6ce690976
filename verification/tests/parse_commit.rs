use git_spawn::parse::commit::{CommitResult, parse_commit};

#[test]
fn parses_normal_header() {
    let input = "[main abc1234] Fix bug\n 1 file changed, 1 insertion(+)\n";
    let result = parse_commit(input);
    assert_eq!(result.branch, "main");
    assert_eq!(result.short_hash, "abc1234");
    assert_eq!(result.subject, "Fix bug");
    assert_eq!(result.files_changed, 1);
    assert_eq!(result.insertions, 1);
    assert_eq!(result.deletions, 0);
}

#[test]
fn parses_root_commit_header() {
    let input =
        "[main (root-commit) abc1234] Initial commit\n 2 files changed, 4 insertions(+)\n";
    let result = parse_commit(input);
    assert_eq!(result.branch, "main");
    assert_eq!(result.short_hash, "abc1234");
    assert_eq!(result.subject, "Initial commit");
    assert_eq!(result.files_changed, 2);
    assert_eq!(result.insertions, 4);
    assert_eq!(result.deletions, 0);
}

#[test]
fn parses_insertions_only() {
    let input = "[feat def5678] Add feature\n 1 file changed, 3 insertions(+)\n";
    let result = parse_commit(input);
    assert_eq!(result.insertions, 3);
    assert_eq!(result.deletions, 0);
}

#[test]
fn parses_deletions_only() {
    let input = "[feat def5678] Remove feature\n 1 file changed, 5 deletions(-)\n";
    let result = parse_commit(input);
    assert_eq!(result.insertions, 0);
    assert_eq!(result.deletions, 5);
}

#[test]
fn parses_insertions_and_deletions() {
    let input =
        "[feat def5678] Update feature\n 3 files changed, 10 insertions(+), 2 deletions(-)\n";
    let result = parse_commit(input);
    assert_eq!(result.files_changed, 3);
    assert_eq!(result.insertions, 10);
    assert_eq!(result.deletions, 2);
}

#[test]
fn missing_stats_line_yields_zeros() {
    let input = "[main abc1234] Empty commit\n";
    let result = parse_commit(input);
    assert_eq!(result.branch, "main");
    assert_eq!(result.short_hash, "abc1234");
    assert_eq!(result.subject, "Empty commit");
    assert_eq!(result.files_changed, 0);
    assert_eq!(result.insertions, 0);
    assert_eq!(result.deletions, 0);
}

#[test]
fn empty_input_yields_defaults() {
    let result = parse_commit("");
    assert_eq!(result, CommitResult::default());
}

#[test]
fn unparseable_header_yields_empty_strings() {
    let input = "not a commit header\n 1 file changed, 1 insertion(+)\n";
    let result = parse_commit(input);
    assert_eq!(result.branch, "");
    assert_eq!(result.short_hash, "");
    assert_eq!(result.subject, "");
    assert_eq!(result.files_changed, 1);
    assert_eq!(result.insertions, 1);
}
