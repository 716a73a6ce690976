use git_spawn::parse::diff::{DiffKind, parse_diff_name_status, parse_diff_numstat, parse_diff_stat};

#[test]
fn simple_changes() {
    let input = "M\0foo.txt\0A\0bar.txt\0D\0baz.txt\0";
    let entries = parse_diff_name_status(input).unwrap();
    assert_eq!(entries.len(), 3);
    assert_eq!(entries[0].path, "foo.txt");
    assert_eq!(entries[2].kind, DiffKind::Deleted);
}

#[test]
fn rename_with_similarity() {
    let input = "R090\0a.rs\0b.rs\0";
    let entries = parse_diff_name_status(input).unwrap();
    assert_eq!(entries.len(), 1);
    assert_eq!(entries[0].similarity, Some(90));
    assert_eq!(entries[0].original_path.as_deref(), Some("a.rs"));
    assert_eq!(entries[0].path, "b.rs");
}

#[test]
fn empty_ok() {
    assert!(parse_diff_name_status("").unwrap().is_empty());
}

#[test]
fn numstat_simple_changes() {
    let input = "3\t1\tfoo.txt\x000\t5\tbar.txt\0";
    let diff = parse_diff_numstat(input).unwrap();
    assert_eq!(diff.files.len(), 2);
    assert_eq!(diff.files[0].path, "foo.txt");
    assert_eq!(diff.files[0].insertions, 3);
    assert_eq!(diff.files[0].deletions, 1);
    assert!(!diff.files[0].binary);
    assert_eq!(diff.total_insertions, 3);
    assert_eq!(diff.total_deletions, 6);
}

#[test]
fn numstat_binary_entry() {
    let input = "-\t-\timg.png\0";
    let diff = parse_diff_numstat(input).unwrap();
    assert_eq!(diff.files.len(), 1);
    assert!(diff.files[0].binary);
    assert_eq!(diff.files[0].insertions, 0);
    assert_eq!(diff.files[0].deletions, 0);
    assert_eq!(diff.total_insertions, 0);
}

#[test]
fn numstat_rename_keeps_new_path() {
    let input = "2\t1\t\0old.rs\0new.rs\0";
    let diff = parse_diff_numstat(input).unwrap();
    assert_eq!(diff.files.len(), 1);
    assert_eq!(diff.files[0].path, "new.rs");
    assert_eq!(diff.files[0].insertions, 2);
    assert_eq!(diff.files[0].deletions, 1);
}

#[test]
fn numstat_empty_ok() {
    let diff = parse_diff_numstat("").unwrap();
    assert!(diff.files.is_empty());
    assert_eq!(diff.total_insertions, 0);
    assert_eq!(diff.total_deletions, 0);
}

#[test]
fn numstat_invalid_count_errors() {
    assert!(parse_diff_numstat("x\t1\tfoo.txt\0").is_err());
}

#[test]
fn stat_simple_changes_and_summary() {
    let input = " foo.txt | 3 ++-\n 1 file changed, 2 insertions(+), 1 deletion(-)\n";
    let diff = parse_diff_stat(input).unwrap();
    assert_eq!(diff.files.len(), 1);
    assert_eq!(diff.files[0].path, "foo.txt");
    assert_eq!(diff.files[0].insertions, 2);
    assert_eq!(diff.files[0].deletions, 1);
    assert_eq!(diff.total_insertions, 2);
    assert_eq!(diff.total_deletions, 1);
}

#[test]
fn stat_binary_entry() {
    let input =
        " bin.dat | Bin 3 -> 5 bytes\n 1 file changed, 0 insertions(+), 0 deletions(-)\n";
    let diff = parse_diff_stat(input).unwrap();
    assert_eq!(diff.files.len(), 1);
    assert!(diff.files[0].binary);
    assert_eq!(diff.files[0].insertions, 0);
    assert_eq!(diff.files[0].deletions, 0);
}

#[test]
fn stat_simple_rename() {
    let input = " old.rs => new.rs | 3 ++-\n 1 file changed, 2 insertions(+), 1 deletion(-)\n";
    let diff = parse_diff_stat(input).unwrap();
    assert_eq!(diff.files[0].path, "new.rs");
}

#[test]
fn stat_abbreviated_rename() {
    let input = " dir/{sub_b => sub_c}/file.txt | 0\n 1 file changed, 0 insertions(+), 0 deletions(-)\n";
    let diff = parse_diff_stat(input).unwrap();
    assert_eq!(diff.files[0].path, "dir/sub_c/file.txt");
}

#[test]
fn stat_insertions_only_summary() {
    let input = " a.txt | 1 +\n 1 file changed, 1 insertion(+)\n";
    let diff = parse_diff_stat(input).unwrap();
    assert_eq!(diff.total_insertions, 1);
    assert_eq!(diff.total_deletions, 0);
}

#[test]
fn stat_empty_ok() {
    let diff = parse_diff_stat("").unwrap();
    assert!(diff.files.is_empty());
    assert_eq!(diff.total_insertions, 0);
    assert_eq!(diff.total_deletions, 0);
}
