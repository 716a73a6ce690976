use git_spawn::parse::ls_tree::{TreeObjectType, parse_ls_tree, parse_ls_tree_name_only};

#[test]
fn parses_blob_entry() {
    let input = "100644 blob e69de29bb2d1d6434b8b29ae775ad8c2e48c5391\tfoo.txt\n";
    let entries = parse_ls_tree(input).unwrap();
    assert_eq!(entries.len(), 1);
    assert_eq!(entries[0].mode, "100644");
    assert_eq!(entries[0].object_type, TreeObjectType::Blob);
    assert_eq!(entries[0].sha, "e69de29bb2d1d6434b8b29ae775ad8c2e48c5391");
    assert_eq!(entries[0].size, None);
    assert_eq!(entries[0].path, "foo.txt");
}

#[test]
fn parses_tree_entry() {
    let input = "040000 tree 4b825dc642cb6eb9a060e54bf8d69288fbee4904\tsubdir\n";
    let entries = parse_ls_tree(input).unwrap();
    assert_eq!(entries[0].object_type, TreeObjectType::Tree);
}

#[test]
fn parses_commit_entry() {
    let input = "160000 commit e69de29bb2d1d6434b8b29ae775ad8c2e48c5391\tsubmodule\n";
    let entries = parse_ls_tree(input).unwrap();
    assert_eq!(entries[0].object_type, TreeObjectType::Commit);
}

#[test]
fn parses_other_type() {
    let input = "160000 gitlink e69de29bb2d1d6434b8b29ae775ad8c2e48c5391\tstrange\n";
    let entries = parse_ls_tree(input).unwrap();
    assert_eq!(
        entries[0].object_type,
        TreeObjectType::Other("gitlink".to_string())
    );
}

#[test]
fn parses_long_format_with_size() {
    let input = "100644 blob e69de29bb2d1d6434b8b29ae775ad8c2e48c5391      12\tfoo.txt\n";
    let entries = parse_ls_tree(input).unwrap();
    assert_eq!(entries[0].size, Some(12));
}

#[test]
fn parses_long_format_dash_sentinel_for_non_blob() {
    let input = "040000 tree 4b825dc642cb6eb9a060e54bf8d69288fbee4904       -\tsubdir\n";
    let entries = parse_ls_tree(input).unwrap();
    assert_eq!(entries[0].size, None);
}

#[test]
fn preserves_tab_containing_paths() {
    let input = "100644 blob e69de29bb2d1d6434b8b29ae775ad8c2e48c5391\tweird\tname.txt\n";
    let entries = parse_ls_tree(input).unwrap();
    assert_eq!(entries[0].path, "weird\tname.txt");
}

#[test]
fn ls_tree_multiple_entries() {
    let input = "100644 blob e69de29bb2d1d6434b8b29ae775ad8c2e48c5391\tfoo.txt\n\
                      040000 tree 4b825dc642cb6eb9a060e54bf8d69288fbee4904\tsubdir\n";
    let entries = parse_ls_tree(input).unwrap();
    assert_eq!(entries.len(), 2);
}

#[test]
fn ls_tree_empty_input_yields_no_entries() {
    assert!(parse_ls_tree("").unwrap().is_empty());
}

#[test]
fn malformed_missing_path_errors() {
    let input = "100644 blob e69de29bb2d1d6434b8b29ae775ad8c2e48c5391\n";
    assert!(parse_ls_tree(input).is_err());
}

#[test]
fn name_only_parses_bare_paths() {
    let input = "foo.txt\nsubdir\n";
    assert_eq!(parse_ls_tree_name_only(input), vec!["foo.txt", "subdir"]);
}

#[test]
fn name_only_empty_input_yields_empty_vec() {
    assert!(parse_ls_tree_name_only("").is_empty());
}
