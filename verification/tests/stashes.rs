use git_spawn::stashes::{parse_stash_list, stash_ref};

#[test]
fn stash_ref_formats_revision() {
    assert_eq!(stash_ref(0), "stash@{0}");
    assert_eq!(stash_ref(3), "stash@{3}");
}

#[test]
fn parses_custom_and_auto_entries() {
    let stdout = "stash@{0}\u{1f}aaaaaaaaaaaaaaaaaaaaaaaaaaaaaaaaaaaaaaaa\u{1f}On main: wip on review\0\
                      stash@{1}\u{1f}bbbbbbbbbbbbbbbbbbbbbbbbbbbbbbbbbbbbbbbb\u{1f}WIP on feature: 1234567 tweak parser\0";
    let entries = parse_stash_list(stdout);
    assert_eq!(entries.len(), 2);

    assert_eq!(entries[0].index, 0);
    assert_eq!(entries[0].branch, "main");
    assert_eq!(entries[0].subject, "wip on review");
    assert_eq!(entries[0].sha, "aaaaaaaaaaaaaaaaaaaaaaaaaaaaaaaaaaaaaaaa");

    assert_eq!(entries[1].index, 1);
    assert_eq!(entries[1].branch, "feature");
    assert_eq!(entries[1].subject, "1234567 tweak parser");
}

#[test]
fn stashes_empty_output_is_empty() {
    assert!(parse_stash_list("").is_empty());
}

#[test]
fn subject_with_colon_space_is_preserved() {
    let stdout = "stash@{0}\u{1f}cccccccccccccccccccccccccccccccccccccccc\u{1f}On main: fix: off-by-one\0";
    let entries = parse_stash_list(stdout);
    assert_eq!(entries.len(), 1);
    assert_eq!(entries[0].branch, "main");
    assert_eq!(entries[0].subject, "fix: off-by-one");
}

#[test]
fn detached_head_branch_is_kept_verbatim() {
    let stdout = "stash@{0}\u{1f}dddddddddddddddddddddddddddddddddddddddd\u{1f}WIP on (no branch): 89abcde tweak\0";
    let entries = parse_stash_list(stdout);
    assert_eq!(entries[0].branch, "(no branch)");
    assert_eq!(entries[0].subject, "89abcde tweak");
}
