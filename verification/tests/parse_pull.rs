use git_spawn::parse::pull::{parse_pull};

#[test]
fn pull_already_up_to_date() {
    let result = parse_pull("Already up to date.\n");
    assert!(result.already_up_to_date);
    assert!(!result.fast_forward);
    assert!(!result.merge_commit);
    assert!(!result.conflicts);
}

#[test]
fn pull_fast_forward() {
    let output = "Updating abc123..def456\nFast-forward\n a.txt | 2 +-\n";
    let result = parse_pull(output);
    assert!(result.fast_forward);
    assert!(!result.already_up_to_date);
    assert!(!result.merge_commit);
    assert!(!result.conflicts);
}

#[test]
fn pull_merge_commit() {
    let output = "Merge made by the 'ort' strategy.\n a.txt | 2 +-\n";
    let result = parse_pull(output);
    assert!(result.merge_commit);
    assert!(!result.already_up_to_date);
    assert!(!result.fast_forward);
    assert!(!result.conflicts);
}

#[test]
fn pull_conflicts() {
    let output = "Auto-merging a.txt\nCONFLICT (content): Merge conflict in a.txt\n";
    let result = parse_pull(output);
    assert!(result.conflicts);
    assert!(!result.already_up_to_date);
    assert!(!result.fast_forward);
    assert!(!result.merge_commit);
}

#[test]
fn combination_merge_and_conflicts() {
    let output =
        "Merge made by the 'ort' strategy.\nCONFLICT (content): Merge conflict in a.txt\n";
    let result = parse_pull(output);
    assert!(result.merge_commit);
    assert!(result.conflicts);
    assert!(!result.already_up_to_date);
    assert!(!result.fast_forward);
}

#[test]
fn no_match_retains_raw() {
    let output = "some unrelated output";
    let result = parse_pull(output);
    assert!(!result.already_up_to_date);
    assert!(!result.fast_forward);
    assert!(!result.merge_commit);
    assert!(!result.conflicts);
    assert_eq!(result.raw, output);
}
