use git_spawn::parse::rebase::{parse_rebase};

#[test]
fn up_to_date() {
    let result = parse_rebase("Current branch topic is up to date.\n");
    assert!(result.up_to_date);
    assert!(!result.fast_forward);
    assert!(!result.conflicts);
}

#[test]
fn rebase_fast_forward() {
    let output =
        "Successfully rebased and updated refs/heads/topic.\nFast-forwarded topic to main.\n";
    let result = parse_rebase(output);
    assert!(result.fast_forward);
    assert!(!result.up_to_date);
    assert!(!result.conflicts);
}

#[test]
fn rebase_conflicts() {
    let output = "Auto-merging a.txt\nCONFLICT (content): Merge conflict in a.txt\nerror: could not apply abc123... second\n";
    let result = parse_rebase(output);
    assert!(result.conflicts);
    assert!(!result.up_to_date);
    assert!(!result.fast_forward);
}

#[test]
fn plain_success_no_flags_set() {
    let output = "Successfully rebased and updated refs/heads/topic.\n";
    let result = parse_rebase(output);
    assert!(!result.up_to_date);
    assert!(!result.fast_forward);
    assert!(!result.conflicts);
    assert_eq!(result.raw, output);
}
