use git_spawn::parse::merge::{parse_merge};

#[test]
fn merge_fast_forward() {
    let stdout = "Updating a1b2c3..d4e5f6\nFast-forward\n f.txt | 1 +\n 1 file changed, 1 insertion(+)\n";
    let result = parse_merge(stdout);
    assert!(result.fast_forward);
    assert!(!result.already_up_to_date);
}

#[test]
fn merge_already_up_to_date() {
    let result = parse_merge("Already up to date.\n");
    assert!(!result.fast_forward);
    assert!(result.already_up_to_date);
}

#[test]
fn merge_merge_commit() {
    let stdout =
        "Merge made by the 'ort' strategy.\n f.txt | 1 +\n 1 file changed, 1 insertion(+)\n";
    let result = parse_merge(stdout);
    assert!(!result.fast_forward);
    assert!(!result.already_up_to_date);
}
