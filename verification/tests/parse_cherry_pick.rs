use git_spawn::parse::cherry_pick::{parse_cherry_pick};
use git_spawn::CommandOutput;

fn output(stdout: &str, stderr: &str, success: bool) -> CommandOutput {
    CommandOutput {
        stdout: stdout.as_bytes().to_vec(),
        stderr: stderr.to_string(),
        exit_code: i32::from(!success),
        success,
    }
}

#[test]
fn clean_pick_has_no_conflicts() {
    let result = parse_cherry_pick(&output(
        "[main abc1234] add feature\n 1 file changed, 1 insertion(+)\n",
        "",
        true,
    ));
    assert!(!result.conflicts);
    assert!(result.raw.contains("add feature"));
}

#[test]
fn conflicted_pick_is_detected() {
    let result = parse_cherry_pick(&output(
        "Auto-merging a.txt\n",
        "error: could not apply abc1234... add feature\nhint: after resolving the conflicts, mark the corrected paths\nCONFLICT (content): Merge conflict in a.txt\n",
        false,
    ));
    assert!(result.conflicts);
    assert!(result.raw.contains("Auto-merging"));
    assert!(result.raw.contains("CONFLICT"));
}
