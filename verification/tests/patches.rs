use git_spawn::{GitCommand, Repository};

#[test]
fn format_builds_the_expected_args() {
    let repo = Repository::new_unchecked("/tmp/some-repo");
    let cmd = repo
        .patches()
        .format("HEAD~2..HEAD")
        .output_dir("/tmp/p")
        .numbered()
        .signoff()
        .command();

    assert_eq!(
        cmd.get_executor().cwd,
        Some("/tmp/some-repo".to_string())
    );
    assert_eq!(
        cmd.build_command_args(),
        vec![
            "format-patch",
            "-n",
            "--signoff",
            "-o",
            "/tmp/p",
            "HEAD~2..HEAD"
        ]
    );
}

#[test]
fn format_without_options_passes_only_the_rev_spec() {
    let repo = Repository::new_unchecked("/tmp/some-repo");
    let cmd = repo.patches().format("HEAD~1..HEAD").command();
    assert_eq!(
        cmd.build_command_args(),
        vec!["format-patch", "HEAD~1..HEAD"]
    );
}
