use git_spawn::command::rerere::RerereCommand;
use git_spawn::command::sparse_checkout::SparseCheckoutCommand;
use git_spawn::command::var::VarCommand;
use git_spawn::{GitCommand, Repository};

#[test]
fn new_unchecked_does_not_check() {
    let repo = Repository::new_unchecked("/definitely/not/here");
    assert_eq!(repo.path(), "/definitely/not/here");
}

#[test]
fn object_and_ref_accessors_scope_current_dir() {
    let repo = Repository::new_unchecked("/tmp/some-repo");
    let want = Some("/tmp/some-repo".to_string());

    let update = repo.update_ref();
    assert_eq!(update.get_executor().cwd, want);
}

fn assert_scoped<C: GitCommand>(command: C, args: &[&str]) {
    assert_eq!(command.get_executor().cwd, Some("/tmp/some-repo".to_string()));
    assert_eq!(command.build_command_args(), args);
}

#[test]
fn added_repository_accessors_scope_current_dir_and_build_expected_argv() {
    let repo = Repository::new_unchecked("/tmp/some-repo");

    assert_scoped(repo.format_patch(), &["format-patch"]);
    assert_scoped(repo.rerere(RerereCommand::status()), &["rerere", "status"]);
    assert_scoped(repo.revert(), &["revert"]);
    assert_scoped(repo.shortlog(), &["shortlog"]);
    assert_scoped(
        repo.sparse_checkout(SparseCheckoutCommand::list()),
        &["sparse-checkout", "list"],
    );
    assert_scoped(repo.var(VarCommand::get("GIT_EDITOR")), &["var", "GIT_EDITOR"]);
    assert_scoped(repo.verify_commit(), &["verify-commit"]);
    assert_scoped(repo.verify_tag(), &["verify-tag"]);
}
