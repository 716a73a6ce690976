//! High-level handle for operating on a git repository.
//!
//! A [`Repository`] is a cheap, cloneable reference to a working tree path.
//! Construct one with [`Repository::new_unchecked`] (or, where the file
//! system can be consulted, by opening an existing one), then call the
//! accessor methods to build commands pre-scoped to this repository: each
//! runs in the working tree.
use vstd::prelude::*;

use crate::error::{Error, Result};

use crate::command::rerere::RerereCommand;
use crate::command::reset::ResetCommand;
use crate::command::restore::RestoreCommand;
use crate::command::rev_list::RevListCommand;
use crate::command::rev_parse::RevParseCommand;
use crate::command::revert::RevertCommand;
use crate::command::rm::RmCommand;
use crate::command::shortlog::ShortlogCommand;
use crate::command::show::ShowCommand;
use crate::command::show_ref::ShowRefCommand;
use crate::command::sparse_checkout::SparseCheckoutCommand;
use crate::command::stash::StashCommand;
use crate::command::status::StatusCommand;
use crate::command::submodule::SubmoduleCommand;
use crate::command::switch::SwitchCommand;
use crate::command::symbolic_ref::SymbolicRefCommand;
use crate::command::tag::TagCommand;
use crate::command::update_index::UpdateIndexCommand;
use crate::command::update_ref::UpdateRefCommand;
use crate::command::var::VarCommand;
use crate::command::verify_commit::VerifyCommitCommand;
use crate::command::verify_tag::VerifyTagCommand;
use crate::command::worktree::WorktreeCommand;
use crate::command::write_tree::WriteTreeCommand;
use crate::command::{blank_executor, push_text, start_args, ExecutorView, GitCommand, IntoText};
use crate::text::{has_prefix, has_suffix, seq_views};

verus! {

/// The path `p` resolved against `base`, as `Path::join` resolves it: an
/// absolute `p` stands alone; otherwise `p` follows `base`, with a `/`
/// between them unless `base` is empty or already ends with one.
pub open spec fn path_join(base: Seq<char>, p: Seq<char>) -> Seq<char> {
    if has_prefix(p, "/"@) || base.len() == 0 {
        p
    } else if has_suffix(base, "/"@) {
        base + p
    } else {
        base + "/"@ + p
    }
}

/// `Path::join` on paths held as text.
pub fn join_path(base: &str, p: &str) -> (r: String)
    ensures
        r@ == path_join(base@, p@),
{
    proof {
        reveal_strlit("/");
    }
    let pc = crate::text::chars_of(p);
    let bc = crate::text::chars_of(base);
    if crate::text::starts_with(&pc, "/") || bc.len() == 0 {
        return p.to_owned();
    }
    if crate::text::ends_with(&bc, "/") {
        base.to_owned().concat(p)
    } else {
        base.to_owned().concat("/").concat(p)
    }
}

/// The executor of a command freshly scoped to the working tree `path`.
pub open spec fn scoped_executor(path: Seq<char>) -> ExecutorView {
    ExecutorView { cwd: Some(path), ..blank_executor() }
}

/// A handle to a git working tree.
///
/// Construction does not spawn `git`.
#[derive(Debug, Clone)]
pub struct Repository {
    path: String,
}

impl View for Repository {
    type V = Seq<char>;

    /// The working-tree path.
    closed spec fn view(&self) -> Seq<char> {
        self.path@
    }
}

impl Repository {
    /// Construct a [`Repository`] for `path` without checking that it exists.
    ///
    /// Use this when you are about to run `init` or `clone` into the path.
    pub fn new_unchecked(path: impl IntoText) -> (r: Self)
        ensures
            r@ == path.text(),
    {
        Repository { path: path.into_text() }
    }

    /// Open the working tree at `path`, given whether its `.git` entry
    /// ([`git_dir`](Self::git_dir)) exists.
    ///
    /// # Errors
    /// [`Error::NotARepository`] naming `path` when there is no `.git`
    /// entry.
    pub fn open_checked(path: impl IntoText, git_dir_exists: bool) -> (r: Result<Self>)
        ensures
            git_dir_exists ==> (r matches Ok(repo) && repo@ == path.text()),
            !git_dir_exists ==> (r matches Err(Error::NotARepository { path: p }) && p@
                == path.text()),
    {
        let p = path.into_text();
        if git_dir_exists {
            Ok(Repository { path: p })
        } else {
            Err(Error::not_a_repository(p))
        }
    }

    /// The arguments after `git` that create a repository at `path`:
    /// `init <path>`. The directory and its parents are created first by the
    /// caller when missing.
    pub fn init_args(path: impl IntoText) -> (r: Vec<String>)
        ensures
            seq_views(r@) == seq!["init"@, path.text()],
    {
        let mut args = start_args("init");
        let p = path.into_text();
        push_text(&mut args, &p);
        args
    }

    /// The arguments after `git` that clone `url` into `path`:
    /// `clone <url> <path>`.
    pub fn clone_args(url: impl IntoText, path: impl IntoText) -> (r: Vec<String>)
        ensures
            seq_views(r@) == seq!["clone"@, url.text(), path.text()],
    {
        let mut args = start_args("clone");
        let u = url.into_text();
        push_text(&mut args, &u);
        let p = path.into_text();
        push_text(&mut args, &p);
        args
    }

    /// Working-tree path.
    pub fn path(&self) -> (r: &str)
        ensures
            r@ == self@,
    {
        self.path.as_str()
    }

    /// Path to the `.git` directory (or file) inside the working tree.
    pub fn git_dir(&self) -> (r: String)
        ensures
            r@ == path_join(self@, ".git"@),
    {
        join_path(self.path.as_str(), ".git")
    }

    /// Build a [`StatusCommand`] scoped to this repository.
    pub fn status(&self) -> (r: StatusCommand)
        ensures
            r.executor@ == scoped_executor(self@),
            r.args_spec() == seq!["status"@],
    {
        let r = self.scoped(StatusCommand::new());
        assert(r.args_spec() =~= seq!["status"@]);
        r
    }

    /// Build a [`ShowCommand`] scoped to this repository.
    pub fn show(&self) -> (r: ShowCommand)
        ensures
            r.executor@ == scoped_executor(self@),
            r.args_spec() == seq!["show"@],
    {
        let r = self.scoped(ShowCommand::new());
        assert(r.args_spec() =~= seq!["show"@]);
        r
    }

    /// Build a [`SwitchCommand`] scoped to this repository.
    pub fn switch(&self) -> (r: SwitchCommand)
        ensures
            r.executor@ == scoped_executor(self@),
            r.args_spec() == seq!["switch"@],
    {
        let r = self.scoped(SwitchCommand::new());
        assert(r.args_spec() =~= seq!["switch"@]);
        r
    }

    /// Build a [`TagCommand`] scoped to this repository.
    pub fn tag(&self) -> (r: TagCommand)
        ensures
            r.executor@ == scoped_executor(self@),
            r.args_spec() == seq!["tag"@],
    {
        let r = self.scoped(TagCommand::new());
        assert(r.args_spec() =~= seq!["tag"@]);
        r
    }

    /// Build a [`ResetCommand`] scoped to this repository.
    pub fn reset(&self) -> (r: ResetCommand)
        ensures
            r.executor@ == scoped_executor(self@),
            r.args_spec() == seq!["reset"@],
    {
        let r = self.scoped(ResetCommand::new());
        assert(r.args_spec() =~= seq!["reset"@]);
        r
    }

    /// Build a [`RestoreCommand`] scoped to this repository.
    pub fn restore(&self) -> (r: RestoreCommand)
        ensures
            r.executor@ == scoped_executor(self@),
            r.args_spec() == seq!["restore"@],
    {
        let r = self.scoped(RestoreCommand::new());
        assert(r.args_spec() =~= seq!["restore"@]);
        r
    }

    /// Build an [`RmCommand`] scoped to this repository.
    pub fn rm(&self) -> (r: RmCommand)
        ensures
            r.executor@ == scoped_executor(self@),
            r.args_spec() == seq!["rm"@],
    {
        let r = self.scoped(RmCommand::new());
        assert(r.args_spec() =~= seq!["rm"@]);
        r
    }

    /// Build a [`RevParseCommand`] scoped to this repository.
    pub fn rev_parse(&self) -> (r: RevParseCommand)
        ensures
            r.executor@ == scoped_executor(self@),
            r.args_spec() == seq!["rev-parse"@],
    {
        let r = self.scoped(RevParseCommand::new());
        assert(r.args_spec() =~= seq!["rev-parse"@]);
        r
    }

    /// Build a [`ShowRefCommand`] scoped to this repository.
    pub fn show_ref(&self) -> (r: ShowRefCommand)
        ensures
            r.executor@ == scoped_executor(self@),
            r.args_spec() == seq!["show-ref"@],
    {
        let r = self.scoped(ShowRefCommand::new());
        assert(r.args_spec() =~= seq!["show-ref"@]);
        r
    }

    /// Build an [`UpdateRefCommand`] scoped to this repository.
    pub fn update_ref(&self) -> (r: UpdateRefCommand)
        ensures
            r.executor@ == scoped_executor(self@),
            r.args_spec() == seq!["update-ref"@],
    {
        let r = self.scoped(UpdateRefCommand::new());
        assert(r.args_spec() =~= seq!["update-ref"@]);
        r
    }

    /// Build a [`RevertCommand`] scoped to this repository.
    pub fn revert(&self) -> (r: RevertCommand)
        ensures
            r.executor@ == scoped_executor(self@),
            r.args_spec() == seq!["revert"@],
    {
        let r = self.scoped(RevertCommand::new());
        assert(r.args_spec() =~= seq!["revert"@]);
        r
    }

    /// Build a [`ShortlogCommand`] scoped to this repository.
    pub fn shortlog(&self) -> (r: ShortlogCommand)
        ensures
            r.executor@ == scoped_executor(self@),
            r.args_spec() == seq!["shortlog"@],
    {
        let r = self.scoped(ShortlogCommand::new());
        assert(r.args_spec() =~= seq!["shortlog"@]);
        r
    }

    /// Build a [`VerifyCommitCommand`] scoped to this repository.
    pub fn verify_commit(&self) -> (r: VerifyCommitCommand)
        ensures
            r.executor@ == scoped_executor(self@),
            r.args_spec() == seq!["verify-commit"@],
    {
        let r = self.scoped(VerifyCommitCommand::new());
        assert(r.args_spec() =~= seq!["verify-commit"@]);
        r
    }

    /// Build a [`VerifyTagCommand`] scoped to this repository.
    pub fn verify_tag(&self) -> (r: VerifyTagCommand)
        ensures
            r.executor@ == scoped_executor(self@),
            r.args_spec() == seq!["verify-tag"@],
    {
        let r = self.scoped(VerifyTagCommand::new());
        assert(r.args_spec() =~= seq!["verify-tag"@]);
        r
    }

    /// Build a [`RevListCommand`] scoped to this repository.
    pub fn rev_list(&self) -> (r: RevListCommand)
        ensures
            r.executor@ == scoped_executor(self@),
            r.args_spec() == seq!["rev-list"@],
    {
        let r = self.scoped(RevListCommand::new());
        assert(r.args_spec() =~= seq!["rev-list"@]);
        r
    }

    /// Build a [`WriteTreeCommand`] scoped to this repository.
    pub fn write_tree(&self) -> (r: WriteTreeCommand)
        ensures
            r.executor@ == scoped_executor(self@),
            r.args_spec() == seq!["write-tree"@],
    {
        let r = self.scoped(WriteTreeCommand::new());
        assert(r.args_spec() =~= seq!["write-tree"@]);
        r
    }

    /// Build an [`UpdateIndexCommand`] scoped to this repository.
    pub fn update_index(&self) -> (r: UpdateIndexCommand)
        ensures
            r.executor@ == scoped_executor(self@),
            r.args_spec() == seq!["update-index"@],
    {
        let r = self.scoped(UpdateIndexCommand::new());
        assert(r.args_spec() =~= seq!["update-index"@]);
        r
    }

    /// Build a [`StashCommand`] scoped to this repository.
    pub fn stash(&self, action: StashCommand) -> (r: StashCommand)
        ensures
            r == action.with_executor_spec(r.executor),
            r.executor@ == (ExecutorView { cwd: Some(self@), ..action.executor@ }),
    {
        self.scoped(action)
    }

    /// Build a [`WorktreeCommand`] scoped to this repository.
    pub fn worktree(&self, action: WorktreeCommand) -> (r: WorktreeCommand)
        ensures
            r == action.with_executor_spec(r.executor),
            r.executor@ == (ExecutorView { cwd: Some(self@), ..action.executor@ }),
    {
        self.scoped(action)
    }

    /// Build a [`SubmoduleCommand`] scoped to this repository.
    pub fn submodule(&self, action: SubmoduleCommand) -> (r: SubmoduleCommand)
        ensures
            r == action.with_executor_spec(r.executor),
            r.executor@ == (ExecutorView { cwd: Some(self@), ..action.executor@ }),
    {
        self.scoped(action)
    }

    /// Build a [`SymbolicRefCommand`] scoped to this repository.
    ///
    /// Construct `action` with [`SymbolicRefCommand::read`],
    /// [`SymbolicRefCommand::set`], or [`SymbolicRefCommand::delete`].
    pub fn symbolic_ref(&self, action: SymbolicRefCommand) -> (r: SymbolicRefCommand)
        ensures
            r == action.with_executor_spec(r.executor),
            r.executor@ == (ExecutorView { cwd: Some(self@), ..action.executor@ }),
    {
        self.scoped(action)
    }

    /// Scope a [`RerereCommand`] action to this repository.
    pub fn rerere(&self, action: RerereCommand) -> (r: RerereCommand)
        ensures
            r == action.with_executor_spec(r.executor),
            r.executor@ == (ExecutorView { cwd: Some(self@), ..action.executor@ }),
    {
        self.scoped(action)
    }

    /// Scope a [`SparseCheckoutCommand`] action to this repository.
    pub fn sparse_checkout(&self, action: SparseCheckoutCommand) -> (r: SparseCheckoutCommand)
        ensures
            r == action.with_executor_spec(r.executor),
            r.executor@ == (ExecutorView { cwd: Some(self@), ..action.executor@ }),
    {
        self.scoped(action)
    }

    /// Scope a [`VarCommand`] action to this repository.
    pub fn var(&self, action: VarCommand) -> (r: VarCommand)
        ensures
            r == action.with_executor_spec(r.executor),
            r.executor@ == (ExecutorView { cwd: Some(self@), ..action.executor@ }),
    {
        self.scoped(action)
    }

    fn scoped<C: GitCommand>(&self, command: C) -> (r: C)
        ensures
            r == command.with_executor_spec(r.executor_spec()),
            r.executor_spec()@ == (ExecutorView { cwd: Some(self@), ..command.executor_spec()@ }),
    {
        let mut command = command;
        command.current_dir(&self.path);
        command
    }
}

} // verus!
