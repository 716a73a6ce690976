//! Common multi-step compositions.
//!
//! Reached through [`Repository::workflow`], which returns a [`WorkflowOps`]
//! handle. Each method gives the argument lists of the two or three raw
//! commands a workflow step runs, in order, each to be run in the
//! repository's working tree — the same things you'd usually script by
//! hand.
//!
//! Workflow steps don't add new behavior — they just spare callers from
//! chaining the raw commands by hand. If you need finer control (e.g.
//! `add -u` instead of `add -A`), reach for the raw commands directly.
use vstd::prelude::*;

use crate::command::{push_lit, push_text, start_args, IntoText};
use crate::repo::Repository;
use crate::text::seq_views;

verus! {

/// High-level workflow helpers, scoped to a [`Repository`].
#[derive(Debug)]
pub struct WorkflowOps<'a> {
    repo: &'a Repository,
}

impl<'a> View for WorkflowOps<'a> {
    type V = Seq<char>;

    /// The working-tree path of the repository the steps act on.
    closed spec fn view(&self) -> Seq<char> {
        self.repo@
    }
}

impl<'a> WorkflowOps<'a> {
    /// The repository the steps act on.
    pub fn repo(&self) -> (r: &'a Repository)
        ensures
            r@ == self@,
    {
        self.repo
    }

    /// Create a new branch `name` starting at `base` and switch to it:
    /// `git checkout -b <name> <base>`. Git fails if a branch named `name`
    /// already exists.
    pub fn feature_branch_args(&self, name: impl IntoText, base: impl IntoText) -> (r: Vec<String>)
        ensures
            seq_views(r@) == seq!["checkout"@, "-b"@, name.text(), base.text()],
    {
        let mut args = start_args("checkout");
        push_lit(&mut args, "-b");
        let n = name.into_text();
        push_text(&mut args, &n);
        let b = base.into_text();
        push_text(&mut args, &b);
        args
    }

    /// Stage every change in the working tree and commit them with
    /// `message`: `git add -A`, then `git commit -m <message>`. The commit
    /// fails if there is nothing to commit.
    pub fn commit_all_args(&self, message: impl IntoText) -> (r: (Vec<String>, Vec<String>))
        ensures
            seq_views(r.0@) == seq!["add"@, "-A"@],
            seq_views(r.1@) == seq!["commit"@, "-m"@, message.text()],
    {
        let mut add = start_args("add");
        push_lit(&mut add, "-A");
        let mut commit = start_args("commit");
        push_lit(&mut commit, "-m");
        let m = message.into_text();
        push_text(&mut commit, &m);
        (add, commit)
    }

    /// Bring the current branch up to date with its upstream via rebase:
    /// `git pull --rebase`. Git fails if no upstream is configured or the
    /// rebase has conflicts.
    pub fn sync_args(&self) -> (r: Vec<String>)
        ensures
            seq_views(r@) == seq!["pull"@, "--rebase"@],
    {
        let mut args = start_args("pull");
        push_lit(&mut args, "--rebase");
        args
    }

    /// Squash-merge `branch` into the current branch:
    /// `git merge --squash <branch>`. The changes are staged but **not**
    /// committed — follow up with the `commit_all_args` step or a raw commit
    /// to record them.
    pub fn squash_merge_args(&self, branch: impl IntoText) -> (r: Vec<String>)
        ensures
            seq_views(r@) == seq!["merge"@, "--squash"@, branch.text()],
    {
        let mut args = start_args("merge");
        push_lit(&mut args, "--squash");
        let b = branch.into_text();
        push_text(&mut args, &b);
        args
    }
}

impl Repository {
    /// High-level workflow compositions.
    pub fn workflow(&self) -> (r: WorkflowOps<'_>)
        ensures
            r@ == self@,
    {
        WorkflowOps { repo: self }
    }
}

} // verus!
