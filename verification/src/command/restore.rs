//! `git restore` — restore working tree files.
use vstd::prelude::*;

use crate::command::{
    blank_executor, flag, opt_arg, opt_flag_arg, opt_joined, push_all, push_concat, push_flag,
    push_into, push_joined, push_lit, start_args, push_number, push_opt, push_opt_flag, push_text,
    CommandExecutor, GitCommand, IntoText, dashdash_paths, push_dashdash_paths,
};
use crate::text::{decimal, opt_view, seq_views};

verus! {

/// Builder for `git restore`.
#[derive(Debug, Clone)]
pub struct RestoreCommand {
    /// Shared executor.
    pub executor: CommandExecutor,
    /// Paths to restore.
    pub paths: Vec<String>,
    /// `--source=<tree>`.
    pub source: Option<String>,
    /// `--staged`.
    pub staged: bool,
    /// `--worktree`.
    pub worktree: bool,
    /// `--quiet`.
    pub quiet: bool,
    /// `--ours`.
    pub ours: bool,
    /// `--theirs`.
    pub theirs: bool,
}

impl RestoreCommand {
    /// Create a command.
    pub fn new() -> (r: Self)
        ensures
            r.executor@ == blank_executor(),
            r == (RestoreCommand { executor: r.executor, paths: r.paths, source: None, staged: false, worktree: false, quiet: false, ours: false, theirs: false }),
            r.paths@.len() == 0,
    {
        RestoreCommand {
            executor: CommandExecutor::new(),
            paths: Vec::new(),
            source: None,
            staged: false,
            worktree: false,
            quiet: false,
            ours: false,
            theirs: false,
        }
    }

    /// Add a path.
    pub fn path(&mut self, p: impl IntoText) -> (r: &mut Self)
        ensures
            *final(self) == *final(r),
            *r == (RestoreCommand { paths: r.paths, ..*old(self) }),
            seq_views(r.paths@) == seq_views(old(self).paths@).push(p.text()),
    {
        push_into(&mut self.paths, p.into_text());
        self
    }

    /// `--source=<tree>`.
    pub fn source(&mut self, s: impl IntoText) -> (r: &mut Self)
        ensures
            *final(self) == *final(r),
            *r == (RestoreCommand { source: r.source, ..*old(self) }),
            opt_view(r.source) == Some(s.text()),
    {
        self.source = Some(s.into_text());
        self
    }

    /// `--staged`.
    pub fn staged(&mut self) -> (r: &mut Self)
        ensures
            *final(self) == *final(r),
            *r == (RestoreCommand { staged: true, ..*old(self) }),
    {
        self.staged = true;
        self
    }

    /// `--worktree`.
    pub fn worktree(&mut self) -> (r: &mut Self)
        ensures
            *final(self) == *final(r),
            *r == (RestoreCommand { worktree: true, ..*old(self) }),
    {
        self.worktree = true;
        self
    }

    /// `--quiet`.
    pub fn quiet(&mut self) -> (r: &mut Self)
        ensures
            *final(self) == *final(r),
            *r == (RestoreCommand { quiet: true, ..*old(self) }),
    {
        self.quiet = true;
        self
    }

    /// `--ours`.
    pub fn ours(&mut self) -> (r: &mut Self)
        ensures
            *final(self) == *final(r),
            *r == (RestoreCommand { ours: true, ..*old(self) }),
    {
        self.ours = true;
        self
    }

    /// `--theirs`.
    pub fn theirs(&mut self) -> (r: &mut Self)
        ensures
            *final(self) == *final(r),
            *r == (RestoreCommand { theirs: true, ..*old(self) }),
    {
        self.theirs = true;
        self
    }
}

impl Default for RestoreCommand {
    fn default() -> (r: Self)
        ensures
            r.executor@ == blank_executor(),
            r == (RestoreCommand { executor: r.executor, paths: r.paths, source: None, staged: false, worktree: false, quiet: false, ours: false, theirs: false }),
            r.paths@.len() == 0,
    {
        Self::new()
    }
}

impl GitCommand for RestoreCommand {
    open spec fn executor_spec(&self) -> CommandExecutor {
        self.executor
    }

    open spec fn with_executor_spec(self, e: CommandExecutor) -> Self {
        RestoreCommand { executor: e, ..self }
    }

    open spec fn args_spec(&self) -> Seq<Seq<char>> {
        seq!["restore"@] + opt_joined("--source="@, self.source) + flag(self.staged, "--staged"@)
            + flag(self.worktree, "--worktree"@) + flag(self.quiet, "--quiet"@) + flag(
            self.ours,
            "--ours"@,
        ) + flag(self.theirs, "--theirs"@) + dashdash_paths(self.paths@)
    }

    proof fn lemma_with_executor(self, e1: CommandExecutor, e2: CommandExecutor) {
    }

    proof fn lemma_args_ignore_executor(self, e: CommandExecutor) {
    }

    fn get_executor(&self) -> (r: &CommandExecutor) {
        &self.executor
    }

    fn get_executor_mut(&mut self) -> (r: &mut CommandExecutor) {
        &mut self.executor
    }

    fn replace_executor(&mut self, e: CommandExecutor) -> (prev: CommandExecutor) {
        let mut e = e;
        std::mem::swap(&mut self.executor, &mut e);
        e
    }

    fn build_command_args(&self) -> (r: Vec<String>) {
        let mut args = start_args("restore");
        push_joined(&mut args, "--source=", &self.source);
        push_flag(&mut args, self.staged, "--staged");
        push_flag(&mut args, self.worktree, "--worktree");
        push_flag(&mut args, self.quiet, "--quiet");
        push_flag(&mut args, self.ours, "--ours");
        push_flag(&mut args, self.theirs, "--theirs");
        push_dashdash_paths(&mut args, &self.paths);
        args
    }
}

} // verus!
