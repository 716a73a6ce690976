//! `git rm` — remove files from the working tree and from the index.
use vstd::prelude::*;

use crate::command::{
    blank_executor, dashdash_paths, flag, opt_arg, opt_flag_arg, opt_joined, push_all,
    push_dashdash_paths, push_flag, push_into, push_joined, push_lit, push_number, push_opt,
    push_opt_flag, start_args, CommandExecutor, GitCommand, IntoText,
};
use crate::text::{decimal, opt_view, seq_views};

verus! {

/// Builder for `git rm`.
#[derive(Debug, Clone)]
pub struct RmCommand {
    /// Shared executor.
    pub executor: CommandExecutor,
    /// Pathspecs.
    pub paths: Vec<String>,
    /// `--cached`.
    pub cached: bool,
    /// `-r`.
    pub recursive: bool,
    /// `--force`.
    pub force: bool,
    /// `--dry-run`.
    pub dry_run: bool,
    /// `--quiet`.
    pub quiet: bool,
}

impl RmCommand {
    /// New `rm` command.
    pub fn new() -> (r: Self)
        ensures
            r.executor@ == blank_executor(),
            r == (RmCommand { executor: r.executor, paths: r.paths, cached: false, recursive: false, force: false, dry_run: false, quiet: false }),
            r.paths@.len() == 0,
    {
        RmCommand { executor: CommandExecutor::new(), paths: Vec::new(), cached: false, recursive: false, force: false, dry_run: false, quiet: false }
    }

    /// Add a path.
    pub fn path(&mut self, p: impl IntoText) -> (r: &mut Self)
        ensures
            *final(self) == *final(r),
            *r == (RmCommand { paths: r.paths, ..*old(self) }),
            seq_views(r.paths@) == seq_views(old(self).paths@).push(p.text()),
    {
        push_into(&mut self.paths, p.into_text());
        self
    }

    /// `--cached`.
    pub fn cached(&mut self) -> (r: &mut Self)
        ensures
            *final(self) == *final(r),
            *r == (RmCommand { cached: true, ..*old(self) }),
    {
        self.cached = true;
        self
    }

    /// `-r`.
    pub fn recursive(&mut self) -> (r: &mut Self)
        ensures
            *final(self) == *final(r),
            *r == (RmCommand { recursive: true, ..*old(self) }),
    {
        self.recursive = true;
        self
    }

    /// `--force`.
    pub fn force(&mut self) -> (r: &mut Self)
        ensures
            *final(self) == *final(r),
            *r == (RmCommand { force: true, ..*old(self) }),
    {
        self.force = true;
        self
    }

    /// `--dry-run`.
    pub fn dry_run(&mut self) -> (r: &mut Self)
        ensures
            *final(self) == *final(r),
            *r == (RmCommand { dry_run: true, ..*old(self) }),
    {
        self.dry_run = true;
        self
    }

    /// `--quiet`.
    pub fn quiet(&mut self) -> (r: &mut Self)
        ensures
            *final(self) == *final(r),
            *r == (RmCommand { quiet: true, ..*old(self) }),
    {
        self.quiet = true;
        self
    }
}

impl Default for RmCommand {
    fn default() -> (r: Self)
        ensures
            r.executor@ == blank_executor(),
            r == (RmCommand { executor: r.executor, paths: r.paths, cached: false, recursive: false, force: false, dry_run: false, quiet: false }),
            r.paths@.len() == 0,
    {
        Self::new()
    }
}

impl GitCommand for RmCommand {
    open spec fn executor_spec(&self) -> CommandExecutor {
        self.executor
    }

    open spec fn with_executor_spec(self, e: CommandExecutor) -> Self {
        RmCommand { executor: e, ..self }
    }

    open spec fn args_spec(&self) -> Seq<Seq<char>> {
        seq!["rm"@] + flag(self.cached, "--cached"@) + flag(self.recursive, "-r"@) + flag(self.force, "--force"@) + flag(self.dry_run, "--dry-run"@) + flag(self.quiet, "--quiet"@) + dashdash_paths(self.paths@)
    }

    proof fn lemma_with_executor(self, e1: CommandExecutor, e2: CommandExecutor) {
    }

    proof fn lemma_args_ignore_executor(self, e: CommandExecutor) {
    }

    fn get_executor(&self) -> (r: &CommandExecutor) {
        &self.executor
    }

    fn get_executor_mut(&mut self) -> (r: &mut CommandExecutor) {
        &mut self.executor
    }

    fn replace_executor(&mut self, e: CommandExecutor) -> (prev: CommandExecutor) {
        let mut e = e;
        std::mem::swap(&mut self.executor, &mut e);
        e
    }

    fn build_command_args(&self) -> (r: Vec<String>) {
        let mut args = start_args("rm");
        push_flag(&mut args, self.cached, "--cached");
        push_flag(&mut args, self.recursive, "-r");
        push_flag(&mut args, self.force, "--force");
        push_flag(&mut args, self.dry_run, "--dry-run");
        push_flag(&mut args, self.quiet, "--quiet");
        push_dashdash_paths(&mut args, &self.paths);
        args
    }
}

} // verus!
