//! `git reset` — reset current HEAD to a specified state.
use vstd::prelude::*;

use crate::command::{
    blank_executor, flag, opt_arg, opt_flag_arg, opt_joined, push_all, push_concat, push_flag,
    push_into, push_joined, push_lit, start_args, push_number, push_opt, push_opt_flag, push_text,
    CommandExecutor, GitCommand, IntoText, dashdash_paths, push_dashdash_paths,
};
use crate::text::{decimal, opt_view, seq_views};

verus! {

/// Reset mode.
#[derive(Debug, Clone, Copy, PartialEq, Eq)]
pub enum ResetMode {
    /// `--soft`.
    Soft,
    /// `--mixed`.
    Mixed,
    /// `--hard`.
    Hard,
    /// `--merge`.
    Merge,
    /// `--keep`.
    Keep,
}

/// The flag that selects a reset mode.
pub open spec fn mode_flag(m: Option<ResetMode>) -> Seq<Seq<char>> {
    match m {
        Some(ResetMode::Soft) => seq!["--soft"@],
        Some(ResetMode::Mixed) => seq!["--mixed"@],
        Some(ResetMode::Hard) => seq!["--hard"@],
        Some(ResetMode::Merge) => seq!["--merge"@],
        Some(ResetMode::Keep) => seq!["--keep"@],
        None => Seq::empty(),
    }
}

/// Builder for `git reset`.
#[derive(Debug, Clone)]
pub struct ResetCommand {
    /// Shared executor.
    pub executor: CommandExecutor,
    /// Reset mode.
    pub mode: Option<ResetMode>,
    /// Target commit.
    pub commit: Option<String>,
    /// Paths to reset.
    pub paths: Vec<String>,
    /// `--quiet`.
    pub quiet: bool,
}

impl ResetCommand {
    /// Create a command.
    pub fn new() -> (r: Self)
        ensures
            r.executor@ == blank_executor(),
            r == (ResetCommand { executor: r.executor, paths: r.paths, mode: None, commit: None, quiet: false }),
            r.paths@.len() == 0,
    {
        ResetCommand {
            executor: CommandExecutor::new(),
            mode: None,
            commit: None,
            paths: Vec::new(),
            quiet: false,
        }
    }

    /// Set the reset mode.
    pub fn mode(&mut self, m: ResetMode) -> (r: &mut Self)
        ensures
            *final(self) == *final(r),
            *r == (ResetCommand { mode: Some(m), ..*old(self) }),
    {
        self.mode = Some(m);
        self
    }

    /// Target commit.
    pub fn commit(&mut self, c: impl IntoText) -> (r: &mut Self)
        ensures
            *final(self) == *final(r),
            *r == (ResetCommand { commit: r.commit, ..*old(self) }),
            opt_view(r.commit) == Some(c.text()),
    {
        self.commit = Some(c.into_text());
        self
    }

    /// Restrict to a path.
    pub fn path(&mut self, p: impl IntoText) -> (r: &mut Self)
        ensures
            *final(self) == *final(r),
            *r == (ResetCommand { paths: r.paths, ..*old(self) }),
            seq_views(r.paths@) == seq_views(old(self).paths@).push(p.text()),
    {
        push_into(&mut self.paths, p.into_text());
        self
    }

    /// `--quiet`.
    pub fn quiet(&mut self) -> (r: &mut Self)
        ensures
            *final(self) == *final(r),
            *r == (ResetCommand { quiet: true, ..*old(self) }),
    {
        self.quiet = true;
        self
    }
}

impl Default for ResetCommand {
    fn default() -> (r: Self)
        ensures
            r.executor@ == blank_executor(),
            r == (ResetCommand { executor: r.executor, paths: r.paths, mode: None, commit: None, quiet: false }),
            r.paths@.len() == 0,
    {
        Self::new()
    }
}

impl GitCommand for ResetCommand {
    open spec fn executor_spec(&self) -> CommandExecutor {
        self.executor
    }

    open spec fn with_executor_spec(self, e: CommandExecutor) -> Self {
        ResetCommand { executor: e, ..self }
    }

    open spec fn args_spec(&self) -> Seq<Seq<char>> {
        seq!["reset"@] + mode_flag(self.mode) + flag(self.quiet, "--quiet"@) + opt_arg(self.commit)
            + dashdash_paths(self.paths@)
    }

    proof fn lemma_with_executor(self, e1: CommandExecutor, e2: CommandExecutor) {
    }

    proof fn lemma_args_ignore_executor(self, e: CommandExecutor) {
    }

    fn get_executor(&self) -> (r: &CommandExecutor) {
        &self.executor
    }

    fn get_executor_mut(&mut self) -> (r: &mut CommandExecutor) {
        &mut self.executor
    }

    fn replace_executor(&mut self, e: CommandExecutor) -> (prev: CommandExecutor) {
        let mut e = e;
        std::mem::swap(&mut self.executor, &mut e);
        e
    }

    fn build_command_args(&self) -> (r: Vec<String>) {
        let mut args = start_args("reset");
        let ghost before = seq_views(args@);
        match self.mode {
            Some(ResetMode::Soft) => push_lit(&mut args, "--soft"),
            Some(ResetMode::Mixed) => push_lit(&mut args, "--mixed"),
            Some(ResetMode::Hard) => push_lit(&mut args, "--hard"),
            Some(ResetMode::Merge) => push_lit(&mut args, "--merge"),
            Some(ResetMode::Keep) => push_lit(&mut args, "--keep"),
            None => {},
        }
        assert(seq_views(args@) =~= before + mode_flag(self.mode));
        push_flag(&mut args, self.quiet, "--quiet");
        push_opt(&mut args, &self.commit);
        push_dashdash_paths(&mut args, &self.paths);
        args
    }
}

} // verus!
