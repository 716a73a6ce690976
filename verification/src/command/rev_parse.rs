//! `git rev-parse` — pick out and massage parameters.
use vstd::prelude::*;

use crate::command::{
    blank_executor, flag, opt_arg, opt_flag_arg, opt_joined, push_all, push_concat, push_flag,
    push_into, push_joined, push_lit, start_args, push_number, push_opt, push_opt_flag, push_text,
    CommandExecutor, GitCommand, IntoText,
};
use crate::text::{decimal, opt_view, seq_views};

verus! {

/// Builder for `git rev-parse`.
#[derive(Debug, Clone)]
pub struct RevParseCommand {
    /// Shared executor.
    pub executor: CommandExecutor,
    /// Revisions and other trailing arguments.
    pub rev_args: Vec<String>,
    /// `--verify`.
    pub verify: bool,
    /// `--abbrev-ref`.
    pub abbrev_ref: bool,
    /// `--short` (`Some(None)`) or `--short=<n>` (`Some(Some(n))`).
    pub short: Option<Option<u32>>,
    /// `--show-toplevel`.
    pub show_toplevel: bool,
    /// `--git-dir`.
    pub git_dir: bool,
    /// `--is-inside-work-tree`.
    pub is_inside_work_tree: bool,
    /// `--is-bare-repository`.
    pub is_bare_repository: bool,
    /// `--absolute-git-dir`.
    pub absolute_git_dir: bool,
}

/// The `--short` flag, if requested.
pub open spec fn short_arg(s: Option<Option<u32>>) -> Seq<Seq<char>> {
    match s {
        Some(None) => seq!["--short"@],
        Some(Some(n)) => seq!["--short="@ + decimal(n as nat)],
        None => Seq::empty(),
    }
}

impl RevParseCommand {
    /// Create a command.
    pub fn new() -> (r: Self)
        ensures
            r.executor@ == blank_executor(),
            r == (RevParseCommand { executor: r.executor, rev_args: r.rev_args, verify: false, abbrev_ref: false, short: None, show_toplevel: false, git_dir: false, is_inside_work_tree: false, is_bare_repository: false, absolute_git_dir: false }),
            r.rev_args@.len() == 0,
    {
        RevParseCommand {
            executor: CommandExecutor::new(),
            rev_args: Vec::new(),
            verify: false,
            abbrev_ref: false,
            short: None,
            show_toplevel: false,
            git_dir: false,
            is_inside_work_tree: false,
            is_bare_repository: false,
            absolute_git_dir: false,
        }
    }

    /// Add a revision or other argument.
    pub fn arg_str(&mut self, s: impl IntoText) -> (r: &mut Self)
        ensures
            *final(self) == *final(r),
            *r == (RevParseCommand { rev_args: r.rev_args, ..*old(self) }),
            seq_views(r.rev_args@) == seq_views(old(self).rev_args@).push(s.text()),
    {
        push_into(&mut self.rev_args, s.into_text());
        self
    }

    /// `--verify`.
    pub fn verify(&mut self) -> (r: &mut Self)
        ensures
            *final(self) == *final(r),
            *r == (RevParseCommand { verify: true, ..*old(self) }),
    {
        self.verify = true;
        self
    }

    /// `--abbrev-ref`.
    pub fn abbrev_ref(&mut self) -> (r: &mut Self)
        ensures
            *final(self) == *final(r),
            *r == (RevParseCommand { abbrev_ref: true, ..*old(self) }),
    {
        self.abbrev_ref = true;
        self
    }

    /// `--short`.
    pub fn short(&mut self) -> (r: &mut Self)
        ensures
            *final(self) == *final(r),
            *r == (RevParseCommand { short: Some(None), ..*old(self) }),
    {
        self.short = Some(None);
        self
    }

    /// `--short=<n>`.
    pub fn short_len(&mut self, n: u32) -> (r: &mut Self)
        ensures
            *final(self) == *final(r),
            *r == (RevParseCommand { short: Some(Some(n)), ..*old(self) }),
    {
        self.short = Some(Some(n));
        self
    }

    /// `--show-toplevel`.
    pub fn show_toplevel(&mut self) -> (r: &mut Self)
        ensures
            *final(self) == *final(r),
            *r == (RevParseCommand { show_toplevel: true, ..*old(self) }),
    {
        self.show_toplevel = true;
        self
    }

    /// `--git-dir`.
    pub fn git_dir(&mut self) -> (r: &mut Self)
        ensures
            *final(self) == *final(r),
            *r == (RevParseCommand { git_dir: true, ..*old(self) }),
    {
        self.git_dir = true;
        self
    }

    /// `--absolute-git-dir`.
    pub fn absolute_git_dir(&mut self) -> (r: &mut Self)
        ensures
            *final(self) == *final(r),
            *r == (RevParseCommand { absolute_git_dir: true, ..*old(self) }),
    {
        self.absolute_git_dir = true;
        self
    }

    /// `--is-inside-work-tree`.
    pub fn is_inside_work_tree(&mut self) -> (r: &mut Self)
        ensures
            *final(self) == *final(r),
            *r == (RevParseCommand { is_inside_work_tree: true, ..*old(self) }),
    {
        self.is_inside_work_tree = true;
        self
    }

    /// `--is-bare-repository`.
    pub fn is_bare_repository(&mut self) -> (r: &mut Self)
        ensures
            *final(self) == *final(r),
            *r == (RevParseCommand { is_bare_repository: true, ..*old(self) }),
    {
        self.is_bare_repository = true;
        self
    }
}

impl Default for RevParseCommand {
    fn default() -> (r: Self)
        ensures
            r.executor@ == blank_executor(),
            r == (RevParseCommand { executor: r.executor, rev_args: r.rev_args, verify: false, abbrev_ref: false, short: None, show_toplevel: false, git_dir: false, is_inside_work_tree: false, is_bare_repository: false, absolute_git_dir: false }),
            r.rev_args@.len() == 0,
    {
        Self::new()
    }
}

impl GitCommand for RevParseCommand {
    open spec fn executor_spec(&self) -> CommandExecutor {
        self.executor
    }

    open spec fn with_executor_spec(self, e: CommandExecutor) -> Self {
        RevParseCommand { executor: e, ..self }
    }

    open spec fn args_spec(&self) -> Seq<Seq<char>> {
        seq!["rev-parse"@] + flag(self.verify, "--verify"@) + flag(self.abbrev_ref, "--abbrev-ref"@)
            + short_arg(self.short) + flag(self.show_toplevel, "--show-toplevel"@) + flag(
            self.git_dir,
            "--git-dir"@,
        ) + flag(self.absolute_git_dir, "--absolute-git-dir"@) + flag(
            self.is_inside_work_tree,
            "--is-inside-work-tree"@,
        ) + flag(self.is_bare_repository, "--is-bare-repository"@) + seq_views(self.rev_args@)
    }

    proof fn lemma_with_executor(self, e1: CommandExecutor, e2: CommandExecutor) {
    }

    proof fn lemma_args_ignore_executor(self, e: CommandExecutor) {
    }

    fn get_executor(&self) -> (r: &CommandExecutor) {
        &self.executor
    }

    fn get_executor_mut(&mut self) -> (r: &mut CommandExecutor) {
        &mut self.executor
    }

    fn replace_executor(&mut self, e: CommandExecutor) -> (prev: CommandExecutor) {
        let mut e = e;
        std::mem::swap(&mut self.executor, &mut e);
        e
    }

    fn build_command_args(&self) -> (r: Vec<String>) {
        let mut args = start_args("rev-parse");
        push_flag(&mut args, self.verify, "--verify");
        push_flag(&mut args, self.abbrev_ref, "--abbrev-ref");
        let ghost before = seq_views(args@);
        match self.short {
            Some(None) => push_lit(&mut args, "--short"),
            Some(Some(n)) => push_number(&mut args, "--short=", n as u64),
            None => {},
        }
        assert(seq_views(args@) =~= before + short_arg(self.short));
        push_flag(&mut args, self.show_toplevel, "--show-toplevel");
        push_flag(&mut args, self.git_dir, "--git-dir");
        push_flag(&mut args, self.absolute_git_dir, "--absolute-git-dir");
        push_flag(&mut args, self.is_inside_work_tree, "--is-inside-work-tree");
        push_flag(&mut args, self.is_bare_repository, "--is-bare-repository");
        push_all(&mut args, &self.rev_args);
        args
    }
}

} // verus!
