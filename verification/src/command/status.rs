//! `git status` — show the working tree status.
use vstd::prelude::*;

use crate::command::{
    blank_executor, dashdash_paths, flag, opt_arg, opt_flag_arg, opt_joined, push_all,
    push_dashdash_paths, push_flag, push_into, push_joined, push_lit, push_number, push_opt,
    push_opt_flag, start_args, CommandExecutor, GitCommand, IntoText,
};
use crate::text::{decimal, opt_view, seq_views};

verus! {

/// Porcelain v2 formats and friends.
#[derive(Debug, Clone, Copy)]
pub enum StatusFormat {
    /// Short `-s` format.
    Short,
    /// Long (default) format.
    Long,
    /// `--porcelain=v1`.
    PorcelainV1,
    /// `--porcelain=v2`.
    PorcelainV2,
}

/// The flag that selects an output format.
pub open spec fn format_arg(f: Option<StatusFormat>) -> Seq<Seq<char>> {
    match f {
        Some(StatusFormat::Short) => seq!["--short"@],
        Some(StatusFormat::Long) => seq!["--long"@],
        Some(StatusFormat::PorcelainV1) => seq!["--porcelain=v1"@],
        Some(StatusFormat::PorcelainV2) => seq!["--porcelain=v2"@],
        None => Seq::empty(),
    }
}

/// Builder for `git status`.
#[derive(Debug, Clone)]
pub struct StatusCommand {
    /// Shared executor.
    pub executor: CommandExecutor,
    /// Output format override.
    pub format: Option<StatusFormat>,
    /// `--branch` / `-b`.
    pub branch: bool,
    /// `--show-stash`.
    pub show_stash: bool,
    /// NUL-terminate entries (`-z`).
    pub null_terminate: bool,
    /// `--untracked-files=<mode>`.
    pub untracked_files: Option<String>,
    /// `--ignored`.
    pub ignored: bool,
    /// Pathspec filters.
    pub paths: Vec<String>,
}

impl StatusCommand {
    /// New status command.
    pub fn new() -> (r: Self)
        ensures
            r.executor@ == blank_executor(),
            r == (StatusCommand { executor: r.executor, paths: r.paths, format: None, branch: false, show_stash: false, null_terminate: false, untracked_files: None, ignored: false }),
            r.paths@.len() == 0,
    {
        StatusCommand { executor: CommandExecutor::new(), format: None, branch: false, show_stash: false, null_terminate: false, untracked_files: None, ignored: false, paths: Vec::new() }
    }

    /// Set output format.
    pub fn format(&mut self, f: StatusFormat) -> (r: &mut Self)
        ensures
            *final(self) == *final(r),
            *r == (StatusCommand { format: Some(f), ..*old(self) }),
    {
        self.format = Some(f);
        self
    }

    /// Include branch info.
    pub fn branch(&mut self) -> (r: &mut Self)
        ensures
            *final(self) == *final(r),
            *r == (StatusCommand { branch: true, ..*old(self) }),
    {
        self.branch = true;
        self
    }

    /// Show stash count.
    pub fn show_stash(&mut self) -> (r: &mut Self)
        ensures
            *final(self) == *final(r),
            *r == (StatusCommand { show_stash: true, ..*old(self) }),
    {
        self.show_stash = true;
        self
    }

    /// NUL-separate entries.
    pub fn null_terminate(&mut self) -> (r: &mut Self)
        ensures
            *final(self) == *final(r),
            *r == (StatusCommand { null_terminate: true, ..*old(self) }),
    {
        self.null_terminate = true;
        self
    }

    /// Set untracked-file mode (`no`, `normal`, `all`).
    pub fn untracked_files(&mut self, mode: impl IntoText) -> (r: &mut Self)
        ensures
            *final(self) == *final(r),
            *r == (StatusCommand { untracked_files: r.untracked_files, ..*old(self) }),
            opt_view(r.untracked_files) == Some(mode.text()),
    {
        self.untracked_files = Some(mode.into_text());
        self
    }

    /// Also show ignored files.
    pub fn ignored(&mut self) -> (r: &mut Self)
        ensures
            *final(self) == *final(r),
            *r == (StatusCommand { ignored: true, ..*old(self) }),
    {
        self.ignored = true;
        self
    }

    /// Filter by path.
    pub fn path(&mut self, p: impl IntoText) -> (r: &mut Self)
        ensures
            *final(self) == *final(r),
            *r == (StatusCommand { paths: r.paths, ..*old(self) }),
            seq_views(r.paths@) == seq_views(old(self).paths@).push(p.text()),
    {
        push_into(&mut self.paths, p.into_text());
        self
    }
}

impl Default for StatusCommand {
    fn default() -> (r: Self)
        ensures
            r.executor@ == blank_executor(),
            r == (StatusCommand { executor: r.executor, paths: r.paths, format: None, branch: false, show_stash: false, null_terminate: false, untracked_files: None, ignored: false }),
            r.paths@.len() == 0,
    {
        Self::new()
    }
}

impl GitCommand for StatusCommand {
    open spec fn executor_spec(&self) -> CommandExecutor {
        self.executor
    }

    open spec fn with_executor_spec(self, e: CommandExecutor) -> Self {
        StatusCommand { executor: e, ..self }
    }

    open spec fn args_spec(&self) -> Seq<Seq<char>> {
        seq!["status"@] + format_arg(self.format) + flag(self.branch, "--branch"@) + flag(self.show_stash, "--show-stash"@) + flag(self.null_terminate, "-z"@) + opt_joined("--untracked-files="@, self.untracked_files) + flag(self.ignored, "--ignored"@) + dashdash_paths(self.paths@)
    }

    proof fn lemma_with_executor(self, e1: CommandExecutor, e2: CommandExecutor) {
    }

    proof fn lemma_args_ignore_executor(self, e: CommandExecutor) {
    }

    fn get_executor(&self) -> (r: &CommandExecutor) {
        &self.executor
    }

    fn get_executor_mut(&mut self) -> (r: &mut CommandExecutor) {
        &mut self.executor
    }

    fn replace_executor(&mut self, e: CommandExecutor) -> (prev: CommandExecutor) {
        let mut e = e;
        std::mem::swap(&mut self.executor, &mut e);
        e
    }

    fn build_command_args(&self) -> (r: Vec<String>) {
        let mut args = start_args("status");
        let ghost before = seq_views(args@);
        match self.format {
            Some(StatusFormat::Short) => push_lit(&mut args, "--short"),
            Some(StatusFormat::Long) => push_lit(&mut args, "--long"),
            Some(StatusFormat::PorcelainV1) => push_lit(&mut args, "--porcelain=v1"),
            Some(StatusFormat::PorcelainV2) => push_lit(&mut args, "--porcelain=v2"),
            None => {},
        }
        assert(seq_views(args@) =~= before + format_arg(self.format));
        push_flag(&mut args, self.branch, "--branch");
        push_flag(&mut args, self.show_stash, "--show-stash");
        push_flag(&mut args, self.null_terminate, "-z");
        push_joined(&mut args, "--untracked-files=", &self.untracked_files);
        push_flag(&mut args, self.ignored, "--ignored");
        push_dashdash_paths(&mut args, &self.paths);
        args
    }
}

} // verus!
