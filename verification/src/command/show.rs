//! `git show` — show various types of objects.
use vstd::prelude::*;

use crate::command::{
    blank_executor, dashdash_paths, flag, opt_arg, opt_flag_arg, opt_joined, push_all,
    push_dashdash_paths, push_flag, push_into, push_joined, push_lit, push_number, push_opt,
    push_opt_flag, start_args, CommandExecutor, GitCommand, IntoText,
};
use crate::text::{decimal, opt_view, seq_views};

verus! {

/// Builder for `git show`.
#[derive(Debug, Clone)]
pub struct ShowCommand {
    /// Shared executor.
    pub executor: CommandExecutor,
    /// Objects to show.
    pub objects: Vec<String>,
    /// `--format=...`.
    pub format: Option<String>,
    /// `--stat`.
    pub stat: bool,
    /// `--name-only`.
    pub name_only: bool,
    /// `--no-patch`.
    pub no_patch: bool,
}

impl ShowCommand {
    /// New `show` command.
    pub fn new() -> (r: Self)
        ensures
            r.executor@ == blank_executor(),
            r == (ShowCommand { executor: r.executor, objects: r.objects, format: None, stat: false, name_only: false, no_patch: false }),
            r.objects@.len() == 0,
    {
        ShowCommand { executor: CommandExecutor::new(), objects: Vec::new(), format: None, stat: false, name_only: false, no_patch: false }
    }

    /// Show a specific object (commit, tag, tree, blob).
    pub fn object(&mut self, o: impl IntoText) -> (r: &mut Self)
        ensures
            *final(self) == *final(r),
            *r == (ShowCommand { objects: r.objects, ..*old(self) }),
            seq_views(r.objects@) == seq_views(old(self).objects@).push(o.text()),
    {
        push_into(&mut self.objects, o.into_text());
        self
    }

    /// Pretty format.
    pub fn format(&mut self, fmt: impl IntoText) -> (r: &mut Self)
        ensures
            *final(self) == *final(r),
            *r == (ShowCommand { format: r.format, ..*old(self) }),
            opt_view(r.format) == Some(fmt.text()),
    {
        self.format = Some(fmt.into_text());
        self
    }

    /// Include `--stat`.
    pub fn stat(&mut self) -> (r: &mut Self)
        ensures
            *final(self) == *final(r),
            *r == (ShowCommand { stat: true, ..*old(self) }),
    {
        self.stat = true;
        self
    }

    /// `--name-only`.
    pub fn name_only(&mut self) -> (r: &mut Self)
        ensures
            *final(self) == *final(r),
            *r == (ShowCommand { name_only: true, ..*old(self) }),
    {
        self.name_only = true;
        self
    }

    /// Suppress patch output.
    pub fn no_patch(&mut self) -> (r: &mut Self)
        ensures
            *final(self) == *final(r),
            *r == (ShowCommand { no_patch: true, ..*old(self) }),
    {
        self.no_patch = true;
        self
    }
}

impl Default for ShowCommand {
    fn default() -> (r: Self)
        ensures
            r.executor@ == blank_executor(),
            r == (ShowCommand { executor: r.executor, objects: r.objects, format: None, stat: false, name_only: false, no_patch: false }),
            r.objects@.len() == 0,
    {
        Self::new()
    }
}

impl GitCommand for ShowCommand {
    open spec fn executor_spec(&self) -> CommandExecutor {
        self.executor
    }

    open spec fn with_executor_spec(self, e: CommandExecutor) -> Self {
        ShowCommand { executor: e, ..self }
    }

    open spec fn args_spec(&self) -> Seq<Seq<char>> {
        seq!["show"@] + opt_joined("--format="@, self.format) + flag(self.stat, "--stat"@) + flag(self.name_only, "--name-only"@) + flag(self.no_patch, "--no-patch"@) + seq_views(self.objects@)
    }

    proof fn lemma_with_executor(self, e1: CommandExecutor, e2: CommandExecutor) {
    }

    proof fn lemma_args_ignore_executor(self, e: CommandExecutor) {
    }

    fn get_executor(&self) -> (r: &CommandExecutor) {
        &self.executor
    }

    fn get_executor_mut(&mut self) -> (r: &mut CommandExecutor) {
        &mut self.executor
    }

    fn replace_executor(&mut self, e: CommandExecutor) -> (prev: CommandExecutor) {
        let mut e = e;
        std::mem::swap(&mut self.executor, &mut e);
        e
    }

    fn build_command_args(&self) -> (r: Vec<String>) {
        let mut args = start_args("show");
        push_joined(&mut args, "--format=", &self.format);
        push_flag(&mut args, self.stat, "--stat");
        push_flag(&mut args, self.name_only, "--name-only");
        push_flag(&mut args, self.no_patch, "--no-patch");
        push_all(&mut args, &self.objects);
        args
    }
}

} // verus!
