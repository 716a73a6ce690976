//! `git format-patch` — prepare each commit of a range as a patch file.
use vstd::prelude::*;

use crate::command::{
    blank_executor, flag, opt_arg, opt_flag_arg, push_flag, push_opt, push_opt_flag, start_args,
    CommandExecutor, GitCommand, IntoText,
};
use crate::text::opt_view;

verus! {

/// Builder for `git format-patch`.
///
/// Git writes one file per commit and prints each file's path, relative
/// to the directory it ran in, one per line.
#[derive(Debug, Clone)]
pub struct FormatPatchCommand {
    /// Shared executor.
    pub executor: CommandExecutor,
    /// The revision range to format (e.g. `HEAD~3..HEAD`).
    pub rev_spec: Option<String>,
    /// `-o <dir>`: the directory the patches are written to.
    pub output_dir: Option<String>,
    /// `-n`: numbered `[PATCH n/m]` subjects even for a single patch.
    pub numbered: bool,
    /// `--signoff`: add a `Signed-off-by` trailer.
    pub signoff: bool,
}

impl FormatPatchCommand {
    /// New command.
    pub fn new() -> (r: Self)
        ensures
            r.executor@ == blank_executor(),
            r == (FormatPatchCommand {
                executor: r.executor,
                rev_spec: None,
                output_dir: None,
                numbered: false,
                signoff: false,
            }),
    {
        FormatPatchCommand {
            executor: CommandExecutor::new(),
            rev_spec: None,
            output_dir: None,
            numbered: false,
            signoff: false,
        }
    }

    /// The revision range to format.
    pub fn rev_spec(&mut self, spec: impl IntoText) -> (r: &mut Self)
        ensures
            *final(self) == *final(r),
            *r == (FormatPatchCommand { rev_spec: r.rev_spec, ..*old(self) }),
            opt_view(r.rev_spec) == Some(spec.text()),
    {
        self.rev_spec = Some(spec.into_text());
        self
    }

    /// Write the patches into `dir`.
    pub fn output_dir(&mut self, dir: impl IntoText) -> (r: &mut Self)
        ensures
            *final(self) == *final(r),
            *r == (FormatPatchCommand { output_dir: r.output_dir, ..*old(self) }),
            opt_view(r.output_dir) == Some(dir.text()),
    {
        self.output_dir = Some(dir.into_text());
        self
    }

    /// Force numbered subjects.
    pub fn numbered(&mut self) -> (r: &mut Self)
        ensures
            *final(self) == *final(r),
            *r == (FormatPatchCommand { numbered: true, ..*old(self) }),
    {
        self.numbered = true;
        self
    }

    /// Add a `Signed-off-by` trailer.
    pub fn signoff(&mut self) -> (r: &mut Self)
        ensures
            *final(self) == *final(r),
            *r == (FormatPatchCommand { signoff: true, ..*old(self) }),
    {
        self.signoff = true;
        self
    }
}

impl Default for FormatPatchCommand {
    fn default() -> (r: Self)
        ensures
            r.executor@ == blank_executor(),
            r == (FormatPatchCommand {
                executor: r.executor,
                rev_spec: None,
                output_dir: None,
                numbered: false,
                signoff: false,
            }),
    {
        Self::new()
    }
}

impl GitCommand for FormatPatchCommand {
    open spec fn executor_spec(&self) -> CommandExecutor {
        self.executor
    }

    open spec fn with_executor_spec(self, e: CommandExecutor) -> Self {
        FormatPatchCommand { executor: e, ..self }
    }

    open spec fn args_spec(&self) -> Seq<Seq<char>> {
        seq!["format-patch"@] + flag(self.numbered, "-n"@) + flag(self.signoff, "--signoff"@)
            + opt_flag_arg("-o"@, self.output_dir) + opt_arg(self.rev_spec)
    }

    proof fn lemma_with_executor(self, e1: CommandExecutor, e2: CommandExecutor) {
    }

    proof fn lemma_args_ignore_executor(self, e: CommandExecutor) {
    }

    fn get_executor(&self) -> (r: &CommandExecutor) {
        &self.executor
    }

    fn get_executor_mut(&mut self) -> (r: &mut CommandExecutor) {
        &mut self.executor
    }

    fn replace_executor(&mut self, e: CommandExecutor) -> (prev: CommandExecutor) {
        let mut e = e;
        std::mem::swap(&mut self.executor, &mut e);
        e
    }

    fn build_command_args(&self) -> (r: Vec<String>) {
        let mut args = start_args("format-patch");
        push_flag(&mut args, self.numbered, "-n");
        push_flag(&mut args, self.signoff, "--signoff");
        push_opt_flag(&mut args, "-o", &self.output_dir);
        push_opt(&mut args, &self.rev_spec);
        args
    }
}

} // verus!
