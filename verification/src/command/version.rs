//! `git --version` — report the version of the git binary in use.
use vstd::prelude::*;

use crate::command::{
    blank_executor, dashdash_paths, flag, opt_arg, opt_flag_arg, opt_joined, push_all,
    push_dashdash_paths, push_flag, push_into, push_joined, push_lit, push_number, push_opt,
    push_opt_flag, start_args, CommandExecutor, GitCommand, IntoText,
};
use crate::command::CommandOutput;
use crate::parse::version::{version_spec, GitVersion};
use crate::text::{decimal, opt_view, seq_views};

verus! {

/// Builder for `git --version`.
///
/// Unlike the rest of the wrappers this one drives a top-level flag rather
/// than a subcommand, so the built argv is just `--version`. The output is a
/// single `git version <version>` line, with a platform suffix on some builds
/// (`2.45.1.windows.1`, `2.39.5 (Apple Git-154)`).
///
/// [`build_options`](Self::build_options) adds `--build-options`, which keeps
/// the version line and appends the build's cpu, commit, and sizeof lines.
#[derive(Debug, Clone)]
pub struct VersionCommand {
    /// Shared executor.
    pub executor: CommandExecutor,
    /// `--build-options`: append the build's cpu, commit, and sizeof lines.
    pub build_options: bool,
}

impl VersionCommand {
    /// New command.
    pub fn new() -> (r: Self)
        ensures
            r.executor@ == blank_executor(),
            r == (VersionCommand { executor: r.executor, build_options: false }),
    {
        VersionCommand { executor: CommandExecutor::new(), build_options: false }
    }

    /// Report the build options alongside the version.
    pub fn build_options(&mut self) -> (r: &mut Self)
        ensures
            *final(self) == *final(r),
            *r == (VersionCommand { build_options: true, ..*old(self) }),
    {
        self.build_options = true;
        self
    }
}

impl VersionCommand {
    /// Parse a completed run's [`CommandOutput`] into a typed version.
    ///
    /// Returns [`None`] when the output carries no `git version` line, which
    /// is the only shape the parser accepts.
    pub fn parse_version(&self, output: &CommandOutput) -> (r: Option<GitVersion>)
        ensures
            opt_view(r) == version_spec(crate::command::lossy_text(output.stdout@)),
            vstd::utf8::valid_utf8(output.stdout@) ==> opt_view(r) == version_spec(
                vstd::utf8::decode_utf8(output.stdout@),
            ),
    {
        let text = output.stdout_str();
        crate::parse::version::parse_version(text.as_str())
    }
}

impl Default for VersionCommand {
    fn default() -> (r: Self)
        ensures
            r.executor@ == blank_executor(),
            r == (VersionCommand { executor: r.executor, build_options: false }),
    {
        Self::new()
    }
}

impl GitCommand for VersionCommand {
    open spec fn executor_spec(&self) -> CommandExecutor {
        self.executor
    }

    open spec fn with_executor_spec(self, e: CommandExecutor) -> Self {
        VersionCommand { executor: e, ..self }
    }

    open spec fn args_spec(&self) -> Seq<Seq<char>> {
        seq!["--version"@] + flag(self.build_options, "--build-options"@)
    }

    proof fn lemma_with_executor(self, e1: CommandExecutor, e2: CommandExecutor) {
    }

    proof fn lemma_args_ignore_executor(self, e: CommandExecutor) {
    }

    fn get_executor(&self) -> (r: &CommandExecutor) {
        &self.executor
    }

    fn get_executor_mut(&mut self) -> (r: &mut CommandExecutor) {
        &mut self.executor
    }

    fn replace_executor(&mut self, e: CommandExecutor) -> (prev: CommandExecutor) {
        let mut e = e;
        std::mem::swap(&mut self.executor, &mut e);
        e
    }

    fn build_command_args(&self) -> (r: Vec<String>) {
        let mut args = start_args("--version");
        push_flag(&mut args, self.build_options, "--build-options");
        args
    }
}

} // verus!
